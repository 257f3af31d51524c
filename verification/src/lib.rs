//! Document storage service: document records, their on-disk layout, user
//! hashing, file identifiers, access checks, configuration and routing.

pub mod bindings;
pub mod documents;
pub mod text;
pub mod utils;
pub mod data;
pub mod enviroment;
pub mod schema;
pub mod router;
pub mod service;
