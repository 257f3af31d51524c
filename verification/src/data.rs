//! Document records and the kinds of file they describe.

use vstd::prelude::*;
use crate::documents::SaveFilesRequest;
use crate::utils::{hash_string, spec_hash_string};

verus! {

/// The kinds of file the service stores.
#[derive(Debug, Clone, Copy, PartialEq, Eq, Hash, Structural)]
pub enum DocType {
    DOCX,
    XLSX,
    XLS,
    TXT,
    JPG,
    PNG,
    SVG,
}

/// Office and text documents go to `files`, pictures to `images`.
pub open spec fn spec_folder(t: DocType) -> Seq<char> {
    match t {
        DocType::DOCX | DocType::XLSX | DocType::XLS | DocType::TXT => "files"@,
        DocType::JPG | DocType::PNG | DocType::SVG => "images"@,
    }
}

/// The wire code of each kind: 1 to 7 in declaration order.
pub open spec fn spec_doc_type_of(code: int) -> DocType {
    if code == 1 {
        DocType::DOCX
    } else if code == 2 {
        DocType::XLSX
    } else if code == 3 {
        DocType::XLS
    } else if code == 4 {
        DocType::TXT
    } else if code == 5 {
        DocType::JPG
    } else if code == 6 {
        DocType::PNG
    } else {
        DocType::SVG
    }
}

/// The variant's name, as the database enum `doc_types` and `Debug` spell it.
pub open spec fn spec_doc_type_name(t: DocType) -> Seq<char> {
    match t {
        DocType::DOCX => "DOCX"@,
        DocType::XLSX => "XLSX"@,
        DocType::XLS => "XLS"@,
        DocType::TXT => "TXT"@,
        DocType::JPG => "JPG"@,
        DocType::PNG => "PNG"@,
        DocType::SVG => "SVG"@,
    }
}

impl DocType {
    /// The directory, below a room, that holds files of this kind.
    pub fn folder(&self) -> (folder: String)
        ensures
            folder@ == spec_folder(*self),
    {
        match self {
            DocType::DOCX | DocType::XLSX | DocType::XLS | DocType::TXT => "files".to_owned(),
            DocType::JPG | DocType::PNG | DocType::SVG => "images".to_owned(),
        }
    }

    /// The kind with wire code `v`; codes outside 1..=7 are not declared.
    pub fn from(v: i32) -> (t: DocType)
        requires
            1 <= v <= 7,
        ensures
            t == spec_doc_type_of(v as int),
    {
        if v == 1 {
            DocType::DOCX
        } else if v == 2 {
            DocType::XLSX
        } else if v == 3 {
            DocType::XLS
        } else if v == 4 {
            DocType::TXT
        } else if v == 5 {
            DocType::JPG
        } else if v == 6 {
            DocType::PNG
        } else {
            DocType::SVG
        }
    }

    /// The kind's name, as `{:?}` prints it.
    pub fn name(&self) -> (name: String)
        ensures
            name@ == spec_doc_type_name(*self),
    {
        match self {
            DocType::DOCX => "DOCX".to_owned(),
            DocType::XLSX => "XLSX".to_owned(),
            DocType::XLS => "XLS".to_owned(),
            DocType::TXT => "TXT".to_owned(),
            DocType::JPG => "JPG".to_owned(),
            DocType::PNG => "PNG".to_owned(),
            DocType::SVG => "SVG".to_owned(),
        }
    }
}

/// Codes 1 to 4 name documents kept under `files`, codes 5 to 7 pictures
/// kept under `images`; distinct codes name distinct kinds.
pub proof fn lemma_code_folder(code: int, other: int)
    requires
        1 <= code <= 7,
        1 <= other <= 7,
    ensures
        code <= 4 ==> spec_folder(spec_doc_type_of(code)) == "files"@,
        code >= 5 ==> spec_folder(spec_doc_type_of(code)) == "images"@,
        code != other ==> spec_doc_type_of(code) != spec_doc_type_of(other),
{
}

/// One stored file: who owns it, where it lives and what it is.
#[derive(Debug, Clone)]
pub struct Document {
    pub file_id: String,
    pub file_name: String,
    pub file_type: DocType,
    pub user_hash: String,
    pub file_url: String,
    pub room_id: String,
}

/// Where a document is written: `data/{room}/{folder}/{file_id}-{file_name}`.
pub open spec fn spec_file_url(room_id: Seq<char>, t: DocType, file_id: Seq<char>, file_name: Seq<char>) -> Seq<char> {
    "data/"@ + room_id + "/"@ + spec_folder(t) + "/"@ + file_id + "-"@ + file_name
}

/// The text that describes a document.
pub open spec fn spec_document_text(d: Document) -> Seq<char> {
    "Document:\n  name: "@ + d.file_name@ + ";\n  doc type: "@ + spec_doc_type_name(d.file_type)
        + "\n file_id: "@ + d.file_id@ + "\n  file_url: "@ + d.file_url@ + "\n"@
}

impl Document {
    /// The record for a save request, before it has an id and a place on
    /// disk: the user is stored by the hash of their id salted with `salt`.
    pub fn from(req: SaveFilesRequest, salt: String) -> (doc: Document)
        requires
            1 <= req.doc_type <= 7,
        ensures
            doc.file_id@ == Seq::<char>::empty(),
            doc.file_name@ == req.file_name@,
            doc.file_type == spec_doc_type_of(req.doc_type as int),
            doc.user_hash@ == spec_hash_string(req.user_id@, salt@),
            doc.file_url@ == Seq::<char>::empty(),
            doc.room_id@ == req.room_id@,
    {
        let user_hash = hash_string(req.user_id, salt);
        Document {
            file_id: String::new(),
            file_name: req.file_name,
            file_type: DocType::from(req.doc_type),
            user_hash,
            file_url: String::new(),
            room_id: req.room_id,
        }
    }

    /// Places the document under room `room_id`: sets `file_url` to
    /// `data/{room_id}/{folder}/{file_id}-{file_name}`. The document must
    /// already have an id. Whether a file is already there is for the caller
    /// to check on disk.
    pub fn set_url(&mut self, room_id: String) -> (r: Result<(), std::io::Error>)
        requires
            old(self).file_id@.len() > 0,
        ensures
            r is Ok,
            final(self).file_url@ == spec_file_url(room_id@, old(self).file_type, old(self).file_id@, old(self).file_name@),
            final(self).file_id == old(self).file_id,
            final(self).file_name == old(self).file_name,
            final(self).file_type == old(self).file_type,
            final(self).user_hash == old(self).user_hash,
            final(self).room_id == old(self).room_id,
    {
        let mut path = "data/".to_owned();
        path.append(room_id.as_str());
        path.append("/");
        let folder = self.file_type.folder();
        path.append(folder.as_str());
        path.append("/");
        path.append(self.file_id.as_str());
        path.append("-");
        path.append(self.file_name.as_str());
        self.file_url = path;
        Ok(())
    }

    /// The text that describes the document, as the service logs it.
    pub fn to_string(&self) -> (text: String)
        ensures
            text@ == spec_document_text(*self),
    {
        let mut text = "Document:\n  name: ".to_owned();
        text.append(self.file_name.as_str());
        text.append(";\n  doc type: ");
        let name = self.file_type.name();
        text.append(name.as_str());
        text.append("\n file_id: ");
        text.append(self.file_id.as_str());
        text.append("\n  file_url: ");
        text.append(self.file_url.as_str());
        text.append("\n");
        text
    }
}

} // verus!
