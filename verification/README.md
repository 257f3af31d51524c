# calby_docs

A document storage service. `src/` is the verified library; `app/` is the
server around it (environment, PostgreSQL, file system, HTTP).

- `data`: document kinds, their folders and names; document records and
  where a document is written.
- `documents`: the service's request and reply messages.
- `service`: directories, file ids, the stored record and the replies of
  each call.
- `schema`: the stored-file rows and the rule for who may read a file.
- `enviroment`: settings snapshot, mode, host and port, start-up banner.
- `router`: HTTP replies by method and path.
- `utils`: salted user hashing.
- `text`: decimal and hexadecimal renderings.
- `bindings`: the calls into rust-crypto and uuid, with their trusted
  contracts.
