# apollo

A file server for rhythm game charts. Charts belong to chart sets, carry
free-form metadata and a file; chart sets can hold labelled auxiliary files.
Files are stored content-addressed, in memory or in an S3 bucket.

- `src/` is the verified library (Verus):
  - `decimal`: decimal text of integers and the parsing of port numbers;
  - `storage`: storage backends, the in-memory backend, content hashing and the
    content-addressed file store, with the laws of reading back what was stored;
  - `local_storage`, `s3_storage`: file ids of the disk and S3 stores;
  - `guards`: the upload key check and request numbering;
  - `server`: start-up configuration (storage backend, port);
  - `routes`: the decisions of each HTTP route between its database and
    storage calls.
- `app/` is the Rocket server around it: routes, database queries, S3 and disk
  I/O, configuration loading.
- `tests/` exercises the library on concrete values.
