# train_viewer

The verified core of a train consist and schedule viewer: it reads the passenger train
consist feed and its archive, the CORPUS location extract, the BPLAN geography dataset and
the weekly CIF schedule extract, and turns them into the rows that an API serves.

- `src/` is the library, checked by Verus: the fixed-width CIF record reader and the
  schedule assembly (`cif`, `schedule`), the archive message splitter (`archive`), the
  BPLAN record scan and code tables (`bplan`), the CORPUS location rows (`corpus`), the
  consist message rows (`payload`), the cache refresh decisions (`refresh`), checksums and
  feed credentials (`digest`), gzip reading (`gzip`), the Kafka settings and relay record
  (`feed`), and the text helpers these share.
- `app/` holds the programs around it: database access, S3 and HTTP downloads, Kafka,
  the GraphQL server and the scheduled jobs.
- `tests/` exercises the library on concrete inputs.
