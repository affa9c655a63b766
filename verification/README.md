# api

A web service that keeps anime, manga and users, and each user's progress
on what they watch and read.

- `src/` is the verified library: the records the service stores, Jikan's
  search results and how they become anime records, the search over stored
  names, the e-mail rule and the defaults of a new user, login tokens, the
  response cache's keys, and the decision of every request handler (which
  status and body it answers with, what it does to the cache, and which
  documents it adds to the manga search index), each with
  its contract. `src/text.rs` holds the character-level helpers they use.
- `app/` is the program around it: the HTTP server, the database, cache and
  search-index connections, JSON encoding, the logger, and the live connection.
- `tests/` runs the library on concrete values.
