# newsletter_rs

The rules of a newsletter service, verified with Verus, and the service
around them.

- `src/` is the verified library: subscriber names and e-mail addresses
  (`domain`), the settings, environments and connection strings
  (`configuration`), the e-mail delivery request (`email_client`), the
  subscription decisions (`routes`), secrets (`secret`) and text helpers
  (`text`).
- `app/` is the HTTP service (actix-web, sqlx, reqwest, config): it reads the
  settings, extracts requests, stores subscribers and sends e-mail, and asks
  the library what to answer.
- `tests/` exercises the library.
