# timeline

Collects documents from Paperless NGX into Postgres and shows them as a
timeline behind an OpenID Connect login.

- `src/` is the verified library: the document pager, the sync schedule,
  the login decisions, the pages and the settings, each with its contract.
- `app/` is the server around it: HTTP, database, the provider's endpoints
  and the configuration file.
- `tests/` run the library on concrete values.
