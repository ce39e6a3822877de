# task_management_app

A task-management web service: users register and log in, receive a signed
session token, and manage their own tasks through a JSON API; a browser client
renders the forms and lists.

- `src/` is the verified library. `error` maps authentication errors to their
  replies; `token` issues and reads HS256 session tokens; `auth` extracts the
  bearer token from the `Authorization` header and authenticates a request;
  `account` hashes and checks passwords and answers registrations and logins;
  `tasks` holds the task endpoints' decisions; `client` holds the browser
  client's paths, headers, reply handling and display texts; `decimal` parses
  and formats `i64` ids; `models` holds the data types.
- `tests/` exercises the library on concrete values.
- `app/` is the server (axum, SQLite through sqlx) and the Leptos client; it
  reads requests and the database and hands plain values to the library.
