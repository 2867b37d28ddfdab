# client

A client for the Twitter (X) HTTP API and for the web interface of a mail
provider, written in Verus.

- `src/` is the verified library. It builds every request the client sends
  (OAuth token requests, likes, retweets, tweets, media uploads, the user
  description, the mail provider's forms), reads the answers (form-encoded
  token replies, response statuses, hidden form tokens in HTML pages), checks
  tweets before they are sent, and drives the mail password change as a state
  machine whose steps `app/` performs.
- `app/` is the login helper program: an axum server that runs the OAuth
  login, and the code that sends the library's requests with reqwest and
  reqwest-oauth1.
- `tests/` runs the library on concrete values.

The original's account-manager program is not in `app/`: it logs in and
manages the account through the `x_rs` crate's `account` API, and the `x-rs`
crate that the registry offers (0.1.0) is an unrelated crate without that
API, so the program cannot be built here. Its own decisions (which OAuth
grants to revoke, the check of the account's contact details, the
environment file it writes) stand in `src/manager.rs`, and the mail password
change it runs stands in `src/account.rs`.
