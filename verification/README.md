# sso

Single sign-on for a password server: what is decided when a user logs in through an OpenID
Connect provider, written in Rust and proved with Verus.

The library decides and the server acts. A procedure that needs the database, the provider or
the mail server comes as a `Step`: it is done, or it names an action and waits in a state. The
server performs the action, hands the reply to the state, and gets the next step.

- `src/` is the library. Every procedure has a specification of its steps (`*_start` and
  `after`), and an executable form that is proved to take just these steps (the function of the
  procedure's name, then `advance`). `resume` is `advance` at the present time, with the key
  sealed where a key is to be sealed.
- `src/store.rs` models the records of a server, and `src/laws.rs` states what a login leaves
  behind in them: who becomes a member, who is confirmed, what stays as it was.
  `src/replies.rs` states what holds of them whatever the server replies.
- `app/` carries the procedures out against a database and a provider, and turns tokens from
  text into claims and back.
- `tests/` runs the library with the crates that it calls.

What is believed without proof is marked `external_body` or `assume_specification`: the clocks
(`src/clock.rs`), base64 (`src/base64.rs`), RSA (`src/seal.rs`), and two functions on strings
(`src/text.rs`). The comment above each says what is claimed.
