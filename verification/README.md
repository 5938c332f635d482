# kameo

Mailboxes, links and terminal outcomes of supervised actors, verified with Verus.

* `src/mailbox/` holds the mailbox: a message lane, which may be bounded, and an unbounded control
  lane that is served first. `sender.rs` decides what may be sent, `receiver.rs` decides what is
  handed out, `trace.rs` is the model of what a receiver asked its lanes, and `laws.rs` states what
  holds of mailboxes as a whole.
* `src/links.rs` and `src/links/restart.rs` decide who is told of an actor's death and whether a
  supervised actor is restarted.
* `src/actor/lifecycle.rs` holds the outcome that an actor publishes once it has shut down.
* `src/platform.rs` states what is taken on trust from `tokio` and from the standard library.
* `app/` waits, counts, logs and serializes around the library.

A channel is shared between threads, so most answers of a channel are not a function of its handle.
The contracts refer to such an answer by `call_ensures`, and say what the library makes of every
answer that may come.
