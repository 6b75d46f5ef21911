# resumable_http

HTTP downloads that survive a lost connection: which failures are worth another try, how many tries
there are, and how a download goes on behind the last byte that was delivered.

- `src/` is the library. It decides and computes, and Verus proves its contracts. It holds no
  connection: `ResumableReader` is told what became of a read, a pause or a request, and answers what
  to do next. `src/laws.rs` states what holds of the whole, for example that the consumer of a
  download gets every byte once and in order. `src/trusted.rs` has the calls into other crates, each
  with what is taken for granted of it.
- `app/` puts the library to work over `reqwest`: it walks the sources of errors, sleeps, sends the
  requests and reads the bodies.
- `tests/` runs the library together with the crates that it calls.
