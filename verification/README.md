# minimald

The daemon that hosts sessions: shells in sandboxes, each with its packages and
its files, that clients attach to over SSH and leave again.

- `src/` is the library. It holds what the daemon decides: how it comes up, how
  a session goes from a draft to a running shell and to its end, what an upload
  may contain, which hooks run and for how long, what a client is told. Every
  function is verified with Verus; what must hold across functions stands as
  proof functions whose names begin with `law_`.
- `app/` is the program around it. It reads, writes and waits, reports what
  happened to the library, and does what that decides.
- `tests/` runs the library on concrete values.

Code that waits is written as a state in the library and a loop in the program:
the loop performs the step that the state asks for and hands the outcome back.
