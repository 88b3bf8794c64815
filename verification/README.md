# linux_desktop_manager

Desktop sessions for a remote desktop service on Linux: whose desktop a remote user is served, and
how an X session or a Wayland session is started for a user where nobody is logged in.

- `src/` takes the decisions. Each task that needs the system is a row of steps with one function
  that goes from a step, and what came of it, to the next step. Verus proves the contract of each
  function, except for the calls in `src/outside.rs`, whose behaviour is taken on trust. The proof
  functions whose names begin with `law_` state what holds of whole tasks: a request is written
  only after PAM accepted the user, PAM is given the credentials of the request, what is written to
  the request file is what the daemon reads, a session that was started runs, its processes share
  one display and one authority file, an X server that was started is brought to an end before a
  failure is told, and more.
- `app/` does the work: files, processes, threads and PAM. It asks the library for a step, performs
  it, and hands back what came of it. The parts of the application that it relies on, such as the
  wording of the answers, come in through the trait `Platform`.
- `tests/` runs the library on examples.
