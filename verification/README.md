# sshbind

Binds services that sit behind a chain of SSH jump hosts to local addresses.
Credentials come from a SOPS-encrypted YAML file; keyboard-interactive logins
can answer TOTP prompts.

The crate is written in Verus. `src/` holds the logic, each function with a
contract that Verus proves:

- `types`, `text`: `host:port` addresses (parsing and printing), credentials,
  and the cancellation flag of a server.
- `auth`, `prompt`: the authentication methods, the state machine of user
  authentication, and the answers to keyboard-interactive prompts.
- `tunnel`, `healing`: how a connection is carried, when a tunnel stops, and
  when and how a broken SSH session is rebuilt.
- `bind`, `registry`: the targets of a binding, the search for `sops`, and the
  table of running bindings.
- `daemon`, `logging`, `cli`: the daemon's requests and answers, the framing of
  messages on its socket, the start-up protocols on the named semaphores that
  let one daemon serve, and the command line.
- `executor`, `async_ssh`: the bookkeeping of the executor and its reactor
  (tasks, wakers, run queue, I/O sources) and the tokens of I/O sources.

`app/` performs what the library decides: sockets, SSH sessions, threads, the
daemon's local socket and semaphores, the log file, and the command line.
