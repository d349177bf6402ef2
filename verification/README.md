# omnyssh_core

The verified core of an SSH client session. `src/` holds the decisions, each
with a contract that Verus proves:

- `route`: the bastions of a host and the walk along them, with its time budget
- `hop`: the stages of connecting one hop
- `known_hosts`: whether a server's key is accepted
- `auth`, `method`, `keys`: which authentication methods are tried, in which
  order, and where keys are looked for
- `command`, `output`: running a command and what is made of its output
- `config`: the key exchanges and keepalives of a connection
- `error`, `host`, `text`: errors and their texts, hosts, line endings

`app/` performs the actions over the network with `russh` and `tokio`. `tests/`
runs the library on concrete values.
