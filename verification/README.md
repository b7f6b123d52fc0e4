# devmgr

Small utility for managing devcontainers, with its logic verified by Verus.

- `src/` is the verified library:
  - `devcontainer.rs`: which containers that Docker lists are devcontainers,
    what is read from each (id, name, host path, workspace, user), finding the
    devcontainer opened from a path, and how a devcontainer is shown.
  - `environment.rs`: the environment of a command run in a devcontainer
    (`TERM`, `SHELL`, UTF-8 `LANG`/`LC_CTYPE`, `LC_ALL`) and the command line
    of an interactive shell.
  - `keys.rs`: encoding of key events as the bytes a container's TTY
    expects.
  - `session.rs`: the steps of an attached command session, what terminal
    events become, and the program's exit status.
  - `terminal.rs`: recognising the refusal to resize a stopped command.
  - `text.rs`: character and string helpers.
- `app/` is the `devmgr` command: argument parsing, the Docker client, the
  terminal, and the conversions between their values and the library's.
- `tests/` runs the library on concrete values.
