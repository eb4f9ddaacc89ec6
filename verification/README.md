# rattler_sandbox

A library for running untrusted commands inside a platform sandbox. It
holds the sandbox's decision logic, each function with a contract that
Verus proves:

- `path`, `path_model` — lexical path normalization and `AbsolutePathBuf`,
  a path kept in normalized form; the model says how a path splits into
  components, how `.` and `..` resolve and how components are written back.
- `policy`, `policy_transforms` — permission profiles, file-system and
  network policies, the legacy `SandboxPolicy`, and the mapping between them.
- `manager` — engine selection and the transform of a command into the
  command line to spawn.
- `linux` — the Linux helper's command line and the bubblewrap warning.
- `windows_path` — how a path is placed under a base on Windows, drives
  included.
- `network_proxy`, `env_map` — the child's environment and proxy injection.
- `windows`, `otel` — entry points of the Windows engine; off Windows they
  report that it is unavailable.

`app/` is the executable and everything that touches the host: the process
working directory, environment variables, the file system, JSON
serialization, and error types with `Display`.
