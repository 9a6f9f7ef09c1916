# utmd

Disposable VM sandbox manager for UTM on macOS: create, run, list and prune
sandbox VMs cloned from template VMs, through `utmctl`.

- `src/` is the library, verified with Verus: reading `utmctl list` output,
  deciding where `utmctl` may live, naming new VMs, the state file of created
  VMs, the layered configuration (defaults, config file, environment, flags),
  and every decision and message of the subcommands.
- `app/` is the `utmd` binary: argument parsing, files, the environment,
  processes with time limits, prompts and JSON printing.
- `tests/` exercises the library on concrete values.
