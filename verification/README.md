# sfsu

Stupid fast Scoop utilities: a faster companion to the Scoop package manager
for Windows, with its decisions written in Verus and proved against their
contracts.

- `src/` is the verified library: architecture names, the shell hooks that
  route `scoop <command>` to sfsu, names and ordering of cache files, editing
  of Scoop's configuration, and what each command reports, in which order,
  from the facts it gathered.
- `app/` is the command line front end: argument parsing, reading and
  writing files, running `wsl`, and printing.
- `tests/` runs the library on concrete values.
