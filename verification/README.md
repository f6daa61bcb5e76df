# pancakes

A helper for students who start with Python: it installs Python through
uv, creates projects with virtual environments, and lists guides.

`src/` is the verified library:

- `text`: digits, number spelling and reading, splitting, trimming,
  searching inside texts.
- `release`: Python release numbers (reading and spelling them) and the
  choice of installer for a system.
- `version`: PEP 440 versions (read by `pep440_rs`) and what uv reports.
- `process`: finished child processes, and what uv's runs mean.
- `paths`, `commands`, `file`: paths and the uv commands the program runs.
- `guide`: the order in which guides are listed and the guide search.
- `install_modal`, `env_modal`, `gui`, `app_state`, `structs`: the dialogs
  and the state of the interface, as state machines that say what to do.

`app/` is a terminal front end that performs the work the library asks for
(running processes, files, network).
