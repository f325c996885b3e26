# stool

A terminal helper for SSH logins, SCP transfers, Docker builds pushed to AWS
ECR, AWS SSO profiles, file search and system updates.

- `src/` is the verified library. It holds the configuration records, the
  error values, every menu the tool shows and what each pick means, the
  command lines it runs (with the error each failure becomes), version
  parsing and raising, the text added to `~/.aws/config`, glob matching,
  and the interactive operations (`connect`, `transfer`, `build_only`,
  `push_to_ecr`, `ecr_login` and the SSO profile menus) as state machines
  whose questions say how they are asked (preselected menu entry, optional
  answer, file-name completion). `src/laws.rs` proves properties that span operations.
- `app/` is the program around it: command-line parsing, prompts, reading
  the YAML configuration, running the planned commands and file access.
- `tests/` runs the library on concrete values.
