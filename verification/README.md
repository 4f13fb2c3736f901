# rebuildctl

The command line front end of a rebuilderd daemon: it shows what the workers do, syncs the
packages of a suite to the daemon, lists packages, and shows and changes the queue.

`src/` is a library that decides and formats, verified with Verus. `app/` is the program around
it, which reads files, talks to the daemon and prints.

| module    | what it holds                                                              |
|-----------|----------------------------------------------------------------------------|
| `run`     | the course of a command: from how the last action went to the next action  |
| `laws`    | what holds of every run, and of what is printed                            |
| `command` | the command line, the endpoint and the defaults                            |
| `sync`    | printing or sending the packages of a suite, and the sync of a profile     |
| `profile` | the sync config file, profiles by name                                     |
| `pattern` | compiling the globs of a profile, with `glob`                              |
| `table`   | the tables of workers, packages and the queue                              |
| `paint`   | colors, with `colored`                                                     |
| `time`    | points in time, with `chrono`                                              |
| `text`    | columns, quoting and the framing of JSON                                   |
| `error`   | what can stop a command, and its report                                    |
| `api`     | requests to the daemon and what is read of its answers                     |
