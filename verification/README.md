# heapify-cli

The command line and the two screens of a heap tracer: what a target's allocator calls look
like on a terminal, in a trace file, on a replay screen and on a live debugger screen.

`src/` is the library. Verus verifies all of it: every function states in its contract what it
returns or changes.

| modules | what they hold |
| --- | --- |
| `text`, `number` | texts, numbers and how they are read and written |
| `config`, `args`, `session` | options, the command line, and what a session records of itself |
| `record`, `record_text`, `replay_text`, `print_text` | the records of a trace and their texts |
| `replay` | a recorded trace: its events, their records, the replay screen's state |
| `event`, `breaks` | allocator calls, and the conditions that pause a target |
| `arena`, `views`, `worker` | which views of the allocator are read at a call, and what is recorded |
| `snapshot`, `registers`, `classify`, `stop_text` | what a stopped target shows |
| `search`, `panes`, `live`, `live_app`, `live_update`, `live_text`, `live_keys` | the live screen: its state, the updates and keys that change it, and its texts |
| `screen`, `keys` | where the panes of both screens are, and the keys that they take |

Properties that relate several functions are public proof functions whose names begin with
`law_`.

Three things are trusted: `String::push` and `str::to_uppercase` of std, and
`ratatui::layout::Layout::split`, of which only the number of the parts and their shared edges
are stated.

`app/` is the program around the library: the terminal, trace files and their JSON form, and the
link to a debugger. `tests/` runs the library.
