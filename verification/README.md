# blocklist

The verified core of an agent blocklist in a terminal: the rules that
decide what the agent may do on its own, the queue of prompts waiting to be
sent, the ownership of conversations by terminal views, the liveness
accounting of long-running commands, the shell commands that list files,
and the messages and decisions of the agent's input and status bars.

Everything under `src/` is written in Verus and proved against its
contracts; `app/` holds what talks to the operating system (process
sampling) and cannot be verified.

| module | what it holds |
|---|---|
| `permissions` | auto-execution, file read/write, terminal write and question permissions; command allow/deny lists |
| `queued_query` | per-conversation queues of prompts and commands, the auto-queue toggles |
| `history_model` | which view owns, shows and cleared which conversation; the events that report it |
| `lrc_activity`, `process_tree` | activity of a long-running command's process tree between reports |
| `file_glob`, `shell` | `find`, `git ls-files` and `Get-ChildItem` commands, quoting, path joining, reading their output |
| `file_edits` | the answer to a request for file edits once the diff view reports |
| `attachments`, `context_references` | the references in a query and the attachments keyed by them |
| `message_bar`, `agent_view`, `toolbar` | which message the agent bar shows, shortcuts, toolbar items |
| `status_bar` | what a stop request or Ctrl-C cancels |
| `suggestions` | when prompt suggestions are requested and what they offer |
| `controller`, `history`, `block_model`, `conversation_details`, `command_attribution`, `text` | smaller decisions and shared text functions |

Laws that span several operations are stated as public proof functions
named `law_*`.
