# jukebox

A bot that plays music in the voice channels of chat guilds. Messages that start
with a quotation mark are commands: `"play <url>`, `"skip`, `"queue`,
`"disconnect`, `"playing` and `"help`.

`src/` decides: what a message asks for, what is said in answer, which track
plays next, and what is kept of the calls. It is verified with Verus. `app/` does
what is decided: it talks to the chat service and the audio player, and hands
back what came of it.

| module | what it holds |
| --- | --- |
| `text`, `duration`, `link` | text, spans of time, URLs |
| `track`, `queue`, `call` | tracks, queues of tracks, calls |
| `table` | how a queue is listed |
| `command`, `error`, `song` | what messages ask, what can fail, what the player reports |
| `step` | the actions, events and waits of which a command is made |
| `handler` | the bot |
| `laws` | what holds of the bot as a whole |

A command is carried out in steps. `Handler::message` gives the first one. As
long as a step asks for an action, the action is performed and
`Handler::resume` is told what came of it. The end of a track goes to
`Handler::track_end`.
