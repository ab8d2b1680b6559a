# saydone_channels

Chat channels for a desktop agent, with the decisions verified by Verus.

A channel connects a messaging platform to the conversations of the desktop. The library decides what
an incoming message leads to, what is sent back, how an agent's stream is relayed to a chat, which
completed turns are mirrored where, and how WeChat is polled. It does no I/O. Where a decision depends
on a service, it is either a function of the replies given so far, which names the next request, or a
state machine that names the next action and is told how it went.

## Layout

- `src/` is the library. Every function states its result over mathematical views of its data.
  - `action`: an incoming message, from authorization to the agent; `command` and `reply` read its
    text and what it quotes; `response` holds the answers.
  - `orchestrator`: what becomes of a message once it is known what it leads to.
  - `stream_relay`: an agent's stream, relayed to a chat.
  - `mirror`: completed desktop turns, mirrored to the channels.
  - `weixin` and `poll`: the WeChat plugin and its polling.
  - `title`: generating a title for a session.
  - `content`: a message and its attachments as content for a model.
  - `repository`: what the channel tables hold; `types`, `json` and `text` serve the others.
- `tests/` runs the library.
- `app/` connects it to services, sockets, files and clocks.

What is trusted: the calls into `serde_json` (`json`), `dashmap` (`weixin`) and `base64` (`content`),
and `String::push` (`text`). Each states above it what it claims of the function that it calls.
