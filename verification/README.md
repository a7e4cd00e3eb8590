# chat_connection

The server's side of a chat connection, verified with Verus.

- `src/wire.rs`: the three little-endian words at the head of every frame.
- `src/text.rs`: UTF-8 conversion.
- `src/message.rs`: messages, the line each is shown as, the frame each is sent in.
- `src/readiness.rs`: what is used of mio's `Token`, `EventSet` and `PollOpt`.
- `src/event.rs`: what a connection is told and what it asks for.
- `src/state.rs`: the state of a connection as a value, and how each event changes it.
- `src/connection.rs`: the connection itself.
- `src/laws.rs`: what holds across several calls.
- `app/`: the connection over a mio socket.

A frame is a header of twelve bytes (command, length of the name, length of the text) followed by
the name and the text. The commands are 0 (login), 1 (logout), 2 (message) and 3 (list). A client
sends no text with a login, and neither name nor text with a logout or a list.
