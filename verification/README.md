# vnc

The connection side of a VNC client, verified with Verus.

A connection consists of four conversations, and each is a state machine: a
value that says what is to be done next and takes the answer.

| module      | what it decides                                                   |
|-------------|-------------------------------------------------------------------|
| `handshake` | the client's first byte up to its first request                   |
| `decoding`  | what becomes of each message and rectangle that the server sends  |
| `traffic`   | bytes from the network to decoding, messages from user to network |
| `client`    | what the user may ask of a running, or closed, connection         |
| `rectangle` | the header of a rectangle                                         |
| `machine`   | state machines, and whole runs of them                            |
| `types`     | messages, events, encodings, errors                               |
| `outside`   | the calls into tokio and std, with what is claimed of each        |

Every machine has its transitions as a spec function (`next`), a `step` that is
proved to compute it, and proved statements on whole runs: that a handshake is
completed in one way only, that an update is taken to its last rectangle, that
messages are written in the order in which they came, that each event goes to
one caller, that an idle connection ends when it is closed. No byte is lost
between the network and the decoding loop while that loop runs: what was read is
what the channel between them took, followed by what is still held, and at the
end of the stream the channel has taken all of it.

`app/` holds the asynchronous side, which runs the machines on a stream. It
expects the wire format of the messages and the picture decoders as a
`Protocol`.
