# thor

A WebSocket chat client with an on-screen keyboard. The library (`src/`) holds
the verified decisions: how frames are built and read (`frame`), what the
receiving and sending loops do with each frame (`relay`), how the chat window's
state evolves under button presses, replies and the end of each drawn frame
(`chat`), and the layout of the on-screen keyboard (`keyboard`). `app/` opens
the connection, runs the two loops on threads and draws the window.
