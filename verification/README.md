# rusty_dreams

A group chat: clients send text, files and images to each other through a server; a web
front end and a database keep the history.

- `src/` is the verified library (Verus): the wire frames, the chat messages and what a
  typed line sends, the server's client registry and broadcast, the steps of accepting a
  client, login checks, the shaping of database rows into history, the web front end's
  page and cookie decisions, command names, and the `;`-separated table tool.
- `tests/` runs the library on concrete values.
- `app/` is the terminal program around it: a relay server, a client and the table tool
  (`server`, `client`, `table` subcommands), doing the network, terminal and file I/O.
