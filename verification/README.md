# wsforwarder

A server that takes audio from websocket clients, relays it to a speech
recognition service ("stem"), and posts the results to a callback address.

`src/` is the verified library: what a session does about each event, the
audio formats and authorization headers it understands, the requests to the
callback, the configuration and the log. `app/` is the server around it: the
actors, the connections and the environment.
