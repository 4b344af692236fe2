# rivet

A relay that receives audio and video from a browser over WebRTC and plays
the stream back over RTSP.

- `src/` is the verified library:
  - `common`: the registry of published streams (endpoint path to its pair
    of broadcast buses), with its map model and lemmas;
  - `signalling`: the per-connection signalling state and its decisions on
    open, message and close;
  - `webrtc`: the WebRTC setup description, pad routing, and the outgoing
    offer and ICE messages;
  - `rtsp`: the RTSP mount description;
  - `caps`: the RTP media descriptions;
  - `json`, `json_text`: the model of incoming JSON, and the JSON text of
    strings and numbers, with the lemmas that show distinct contents give
    distinct message texts;
  - `laws`: properties that span several functions;
  - `error`: why a stream setup failed.
- `app/` is the program: the WebSocket server, the GStreamer pipelines and
  the RTSP server, which perform what the library decides.
- `tests/` runs the library on concrete values.
