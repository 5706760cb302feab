# shared

The model and session logic of a collaborative modelling tool for shapes
made of signed distance fields, written in Verus with its contracts proved.

- `src/` is the verified library: node data and diffs (`node_data`,
  `node`), the authoritative model graph (`graph`), the canonical node graph
  of the editor (`canonical`, `id`), the editor's bookkeeping and its sync
  with the canonical graph (`client`), the float-free part of mesh
  compilation (`mesh`), message framing (`protocol`), and the decisions of
  the server's coordinator, rooms, peers and web server (`server`).
- `app/` is the server program around it: TCP and HTTP I/O, the tasks that
  carry out the library's decisions, serde copies of the wire messages, and
  the parts of mesh generation and the node defaults that need floating
  point.
- `tests/` runs the library on concrete values.
