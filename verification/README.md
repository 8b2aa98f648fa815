# bc_camera

Client-side logic for Baichuan (Reolink) cameras, verified with Verus.

The library in `src/` performs no I/O. It decides what is sent to a camera and
what the answers mean:

- `find_camera`: the search for a camera over TCP and UDP, as a state machine
  that issues commands and takes events; `registration` paces its retries and
  `search_laws` states what holds of every search;
- `snapshot`: fetching a picture, from the request to the last chunk;
  `snapshot_turns` shows that calls that take turns do not mix their chunks;
- `camera`: message numbers, credentials and ability checks;
- `digest`: the digests that login messages carry;
- `net`: addresses and the sockets that are probed;
- `options`, `model`, `error`: the data that the others work on.

`app/` carries the decisions out: it awaits, sleeps, holds locks and talks to
the connection layers through the traits in `app/transport.rs`.

Three functions outside the library are relied on and not verified:
`md5::compute`, the upper-case formatting of `md5::Digest`, and `Arc::clone`.
What is claimed of each stands above its wrapper. `rand::random` is called too,
and nothing is claimed of what it returns.
