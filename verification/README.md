# monrs

A small monitoring agent. The library (`src/`) holds its logic, verified
with Verus:

- `process`: which entries of `/proc` are processes, how the lines of
  `/proc/<pid>/status` make a process record, and which records a listing
  keeps;
- `status`: the scheduling state letters;
- `decimal`: unsigned decimal numbers as `/proc` writes them;
- `pattern`: the status line pattern, matched by the `regex` crate;
- `watch`: counting new log lines into a request rate, and when to reopen
  the log; the redis key a rate is published under;
- `units`: the unit a summed rate is shown in.

`app/` reads `/proc` and the log file, talks to redis and serves the
process list as JSON over TCP; `app fetch` runs the rate dashboard.
