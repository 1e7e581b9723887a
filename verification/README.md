# anland

A display backend that draws a Linux compositor into buffers of an Android consumer, and passes on
its input, clipboard, audio and cameras.

- `src/` is the library: message layouts, the connection and its fallback, the turns of the poll
  timer, rendering, the audio and camera workers and their readers. All of it is verified with
  Verus. Nothing in it touches a socket, a thread or a clock: each part is a state machine that
  names an action and takes how that action went.
- `app/` carries the actions out, with libc, PipeWire and smithay.
- `tests/` runs the library on concrete values.

The contracts are stated over plain values: each type has a view or is one itself, and each step is
a spec function on it. The proof functions whose names begin with `law_` state what holds over
several steps: that every descriptor has one owner, that every exchange ends, that a turn completes
one frame for one signal and takes all input that waits, that a camera gets each slot back once and
in order, that stopping leaves nothing behind, that no frame is shown in part.
