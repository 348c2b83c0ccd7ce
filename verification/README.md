# vvDOOM

Doom, played in a terminal through a Vivid presenter: the image goes out as a live raster track, the
sound as a live PCM track, and the input comes in as terminal reports.

`src/` is the verified library. It makes the decisions of the program, apart from the acceleration of
the mouse, which is computed in floating point; every function states what it returns or changes, and
Verus proves it.

- `geometry`: where the image stands in the terminal, and what mouse motion over it means
- `media`, `workers`: what the tracks claim, how they are paced, what they carry
- `queue`, `keys`: the queues between the game, its workers and the terminal
- `presentation`: setup, activation, loss of tracks, retries and shutdown
- `runtime`: the state of a running game, its frame and its end
- `windows_input`, `fields`, `input`: the decoder of the console's control sequences, and the controls
- `terminal`, `cli`, `client`, `text`, `error`: the terminal modes, the command line, the session
  request, texts and kinds of errors

Functions named `law_...` state what holds across several of the others, for example that queues keep
the newest items, that input decodes the same however it is cut into pieces, that the loss of the
sound leaves the game running, and that a terminal is restored in the opposite order.

What the library takes from other crates without proof stands behind small functions marked
`external_body`, and one `assume_specification`; each names the item it stands for and what it claims
of it.

`app/` is the program around the library: the command line parser, the session, the threads, the
terminal and the engine's C interface. `tests/` runs the library on concrete values.
