# simplemad

Decoding of MPEG audio (MP3) through libmad, with the decoding loop's decisions
verified in Verus.

- `src/` — the verified library: libmad's error and flow values (`error`, `flow`),
  building a `Frame` from libmad's PCM output (`frame`), the input buffer that
  feeds libmad (`input`), the callbacks' decisions (`callbacks`) and what a
  decoder yields for each message of the decoding thread (`receive`).
- `app/` — the `Decoder` iterator: the decoding thread, the channel, the C
  declarations of libmad and the callbacks that call into the library.
- `tests/` — tests of the library on concrete values.
