# aac-audio

AAC decoding and encoding on top of the Fraunhofer FDK AAC library, with the
codec's decision logic verified in Verus.

- `src/` — the verified library: profiles and channel layouts, encoder
  configuration presets and checks, the parameter settings applied to an
  encoder instance, status-code handling, the AudioSpecificConfig builder,
  the interleaved/planar PCM layout, and the state that decoders and
  encoders keep between frames. Contracts state each function's result;
  proof functions state the laws that tie functions together (round trips
  of AOT numbers, channel counts, AudioSpecificConfig fields and PCM layout).
- `app/` — the `AacDecoder` and `AacEncoder` types, which own FDK handles,
  make the library calls through `fdk-aac-sys`, convert between f32 and
  16-bit samples, and hand every decision to the verified library.
- `tests/` — tests of the library on concrete values.
