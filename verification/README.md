# avif

AVIF encoding and decoding settings, input checks and pixel preparation for
libavif (SVT-AV1 encoder, dav1d decoder), verified with Verus.

* `src/` — the verified library: encoder/decoder settings and builders
  (`encoder.rs`), the decoder with the header it was made from (`decoder.rs`), pixel layouts (`layout.rs`), grayscale
  expansion (`gray.rs`), the checked encode plan (`plan.rs`) and the decisions
  taken after each libavif call (`pipeline.rs`).
* `app/` — the calls into libavif's C API, the `image` crate's
  `ImageEncoder` / `ImageDecoder` impls and the `encode` / `decode` / `probe`
  facade, built on the library.
* `tests/` — tests of the library.
