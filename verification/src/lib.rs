//! A format-polymorphic audio decoding front-end.
//!
//! A seekable [`source::ByteSource`] is probed against a closed set of
//! per-format decoders in a fixed priority order; whichever decoder accepts
//! the data is wrapped in a [`decoder::Decoder`] that exposes one iterator
//! and one audio-source interface, so callers never branch on the format.
//! Samples come out in one canonical fixed-point amplitude domain
//! (see [`sample::Sample`]), whatever their native representation was.

pub mod decoder;
pub mod sample;
pub mod source;

pub use decoder::Decoder;
pub use sample::Sample;
pub use source::ByteSource;
