//! Typed model and attribute codec for an audio mixer's configuration profile:
//! LED animation, the six-slot megaphone voice effect and the microphone equaliser.
//!
//! Every model reads a list of name/value attributes and writes one back. The
//! numeric codec, the enum ordinal mappers and the style-driven preset table
//! are verified; framing the attributes into a document is left to the caller.

pub mod animation;
pub mod attribute;
pub mod codec;
pub mod equalizer;
pub mod megaphone;
