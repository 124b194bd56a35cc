//! A minimal modal bullet-journal core: a line codec for the on-disk entry
//! format, a modal input state machine, and a renderer that describes every
//! screen update as data. All terminal I/O lives outside this crate; the
//! functions here are pure transitions from plain values to plain values.

pub mod codec;
pub mod entry;
pub mod machine;
pub mod render;
