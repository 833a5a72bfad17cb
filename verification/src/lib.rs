//! ROT13 as a stream transform.
//!
//! [`writer::Rot13Writer`] wraps any [`sink::ByteSink`], rotates the ASCII
//! letters of every buffer it is given by thirteen places, and hands the
//! rotated buffer on to the sink it wraps. It is a sink itself, so writers
//! nest; since ROT13 undoes itself, two nested writers cancel.
//!
//! [`cipher`] holds the substitution on bytes and byte sequences together
//! with the facts proved about it.

pub mod cipher;
pub mod sink;
pub mod writer;
