//! A codec for the binary form of finite automata.
//!
//! An object in this form can be used where it lies, in a file mapped into
//! memory or in bytes compiled into a program, so reading it is checking
//! it: [`header`] reads and writes the label, the byte order marker and the
//! version that an object starts with, [`integer`] and [`varint`] the
//! integers in it, [`idcodec`] the identifiers, [`align`] decides where a
//! buffer may start, [`arith`] computes sizes without wrapping, and
//! [`error`] says what went wrong.

pub mod align;
pub mod arith;
pub mod endian;
pub mod error;
pub mod header;
pub mod id;
pub mod idcodec;
pub mod integer;
pub mod text;
pub mod varint;
