//! What can go wrong when an object is written or read.
//!
//! Writing fails in one way only: the destination is too small. Reading
//! fails in the ways that [`DeserializeErrorView`] lists. An error holds what
//! its message needs and nothing more; [`SerializeError::message`] and
//! [`DeserializeError::message`] give the message.

use crate::id::{pattern_id_error_text, state_id_error_text, PatternIDError, StateIDError};
use crate::text::{decimal, push_decimal, push_upper_hex, upper_hex};
use vstd::prelude::*;
use vstd::string::StringExecFns;

verus! {

/// An error that occurs when an object is serialized: the destination
/// buffer is too small for it.
#[derive(Debug)]
pub struct SerializeError {
    what: &'static str,
}

/// An error that occurs when an object is deserialized.
#[derive(Debug)]
pub struct DeserializeError(DeserializeErrorKind);

#[derive(Debug)]
#[allow(inconsistent_fields)]
enum DeserializeErrorKind {
    Generic { msg: &'static str },
    BufferTooSmall { what: &'static str },
    InvalidUsize { what: &'static str },
    InvalidVarint { what: &'static str },
    VersionMismatch { expected: u32, found: u32 },
    EndianMismatch { expected: u32, found: u32 },
    StateSizeMismatch { expected: u32, found: u32 },
    AlignmentMismatch { alignment: usize, address: usize },
    LabelMismatch { expected: &'static str },
    ArithmeticOverflow { what: &'static str },
    PatternID { err: PatternIDError, what: &'static str },
    StateID { err: StateIDError, what: &'static str },
}

/// What a [`DeserializeError`] says, with each piece of text as the
/// sequence of its characters.
#[allow(inconsistent_fields)]
pub enum DeserializeErrorView {
    /// Something else than the other kinds; `msg` is the whole message.
    Generic { msg: Seq<char> },
    /// The buffer ends before the end of `what`.
    BufferTooSmall { what: Seq<char> },
    /// The number read for `what` does not fit in a `usize`.
    InvalidUsize { what: Seq<char> },
    /// The bytes of `what` are no variable-length integer.
    InvalidVarint { what: Seq<char> },
    /// The object has version `found`; the reader asked for `expected`.
    VersionMismatch { expected: u32, found: u32 },
    /// The byte order marker reads as `found`, not as `expected`.
    EndianMismatch { expected: u32, found: u32 },
    /// The object was written for states of `found` bytes, not `expected`.
    StateSizeMismatch { expected: u32, found: u32 },
    /// The buffer starts at `address`, which is no multiple of `alignment`.
    AlignmentMismatch { alignment: usize, address: usize },
    /// The object does not start with the label `expected`.
    LabelMismatch { expected: Seq<char> },
    /// The computation of `what` overflows.
    ArithmeticOverflow { what: Seq<char> },
    /// The number `attempted`, read for `what`, is too large for a pattern
    /// identifier.
    PatternID { attempted: u64, what: Seq<char> },
    /// The number `attempted`, read for `what`, is too large for a state
    /// identifier.
    StateID { attempted: u64, what: Seq<char> },
}

impl View for DeserializeError {
    type V = DeserializeErrorView;

    closed spec fn view(&self) -> DeserializeErrorView {
        match self.0 {
            DeserializeErrorKind::Generic { msg } => DeserializeErrorView::Generic { msg: msg@ },
            DeserializeErrorKind::BufferTooSmall { what } => DeserializeErrorView::BufferTooSmall {
                what: what@,
            },
            DeserializeErrorKind::InvalidUsize { what } => DeserializeErrorView::InvalidUsize {
                what: what@,
            },
            DeserializeErrorKind::InvalidVarint { what } => DeserializeErrorView::InvalidVarint {
                what: what@,
            },
            DeserializeErrorKind::VersionMismatch {
                expected,
                found,
            } => DeserializeErrorView::VersionMismatch { expected, found },
            DeserializeErrorKind::EndianMismatch {
                expected,
                found,
            } => DeserializeErrorView::EndianMismatch { expected, found },
            DeserializeErrorKind::StateSizeMismatch {
                expected,
                found,
            } => DeserializeErrorView::StateSizeMismatch { expected, found },
            DeserializeErrorKind::AlignmentMismatch {
                alignment,
                address,
            } => DeserializeErrorView::AlignmentMismatch { alignment, address },
            DeserializeErrorKind::LabelMismatch { expected } => DeserializeErrorView::LabelMismatch {
                expected: expected@,
            },
            DeserializeErrorKind::ArithmeticOverflow {
                what,
            } => DeserializeErrorView::ArithmeticOverflow { what: what@ },
            DeserializeErrorKind::PatternID { err, what } => DeserializeErrorView::PatternID {
                attempted: err@,
                what: what@,
            },
            DeserializeErrorKind::StateID { err, what } => DeserializeErrorView::StateID {
                attempted: err@,
                what: what@,
            },
        }
    }
}

/// The text that `{:?}` gives for a string: the string between double
/// quotes, with the characters that std escapes written as their escapes.
pub uninterp spec fn debug_text(s: Seq<char>) -> Seq<char>;

/// The message of a [`SerializeError`] about `what`.
pub open spec fn serialize_error_text(what: Seq<char>) -> Seq<char> {
    "destination buffer is too small to write "@ + what
}

/// The message that an object does not start with the label whose quoted
/// form is `quoted`.
pub open spec fn label_mismatch_text(quoted: Seq<char>) -> Seq<char> {
    "label mismatch: start of serialized object should contain a NUL terminated "@ + quoted
        + " label, but a different label was found"@
}

/// The message of a [`DeserializeError`].
pub open spec fn deserialize_error_text(error: DeserializeErrorView) -> Seq<char> {
    match error {
        DeserializeErrorView::Generic { msg } => msg,
        DeserializeErrorView::BufferTooSmall { what } => "buffer is too small to read "@ + what,
        DeserializeErrorView::InvalidUsize { what } => what + " is too big to fit in a usize"@,
        DeserializeErrorView::InvalidVarint { what } => "could not decode valid varint for "@
            + what,
        DeserializeErrorView::VersionMismatch { expected, found } =>
            "unsupported version: expected version "@ + decimal(expected as nat)
                + " but found version "@ + decimal(found as nat),
        DeserializeErrorView::EndianMismatch { expected, found } =>
            "endianness mismatch: expected 0x"@ + upper_hex(expected as nat) + " but got 0x"@
                + upper_hex(found as nat)
                + ". (Are you trying to load an object serialized with a different endianness?)"@,
        DeserializeErrorView::StateSizeMismatch { expected, found } =>
            "state size mismatch: caller requested a state size of "@ + decimal(expected as nat)
                + ", but serialized object has a state size of "@ + decimal(found as nat),
        DeserializeErrorView::AlignmentMismatch { alignment, address } =>
            "alignment mismatch: slice starts at address 0x"@ + upper_hex(address as nat)
                + ", which is not aligned to a "@ + decimal(alignment as nat)
                + " byte boundary"@,
        DeserializeErrorView::LabelMismatch { expected } => label_mismatch_text(
            debug_text(expected),
        ),
        DeserializeErrorView::ArithmeticOverflow { what } => "arithmetic overflow for "@ + what,
        DeserializeErrorView::PatternID { attempted, what } => "failed to read pattern ID for "@
            + what + ": "@ + pattern_id_error_text(attempted),
        DeserializeErrorView::StateID { attempted, what } => "failed to read state ID for "@
            + what + ": "@ + state_id_error_text(attempted),
    }
}

/// A result with the error, if there is one, replaced by what it says.
pub open spec fn outcome<T>(r: Result<T, DeserializeError>) -> Result<T, DeserializeErrorView> {
    match r {
        Ok(value) => Ok(value),
        Err(e) => Err(e@),
    }
}

/// `format!` with `{:?}` on a string, which goes to std's `Debug` for `str`.
/// The result is named, not described: that it is [`debug_text`] of the
/// string's characters says only that equal strings give equal texts.
#[verifier::external_body]
fn debug_str(s: &str) -> (quoted: String)
    ensures
        quoted@ == debug_text(s@),
{
    format!("{:?}", s)
}

/// Returns the message that an object does not start with the label whose
/// quoted form is `quoted`.
pub fn label_mismatch_message(quoted: &str) -> (text: String)
    ensures
        text@ == label_mismatch_text(quoted@),
{
    let mut text = String::from_str(
        "label mismatch: start of serialized object should contain a NUL terminated ",
    );
    text.append(quoted);
    text.append(" label, but a different label was found");
    text
}

impl SerializeError {
    /// What the destination buffer was too small for.
    pub closed spec fn what(&self) -> Seq<char> {
        self.what@
    }

    /// The error that the destination buffer is too small for `what`.
    pub fn buffer_too_small(what: &'static str) -> (error: SerializeError)
        ensures
            error.what() == what@,
    {
        SerializeError { what }
    }

    /// Returns the message of the error.
    pub fn message(&self) -> (text: String)
        ensures
            text@ == serialize_error_text(self.what()),
    {
        let mut text = String::from_str("destination buffer is too small to write ");
        text.append(self.what);
        text
    }
}

impl DeserializeError {
    /// The error with `msg` as its whole message.
    pub fn generic(msg: &'static str) -> (error: DeserializeError)
        ensures
            error@ == (DeserializeErrorView::Generic { msg: msg@ }),
    {
        DeserializeError(DeserializeErrorKind::Generic { msg })
    }

    /// The error that the buffer ends before the end of `what`.
    pub fn buffer_too_small(what: &'static str) -> (error: DeserializeError)
        ensures
            error@ == (DeserializeErrorView::BufferTooSmall { what: what@ }),
    {
        DeserializeError(DeserializeErrorKind::BufferTooSmall { what })
    }

    /// The error that the number read for `what` does not fit in a `usize`.
    pub fn invalid_usize(what: &'static str) -> (error: DeserializeError)
        ensures
            error@ == (DeserializeErrorView::InvalidUsize { what: what@ }),
    {
        DeserializeError(DeserializeErrorKind::InvalidUsize { what })
    }

    /// The error that the bytes of `what` are no variable-length integer.
    pub fn invalid_varint(what: &'static str) -> (error: DeserializeError)
        ensures
            error@ == (DeserializeErrorView::InvalidVarint { what: what@ }),
    {
        DeserializeError(DeserializeErrorKind::InvalidVarint { what })
    }

    /// The error that the object has version `found`, not `expected`.
    pub fn version_mismatch(expected: u32, found: u32) -> (error: DeserializeError)
        ensures
            error@ == (DeserializeErrorView::VersionMismatch { expected, found }),
    {
        DeserializeError(DeserializeErrorKind::VersionMismatch { expected, found })
    }

    /// The error that the byte order marker reads as `found`, not as
    /// `expected`.
    pub fn endian_mismatch(expected: u32, found: u32) -> (error: DeserializeError)
        ensures
            error@ == (DeserializeErrorView::EndianMismatch { expected, found }),
    {
        DeserializeError(DeserializeErrorKind::EndianMismatch { expected, found })
    }

    /// The error that the object was written for states of `found` bytes,
    /// not of `expected` bytes.
    pub fn state_size_mismatch(expected: u32, found: u32) -> (error: DeserializeError)
        ensures
            error@ == (DeserializeErrorView::StateSizeMismatch { expected, found }),
    {
        DeserializeError(DeserializeErrorKind::StateSizeMismatch { expected, found })
    }

    /// The error that the buffer starts at `address`, which is no multiple
    /// of `alignment`.
    pub fn alignment_mismatch(alignment: usize, address: usize) -> (error: DeserializeError)
        ensures
            error@ == (DeserializeErrorView::AlignmentMismatch { alignment, address }),
    {
        DeserializeError(DeserializeErrorKind::AlignmentMismatch { alignment, address })
    }

    /// The error that the object does not start with the label `expected`.
    pub fn label_mismatch(expected: &'static str) -> (error: DeserializeError)
        ensures
            error@ == (DeserializeErrorView::LabelMismatch { expected: expected@ }),
    {
        DeserializeError(DeserializeErrorKind::LabelMismatch { expected })
    }

    /// The error that the computation of `what` overflows.
    pub fn arithmetic_overflow(what: &'static str) -> (error: DeserializeError)
        ensures
            error@ == (DeserializeErrorView::ArithmeticOverflow { what: what@ }),
    {
        DeserializeError(DeserializeErrorKind::ArithmeticOverflow { what })
    }

    /// The error that the number read for `what` was refused as a pattern
    /// identifier.
    pub fn pattern_id_error(err: PatternIDError, what: &'static str) -> (error: DeserializeError)
        ensures
            error@ == (DeserializeErrorView::PatternID { attempted: err@, what: what@ }),
    {
        DeserializeError(DeserializeErrorKind::PatternID { err, what })
    }

    /// The error that the number read for `what` was refused as a state
    /// identifier.
    pub fn state_id_error(err: StateIDError, what: &'static str) -> (error: DeserializeError)
        ensures
            error@ == (DeserializeErrorView::StateID { attempted: err@, what: what@ }),
    {
        DeserializeError(DeserializeErrorKind::StateID { err, what })
    }

    /// Returns the message of the error.
    pub fn message(&self) -> (text: String)
        ensures
            text@ == deserialize_error_text(self@),
    {
        match &self.0 {
            DeserializeErrorKind::Generic { msg } => String::from_str(msg),
            DeserializeErrorKind::BufferTooSmall { what } => {
                let mut text = String::from_str("buffer is too small to read ");
                text.append(what);
                text
            },
            DeserializeErrorKind::InvalidUsize { what } => {
                let mut text = String::from_str(what);
                text.append(" is too big to fit in a usize");
                text
            },
            DeserializeErrorKind::InvalidVarint { what } => {
                let mut text = String::from_str("could not decode valid varint for ");
                text.append(what);
                text
            },
            DeserializeErrorKind::VersionMismatch { expected, found } => {
                let mut text = String::from_str("unsupported version: expected version ");
                push_decimal(&mut text, *expected as u64);
                text.append(" but found version ");
                push_decimal(&mut text, *found as u64);
                text
            },
            DeserializeErrorKind::EndianMismatch { expected, found } => {
                let mut text = String::from_str("endianness mismatch: expected 0x");
                push_upper_hex(&mut text, *expected as u64);
                text.append(" but got 0x");
                push_upper_hex(&mut text, *found as u64);
                text.append(
                    ". (Are you trying to load an object serialized with a different endianness?)",
                );
                text
            },
            DeserializeErrorKind::StateSizeMismatch { expected, found } => {
                let mut text = String::from_str(
                    "state size mismatch: caller requested a state size of ",
                );
                push_decimal(&mut text, *expected as u64);
                text.append(", but serialized object has a state size of ");
                push_decimal(&mut text, *found as u64);
                text
            },
            DeserializeErrorKind::AlignmentMismatch { alignment, address } => {
                let mut text = String::from_str("alignment mismatch: slice starts at address 0x");
                push_upper_hex(&mut text, *address as u64);
                text.append(", which is not aligned to a ");
                push_decimal(&mut text, *alignment as u64);
                text.append(" byte boundary");
                text
            },
            DeserializeErrorKind::LabelMismatch { expected } => {
                let quoted = debug_str(expected);
                label_mismatch_message(quoted.as_str())
            },
            DeserializeErrorKind::ArithmeticOverflow { what } => {
                let mut text = String::from_str("arithmetic overflow for ");
                text.append(what);
                text
            },
            DeserializeErrorKind::PatternID { err, what } => {
                let mut text = String::from_str("failed to read pattern ID for ");
                text.append(what);
                text.append(": ");
                let detail = err.message();
                text.append(detail.as_str());
                text
            },
            DeserializeErrorKind::StateID { err, what } => {
                let mut text = String::from_str("failed to read state ID for ");
                text.append(what);
                text.append(": ");
                let detail = err.message();
                text.append(detail.as_str());
                text
            },
        }
    }
}

} // verus!
