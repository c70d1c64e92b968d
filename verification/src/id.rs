//! Identifiers of patterns and of automaton states.
//!
//! Both are indices that are kept in 32 bits and bounded well below what 32
//! bits can hold, so that sums of a few of them never overflow. A value read
//! from bytes is checked against that bound before it becomes an identifier,
//! unless the caller vouches for the bytes.

use crate::endian::{native_order, u32_from_ne_bytes, value_of};
use crate::text::{decimal, push_decimal};
use vstd::prelude::*;
use vstd::string::StringExecFns;

verus! {

/// The largest value that an identifier can have: `i32::MAX - 1`.
pub const ID_MAX: u32 = 2147483646;

/// The identifier of a pattern.
#[derive(Clone, Copy, Debug, PartialEq, Eq, Structural)]
pub struct PatternID(u32);

/// The value that was refused as the identifier of a pattern.
#[derive(Clone, Copy, Debug, PartialEq, Eq, Structural)]
pub struct PatternIDError {
    attempted: u64,
}

/// The identifier of an automaton state.
#[derive(Clone, Copy, Debug, PartialEq, Eq, Structural)]
pub struct StateID(u32);

/// The value that was refused as the identifier of a state.
#[derive(Clone, Copy, Debug, PartialEq, Eq, Structural)]
pub struct StateIDError {
    attempted: u64,
}

impl View for PatternID {
    type V = u32;

    closed spec fn view(&self) -> u32 {
        self.0
    }
}

impl View for PatternIDError {
    type V = u64;

    closed spec fn view(&self) -> u64 {
        self.attempted
    }
}

impl View for StateID {
    type V = u32;

    closed spec fn view(&self) -> u32 {
        self.0
    }
}

impl View for StateIDError {
    type V = u64;

    closed spec fn view(&self) -> u64 {
        self.attempted
    }
}

/// The text that says that `attempted` was refused as a pattern identifier.
pub open spec fn pattern_id_error_text(attempted: u64) -> Seq<char> {
    "failed to create PatternID from "@ + decimal(attempted as nat)
        + ", which exceeds PatternID("@ + decimal(ID_MAX as nat) + ")"@
}

/// The text that says that `attempted` was refused as a state identifier.
pub open spec fn state_id_error_text(attempted: u64) -> Seq<char> {
    "failed to create StateID from "@ + decimal(attempted as nat) + ", which exceeds StateID("@
        + decimal(ID_MAX as nat) + ")"@
}

impl PatternID {
    /// The number of bytes that an identifier is serialized as.
    pub const SIZE: usize = 4;

    /// The number of identifiers: one more than the largest.
    pub const LIMIT: usize = 2147483647;

    /// Whether the identifier is within the bound. Only an identifier made
    /// without the check can fail to be.
    pub open spec fn is_valid(self) -> bool {
        self@ <= ID_MAX
    }

    /// Makes the identifier with the given value, if the value is within
    /// the bound.
    pub fn new(value: usize) -> (r: Result<PatternID, PatternIDError>)
        ensures
            match r {
                Ok(id) => value <= ID_MAX && id@ == value,
                Err(e) => value > ID_MAX && e@ == value,
            },
    {
        if value > ID_MAX as usize {
            return Err(PatternIDError { attempted: value as u64 });
        }
        Ok(PatternID(value as u32))
    }

    /// Returns the value of the identifier.
    pub fn as_u32(&self) -> (value: u32)
        ensures
            value == self@,
    {
        self.0
    }

    /// Returns the value of the identifier.
    pub fn as_usize(&self) -> (value: usize)
        ensures
            value == self@,
    {
        self.0 as usize
    }

    /// Reads an identifier from four bytes in the byte order of the machine,
    /// if the value that they spell is within the bound.
    pub fn from_ne_bytes(bytes: [u8; 4]) -> (r: Result<PatternID, PatternIDError>)
        ensures
            match r {
                Ok(id) => id@ == value_of(native_order(), bytes@) && id.is_valid(),
                Err(e) => e@ == value_of(native_order(), bytes@) && e@ > ID_MAX,
            },
    {
        let value = u32_from_ne_bytes(bytes);
        if value > ID_MAX {
            return Err(PatternIDError { attempted: value as u64 });
        }
        Ok(PatternID(value))
    }

    /// Reads an identifier from four bytes in the byte order of the machine
    /// without checking it against the bound.
    pub fn from_ne_bytes_unchecked(bytes: [u8; 4]) -> (id: PatternID)
        ensures
            id@ == value_of(native_order(), bytes@),
    {
        PatternID(u32_from_ne_bytes(bytes))
    }
}

impl PatternIDError {
    /// Returns the value that was refused.
    pub fn attempted(&self) -> (value: u64)
        ensures
            value == self@,
    {
        self.attempted
    }

    /// Returns the message of the error.
    pub fn message(&self) -> (text: String)
        ensures
            text@ == pattern_id_error_text(self@),
    {
        let mut text = String::from_str("failed to create PatternID from ");
        push_decimal(&mut text, self.attempted);
        text.append(", which exceeds PatternID(");
        push_decimal(&mut text, ID_MAX as u64);
        text.append(")");
        text
    }
}

impl StateID {
    /// The number of bytes that an identifier is serialized as.
    pub const SIZE: usize = 4;

    /// The number of identifiers: one more than the largest.
    pub const LIMIT: usize = 2147483647;

    /// Whether the identifier is within the bound. Only an identifier made
    /// without the check can fail to be.
    pub open spec fn is_valid(self) -> bool {
        self@ <= ID_MAX
    }

    /// Makes the identifier with the given value, if the value is within
    /// the bound.
    pub fn new(value: usize) -> (r: Result<StateID, StateIDError>)
        ensures
            match r {
                Ok(id) => value <= ID_MAX && id@ == value,
                Err(e) => value > ID_MAX && e@ == value,
            },
    {
        if value > ID_MAX as usize {
            return Err(StateIDError { attempted: value as u64 });
        }
        Ok(StateID(value as u32))
    }

    /// Returns the value of the identifier.
    pub fn as_u32(&self) -> (value: u32)
        ensures
            value == self@,
    {
        self.0
    }

    /// Returns the value of the identifier.
    pub fn as_usize(&self) -> (value: usize)
        ensures
            value == self@,
    {
        self.0 as usize
    }

    /// Reads an identifier from four bytes in the byte order of the machine,
    /// if the value that they spell is within the bound.
    pub fn from_ne_bytes(bytes: [u8; 4]) -> (r: Result<StateID, StateIDError>)
        ensures
            match r {
                Ok(id) => id@ == value_of(native_order(), bytes@) && id.is_valid(),
                Err(e) => e@ == value_of(native_order(), bytes@) && e@ > ID_MAX,
            },
    {
        let value = u32_from_ne_bytes(bytes);
        if value > ID_MAX {
            return Err(StateIDError { attempted: value as u64 });
        }
        Ok(StateID(value))
    }

    /// Reads an identifier from four bytes in the byte order of the machine
    /// without checking it against the bound.
    pub fn from_ne_bytes_unchecked(bytes: [u8; 4]) -> (id: StateID)
        ensures
            id@ == value_of(native_order(), bytes@),
    {
        StateID(u32_from_ne_bytes(bytes))
    }
}

impl StateIDError {
    /// Returns the value that was refused.
    pub fn attempted(&self) -> (value: u64)
        ensures
            value == self@,
    {
        self.attempted
    }

    /// Returns the message of the error.
    pub fn message(&self) -> (text: String)
        ensures
            text@ == state_id_error_text(self@),
    {
        let mut text = String::from_str("failed to create StateID from ");
        push_decimal(&mut text, self.attempted);
        text.append(", which exceeds StateID(");
        push_decimal(&mut text, ID_MAX as u64);
        text.append(")");
        text
    }
}

} // verus!
