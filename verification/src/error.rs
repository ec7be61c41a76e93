//! Errors reported when options are rejected.

use vstd::prelude::*;
use vstd::string::*;

use crate::text::{decimal, push_decimal};

verus! {

/// Why a set of options, or a lookup in a collection of generators, was rejected.
#[derive(Debug, Clone, PartialEq)]
pub enum OptionError {
    /// The method is not one that is known. Validation accepts every method
    /// and never reports this.
    InvalidMethod,
    /// The base time lies before 1990 or after the reading of the clock.
    InvalidBaseTime,
    /// The worker id does not fit its field; the text names the range.
    InvalidWorkerId(String),
    /// The worker id has no bits; the text names the range.
    InvalidWorkerIdBitLen(String),
    /// The sequence number has fewer than 2 or more than 21 bits; the text
    /// names the range.
    InvalidSeqBitLen(String),
    /// The largest sequence number does not fit its field; the text names
    /// the range.
    InvalidMaxSeqNum(String),
    /// The smallest sequence number lies below 5 or above the largest one;
    /// the text names the range.
    InvalidMinSeqNum(String),
    /// The top over-cost count is out of range. Validation accepts every
    /// count and never reports this.
    InvalidTopOverCostCount,
    /// The worker id and the sequence number together have more than 22
    /// bits; the text names the rule.
    BitLenOverflow(String),
    /// A row of generators was to be initialized with this many options,
    /// which is none.
    InvalidVecLen(u32),
    /// There is no generator at this index of the row.
    IndexOutOfRange(usize),
}

/// The mathematical content of an [`OptionError`]: the variant, with the
/// explanation it carries as a sequence of characters.
pub enum Rejection {
    InvalidMethod,
    InvalidBaseTime,
    InvalidWorkerId(Seq<char>),
    InvalidWorkerIdBitLen(Seq<char>),
    InvalidSeqBitLen(Seq<char>),
    InvalidMaxSeqNum(Seq<char>),
    InvalidMinSeqNum(Seq<char>),
    InvalidTopOverCostCount,
    BitLenOverflow(Seq<char>),
    InvalidVecLen(int),
    IndexOutOfRange(int),
}

impl View for OptionError {
    type V = Rejection;

    open spec fn view(&self) -> Rejection {
        match *self {
            OptionError::InvalidMethod => Rejection::InvalidMethod,
            OptionError::InvalidBaseTime => Rejection::InvalidBaseTime,
            OptionError::InvalidWorkerId(text) => Rejection::InvalidWorkerId(text@),
            OptionError::InvalidWorkerIdBitLen(text) => Rejection::InvalidWorkerIdBitLen(text@),
            OptionError::InvalidSeqBitLen(text) => Rejection::InvalidSeqBitLen(text@),
            OptionError::InvalidMaxSeqNum(text) => Rejection::InvalidMaxSeqNum(text@),
            OptionError::InvalidMinSeqNum(text) => Rejection::InvalidMinSeqNum(text@),
            OptionError::InvalidTopOverCostCount => Rejection::InvalidTopOverCostCount,
            OptionError::BitLenOverflow(text) => Rejection::BitLenOverflow(text@),
            OptionError::InvalidVecLen(len) => Rejection::InvalidVecLen(len as int),
            OptionError::IndexOutOfRange(index) => Rejection::IndexOutOfRange(index as int),
        }
    }
}

impl Rejection {
    /// The sentence that reports the rejection.
    pub open spec fn message(self) -> Seq<char> {
        match self {
            Rejection::InvalidMethod => "Invalid method."@,
            Rejection::InvalidBaseTime => "Invalid base time."@,
            Rejection::InvalidWorkerId(text) => "Invalid worker id: "@ + text + "."@,
            Rejection::InvalidWorkerIdBitLen(text) => "Invalid worker id bit length: "@ + text
                + "."@,
            Rejection::InvalidSeqBitLen(text) => "Invalid sequence bit length: "@ + text + "."@,
            Rejection::InvalidMaxSeqNum(text) => "Invalid max sequence number: "@ + text + "."@,
            Rejection::InvalidMinSeqNum(text) => "Invalid min sequence number: "@ + text + "."@,
            Rejection::InvalidTopOverCostCount => "Invalid top over cost count."@,
            Rejection::BitLenOverflow(text) => "Bit length overflow: "@ + text + "."@,
            Rejection::InvalidVecLen(len) => "Invalid Vector length: "@ + decimal(len as nat)
                + "."@,
            Rejection::IndexOutOfRange(index) => "Invalid index: "@ + decimal(index as nat) + "."@,
        }
    }
}

/// `subject`, a colon, `detail` and a full stop.
fn sentence(subject: &str, detail: &str) -> (text: String)
    ensures
        text@ == subject@ + ": "@ + detail@ + "."@,
{
    let mut text = String::from_str(subject);
    text.append(": ");
    text.append(detail);
    text.append(".");
    text
}

/// `subject`, a colon, the decimal numeral of `n` and a full stop.
fn counted_sentence(subject: &str, n: u64) -> (text: String)
    ensures
        text@ == subject@ + ": "@ + decimal(n as nat) + "."@,
{
    let mut text = String::from_str(subject);
    text.append(": ");
    push_decimal(&mut text, n);
    text.append(".");
    text
}

impl OptionError {
    /// The sentence that reports the error.
    pub fn message(&self) -> (text: String)
        ensures
            text@ == self@.message(),
    {
        proof {
            reveal_strlit(": ");
            reveal_strlit(".");
            reveal_strlit("Invalid worker id");
            reveal_strlit("Invalid worker id: ");
            reveal_strlit("Invalid worker id bit length");
            reveal_strlit("Invalid worker id bit length: ");
            reveal_strlit("Invalid sequence bit length");
            reveal_strlit("Invalid sequence bit length: ");
            reveal_strlit("Invalid max sequence number");
            reveal_strlit("Invalid max sequence number: ");
            reveal_strlit("Invalid min sequence number");
            reveal_strlit("Invalid min sequence number: ");
            reveal_strlit("Bit length overflow");
            reveal_strlit("Bit length overflow: ");
            reveal_strlit("Invalid Vector length");
            reveal_strlit("Invalid Vector length: ");
            reveal_strlit("Invalid index");
            reveal_strlit("Invalid index: ");
        }
        let text = match self {
            OptionError::InvalidMethod => String::from_str("Invalid method."),
            OptionError::InvalidBaseTime => String::from_str("Invalid base time."),
            OptionError::InvalidWorkerId(detail) => sentence("Invalid worker id", detail.as_str()),
            OptionError::InvalidWorkerIdBitLen(detail) => sentence(
                "Invalid worker id bit length",
                detail.as_str(),
            ),
            OptionError::InvalidSeqBitLen(detail) => sentence(
                "Invalid sequence bit length",
                detail.as_str(),
            ),
            OptionError::InvalidMaxSeqNum(detail) => sentence(
                "Invalid max sequence number",
                detail.as_str(),
            ),
            OptionError::InvalidMinSeqNum(detail) => sentence(
                "Invalid min sequence number",
                detail.as_str(),
            ),
            OptionError::InvalidTopOverCostCount => String::from_str(
                "Invalid top over cost count.",
            ),
            OptionError::BitLenOverflow(detail) => sentence("Bit length overflow", detail.as_str()),
            OptionError::InvalidVecLen(len) => counted_sentence(
                "Invalid Vector length",
                *len as u64,
            ),
            OptionError::IndexOutOfRange(index) => counted_sentence("Invalid index", *index as u64),
        };
        assert(text@ =~= self@.message());
        text
    }
}

} // verus!
