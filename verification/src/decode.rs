//! Decoding of backend result rows into scored, identified records.
//!
//! Per row, the score and the id are extracted defensively: a missing or
//! non-numeric score field defaults to zero (the bit pattern of 0.0), and a
//! missing or non-string id field is defaulted — to a synthesized
//! `unknown<position>` identifier for the payload-bearing variant, and to the
//! empty string for the id-only variant; that asymmetry is deliberate and
//! per variant. A payload that could not be deserialized, by contrast, fails
//! the whole batch: no partial sequence is ever returned.

use vstd::prelude::*;
use vstd::string::StringExecFns;

use crate::rows::JsonVal;
use crate::rows::Row;
use crate::rows::spec_get;

verus! {

/// The unified error taxonomy of the adapter.
#[derive(Clone, Debug, PartialEq)]
pub enum VectorStoreError {
    /// Any failure of the underlying database engine, with its message.
    DatastoreError(String),
    /// A result row could not be deserialized into the requested payload
    /// type; carries the deserializer's message.
    JsonError(String),
    /// Failure of the embedding capability, with its message.
    EmbeddingError(String),
}

/// Maps a backend engine failure into the unified taxonomy.
pub fn lancedb_to_izzy_error(e: String) -> (r: VectorStoreError)
    ensures
        r == VectorStoreError::DatastoreError(e),
{
    VectorStoreError::DatastoreError(e)
}

/// Maps a payload deserialization failure into the unified taxonomy.
pub fn serde_to_izzy_error(e: String) -> (r: VectorStoreError)
    ensures
        r == VectorStoreError::JsonError(e),
{
    VectorStoreError::JsonError(e)
}

/// A payload-bearing seizzyh result: score, record id, and the decoded
/// payload. The score is carried as the IEEE-754 bit pattern of the 64-bit
/// floating-point distance.
#[derive(Clone, Debug, PartialEq)]
pub struct ScoredRecord<T> {
    pub score_bits: u64,
    pub id: String,
    pub payload: T,
}

/// An id-only seizzyh result: score (as its IEEE-754 bit pattern) and
/// record id.
#[derive(Clone, Debug, PartialEq)]
pub struct ScoredId {
    pub score_bits: u64,
    pub id: String,
}

/// The decimal digit character for `d`.
pub open spec fn spec_digit_char(d: nat) -> char {
    if d == 0 {
        '0'
    } else if d == 1 {
        '1'
    } else if d == 2 {
        '2'
    } else if d == 3 {
        '3'
    } else if d == 4 {
        '4'
    } else if d == 5 {
        '5'
    } else if d == 6 {
        '6'
    } else if d == 7 {
        '7'
    } else if d == 8 {
        '8'
    } else {
        '9'
    }
}

/// The decimal representation of `n`, without leading zeroes (a single zero
/// for zero itself).
pub open spec fn spec_dec_rep(n: nat) -> Seq<char>
    decreases n,
{
    if n < 10 {
        seq![spec_digit_char(n)]
    } else {
        spec_dec_rep(n / 10) + seq![spec_digit_char(n % 10)]
    }
}

/// The one-character string for a decimal digit.
fn digit_str(d: usize) -> (r: &'static str)
    requires
        d < 10,
    ensures
        r@ == seq![spec_digit_char(d as nat)],
{
    let r: &'static str = if d == 0 {
        proof {
            reveal_strlit("0");
        }
        "0"
    } else if d == 1 {
        proof {
            reveal_strlit("1");
        }
        "1"
    } else if d == 2 {
        proof {
            reveal_strlit("2");
        }
        "2"
    } else if d == 3 {
        proof {
            reveal_strlit("3");
        }
        "3"
    } else if d == 4 {
        proof {
            reveal_strlit("4");
        }
        "4"
    } else if d == 5 {
        proof {
            reveal_strlit("5");
        }
        "5"
    } else if d == 6 {
        proof {
            reveal_strlit("6");
        }
        "6"
    } else if d == 7 {
        proof {
            reveal_strlit("7");
        }
        "7"
    } else if d == 8 {
        proof {
            reveal_strlit("8");
        }
        "8"
    } else {
        proof {
            reveal_strlit("9");
        }
        "9"
    };
    proof {
        assert(r@ =~= seq![spec_digit_char(d as nat)]);
    }
    r
}

/// Renders `n` in decimal.
pub fn usize_to_dec_string(n: usize) -> (r: String)
    ensures
        r@ == spec_dec_rep(n as nat),
    decreases n,
{
    if n < 10 {
        let r = digit_str(n).to_owned();
        proof {
            assert(r@ =~= spec_dec_rep(n as nat));
        }
        r
    } else {
        assert(n / 10 < n);
        let mut prefix = usize_to_dec_string(n / 10);
        prefix.append(digit_str(n % 10));
        proof {
            assert(prefix@ =~= spec_dec_rep(n as nat));
        }
        prefix
    }
}

/// The score of a row: the numeric value of the field named `key`, as its
/// 64-bit floating-point bit pattern, or the bit pattern of 0.0 (all zeroes)
/// when the field is missing or not numeric.
pub open spec fn spec_score_bits(fields: Seq<(String, JsonVal)>, key: Seq<char>) -> u64 {
    match spec_get(fields, key) {
        Some(JsonVal::Num(bits)) => bits,
        _ => 0u64,
    }
}

/// The id of a row in the payload-bearing variant: the string value of the
/// id field, or `unknown<position>` when the field is missing or not a
/// string.
pub open spec fn spec_record_id(
    fields: Seq<(String, JsonVal)>,
    id_key: Seq<char>,
    position: nat,
) -> Seq<char> {
    match spec_get(fields, id_key) {
        Some(JsonVal::Str(s)) => s@,
        _ => "unknown"@ + spec_dec_rep(position),
    }
}

/// The id of a row in the id-only variant: the string value of the id
/// field, or the empty string when the field is missing or not a string.
pub open spec fn spec_row_id(fields: Seq<(String, JsonVal)>, id_key: Seq<char>) -> Seq<char> {
    match spec_get(fields, id_key) {
        Some(JsonVal::Str(s)) => s@,
        _ => Seq::<char>::empty(),
    }
}

/// Extracts a row's score as the bit pattern of its 64-bit floating-point
/// value, defaulting to 0.0 when the field is missing or not numeric.
pub fn extract_score_bits(fields: &Vec<(String, JsonVal)>, key: &String) -> (r: u64)
    ensures
        r == spec_score_bits(fields@, key@),
{
    match crate::rows::get_field(fields, key) {
        Some(JsonVal::Num(bits)) => *bits,
        _ => 0u64,
    }
}

/// Extracts a row's id for the payload-bearing variant, synthesizing
/// `unknown<position>` when the id field is missing or not a string.
pub fn extract_record_id(fields: &Vec<(String, JsonVal)>, id_key: &String, position: usize) -> (r:
    String)
    ensures
        r@ == spec_record_id(fields@, id_key@, position as nat),
{
    match crate::rows::get_field(fields, id_key) {
        Some(JsonVal::Str(s)) => s.clone(),
        _ => {
            let mut id = "unknown".to_owned();
            id.append(usize_to_dec_string(position).as_str());
            id
        },
    }
}

/// Extracts a row's id for the id-only variant, defaulting to the empty
/// string when the id field is missing or not a string.
pub fn extract_row_id(fields: &Vec<(String, JsonVal)>, id_key: &String) -> (r: String)
    ensures
        r@ == spec_row_id(fields@, id_key@),
{
    match crate::rows::get_field(fields, id_key) {
        Some(JsonVal::Str(s)) => s.clone(),
        _ => String::new(),
    }
}

} // verus!
