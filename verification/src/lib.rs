//! A BPMN workflow engine: process models and their validation, the records
//! that a running process keeps, the decisions taken while a process runs, and
//! the SQL and error values that the engine builds.

pub mod text;
pub mod error;
pub mod boot;
pub mod common;
pub mod dto;

use vstd::prelude::*;

verus! {

/// Lower-case hexadecimal digits.
pub open spec fn is_lower_hex(c: char) -> bool {
    ('0' <= c <= '9') || ('a' <= c <= 'f')
}

/// The hyphenated form of a random (version 4) UUID: 36 characters, hyphens at
/// positions 8, 13, 18 and 23, lower-case hexadecimal digits elsewhere, the
/// version digit `4` at position 14 and a variant digit among `8`, `9`, `a`,
/// `b` at position 19.
pub open spec fn is_uuid_v4_text(s: Seq<char>) -> bool {
    &&& s.len() == 36
    &&& forall|i: int|
        0 <= i < 36 ==> if i == 8 || i == 13 || i == 18 || i == 23 {
            s[i] == '-'
        } else {
            is_lower_hex(s[i])
        }
    &&& s[14] == '4'
    &&& (s[19] == '8' || s[19] == '9' || s[19] == 'a' || s[19] == 'b')
}

/// The current local time in milliseconds since the Unix epoch
/// (`chrono::Local::now().timestamp_millis()`). The value depends on the clock,
/// so nothing is stated of it.
#[verifier::external_body]
pub fn get_now() -> i64 {
    chrono::Local::now().timestamp_millis()
}

/// A fresh identifier: a random UUID in its hyphenated text form
/// (`uuid::Uuid::new_v4().to_string()`). The contract states the shape that
/// the `uuid` crate's formatting gives every version 4 UUID; which one is
/// drawn is left open. The crate panics if the operating system cannot supply
/// random bytes, which no clause here rules out.
#[verifier::external_body]
pub fn gen_id() -> (r: String)
    ensures
        is_uuid_v4_text(r@),
{
    uuid::Uuid::new_v4().to_string()
}

} // verus!
pub mod model;
pub mod dao;
pub mod manager;
