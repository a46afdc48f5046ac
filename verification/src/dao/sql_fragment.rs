//! Pieces of SQL text that the engine puts together.

use vstd::prelude::*;
use crate::text::{chars_of, push_str};

verus! {

/// A piece of an SQL statement.
#[allow(non_camel_case_types)]
#[derive(Debug)]
pub enum SqlFragment {
    SELECT,
    COUNT(String),
    WHERE,
    AND(String),
    FIELD(String),
    FROM(String),
    ORDER_BY(String),
    JOIN(String),
    LEFT_JOIN(String),
    DISTINCT,
}

/// The text of each piece: every piece but `SELECT` begins with a blank.
pub open spec fn fragment_text(f: SqlFragment) -> Seq<char> {
    match f {
        SqlFragment::SELECT => "SELECT"@,
        SqlFragment::DISTINCT => " DISTINCT"@,
        SqlFragment::COUNT(v) => " COUNT("@ + v@ + ")"@,
        SqlFragment::WHERE => " WHERE 1 = 1"@,
        SqlFragment::JOIN(s) => " JOIN "@ + s@,
        SqlFragment::LEFT_JOIN(s) => " LEFT JOIN "@ + s@,
        SqlFragment::AND(s) => " AND "@ + s@,
        SqlFragment::FIELD(s) => " "@ + s@,
        SqlFragment::FROM(s) => " from "@ + s@,
        SqlFragment::ORDER_BY(s) => " order by "@ + s@,
    }
}

impl SqlFragment {
    /// The blank that separates pieces.
    pub const BLANK: &'static str = " ";

    /// The SQL text of this piece.
    pub fn to_string(&self) -> (r: String)
        ensures
            r@ == fragment_text(*self),
    {
        match self {
            SqlFragment::SELECT => String::from_str("SELECT"),
            SqlFragment::DISTINCT => String::from_str(" DISTINCT"),
            SqlFragment::COUNT(v) => {
                let mut s = String::from_str(" COUNT(");
                push_str(&mut s, v.as_str());
                push_str(&mut s, ")");
                s
            },
            SqlFragment::WHERE => String::from_str(" WHERE 1 = 1"),
            SqlFragment::JOIN(v) => {
                let mut s = String::from_str(" JOIN ");
                push_str(&mut s, v.as_str());
                s
            },
            SqlFragment::LEFT_JOIN(v) => {
                let mut s = String::from_str(" LEFT JOIN ");
                push_str(&mut s, v.as_str());
                s
            },
            SqlFragment::AND(v) => {
                let mut s = String::from_str(" AND ");
                push_str(&mut s, v.as_str());
                s
            },
            SqlFragment::FIELD(v) => {
                let mut s = String::from_str(" ");
                push_str(&mut s, v.as_str());
                s
            },
            SqlFragment::FROM(v) => {
                let mut s = String::from_str(" from ");
                push_str(&mut s, v.as_str());
                s
            },
            SqlFragment::ORDER_BY(v) => {
                let mut s = String::from_str(" order by ");
                push_str(&mut s, v.as_str());
                s
            },
        }
    }

    /// The characters of this piece's SQL text.
    pub fn vechars(&self) -> (r: Vec<char>)
        ensures
            r@ == fragment_text(*self),
    {
        let s = self.to_string();
        chars_of(s.as_str())
    }
}

} // verus!
