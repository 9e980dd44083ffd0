//! The database interface that the host hands to plugins, and the values that cross it.

use vstd::prelude::*;
use crate::error::{Error, ErrorKind};

verus! {

/// A database value: the native SQLite types. A real number is carried as the bit
/// pattern of its IEEE-754 `f64` (`f64::to_bits`), which the library never reads.
#[derive(Debug, Clone)]
pub enum DbValue {
    /// NULL.
    Null,
    /// A 64-bit integer.
    Int(i64),
    /// A real number, as the bits of its `f64`.
    Real(u64),
    /// Text.
    Text(String),
    /// Binary data.
    Blob(Vec<u8>),
}

impl DbValue {
    /// A NULL value.
    pub fn null() -> (r: Self)
        ensures
            r is Null,
    {
        DbValue::Null
    }

    /// An integer value.
    pub fn integer(v: i64) -> (r: Self)
        ensures
            r == DbValue::Int(v),
    {
        DbValue::Int(v)
    }

    /// A text value holding the characters of `v`.
    pub fn text(v: &str) -> (r: Self)
        ensures
            r matches DbValue::Text(s) && s@ == v@,
    {
        DbValue::Text(String::from_str(v))
    }

    /// A binary value.
    pub fn blob(v: Vec<u8>) -> (r: Self)
        ensures
            r == DbValue::Blob(v),
    {
        DbValue::Blob(v)
    }
}

/// A character that may stand in a table name: an ASCII letter or digit, `_` or `.`.
pub open spec fn table_name_char(c: char) -> bool {
    ('a' <= c && c <= 'z') || ('A' <= c && c <= 'Z') || ('0' <= c && c <= '9') || c == '_' || c == '.'
}

/// A table name is safe to interpolate into SQL when all its characters may stand in one.
pub open spec fn safe_table_name(s: Seq<char>) -> bool {
    forall|i: int| 0 <= i < s.len() ==> table_name_char(#[trigger] s[i])
}

/// Checks that a table name holds only ASCII letters and digits, `_` and `.`, so that it
/// can be interpolated into SQL; a `DatabaseError` naming it otherwise.
pub fn validate_table_name(table: &str) -> (r: Result<(), Error>)
    ensures
        r is Ok <==> safe_table_name(table@),
        r matches Err(e) ==> e.kind_of() matches ErrorKind::DatabaseError(m) && m@ == "invalid table name: "@ + table@,
{
    let mut ok = true;
    for c in it: table.chars()
        invariant
            it.seq() == table@,
            ok <==> (forall|j: int| 0 <= j < it.index() ==> table_name_char(#[trigger] table@[j])),
    {
        if !(('a' <= c && c <= 'z') || ('A' <= c && c <= 'Z') || ('0' <= c && c <= '9') || c == '_' || c == '.') {
            ok = false;
        }
    }
    if ok {
        Ok(())
    } else {
        Err(Error::from(ErrorKind::DatabaseError(crate::text::two("invalid table name: ", table))))
    }
}

/// The characters a table name may hold are exactly the ASCII letters of either case
/// (code points 65–90 and 97–122), the ASCII digits (48–57), `_` (95) and `.` (46): so a
/// name made only of these is accepted by [`validate_table_name`], and a name holding any
/// other character (a space, `;`, `-`, a quote, any non-ASCII character) is refused.
pub proof fn lemma_table_name_chars(c: char, s: Seq<char>)
    ensures
        table_name_char(c) <==> ((65 <= c as int <= 90) || (97 <= c as int <= 122)
            || (48 <= c as int <= 57) || c as int == 95 || c as int == 46),
        safe_table_name(s) <==> forall|i: int| 0 <= i < s.len() ==>
            (65 <= #[trigger] s[i] as int <= 90) || (97 <= s[i] as int <= 122)
                || (48 <= s[i] as int <= 57) || s[i] as int == 95 || s[i] as int == 46,
{
}

/// The database operations that the host offers plugins. The host implements it over
/// its database; every operation that a plugin performs through it should be idempotent.
pub trait DatabaseExt: Send + Sync {
    /// Executes one statement; returns the number of rows affected.
    fn execute(&self, sql: &str) -> Result<usize, Error>;

    /// Executes one statement with bound parameters; returns the number of rows affected.
    fn execute_with(&self, sql: &str, params: &[DbValue]) -> Result<usize, Error>;

    /// Runs a query; returns its rows.
    fn query(&self, sql: &str) -> Result<Vec<Vec<DbValue>>, Error>;

    /// Runs a query with bound parameters; returns its rows.
    fn query_with(&self, sql: &str, params: &[DbValue]) -> Result<Vec<Vec<DbValue>>, Error>;

    /// Whether the table exists.
    fn has_table(&self, table: &str) -> Result<bool, Error>;

    /// Drops the table if it exists.
    fn drop_table(&self, table: &str) -> Result<(), Error>;

    /// Checks that a table name is safe to interpolate into SQL (see [`validate_table_name`]).
    fn validate_table_name(&self, table: &str) -> (r: Result<(), Error>)
        ensures
            r is Ok <==> safe_table_name(table@),
            r matches Err(e) ==> e.kind_of() matches ErrorKind::DatabaseError(m) && m@ == "invalid table name: "@ + table@,
    {
        validate_table_name(table)
    }

    /// A short description of the connection, for logs.
    fn describe(&self) -> String;
}

} // verus!
