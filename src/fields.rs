//! Per-field parse rules: an absent key leaves a field unset, a present one must parse.

use vstd::prelude::*;
use crate::error::{DecodeError, DecodeErrorView, ErrorView, MpdError};
use crate::group::{lookup, Record};
use crate::text::{parse_u32, parse_u32_spec};

verus! {

pub open spec fn bad_value(key: Seq<char>) -> ErrorView {
    ErrorView::Decode(DecodeErrorView::BadValue(key))
}

/// A numeric field: unset when absent, an error when its text is not a `u32`.
pub open spec fn u32_field(rec: Seq<(Seq<char>, Seq<char>)>, key: Seq<char>) -> Result<Option<u32>, ErrorView> {
    match lookup(rec, key) {
        None => Ok(None),
        Some(v) => match parse_u32_spec(v) {
            Some(n) => Ok(Some(n)),
            None => Err(bad_value(key)),
        },
    }
}

/// A flag field: `1` is true, `0` is false, anything else is an error.
pub open spec fn flag_field(rec: Seq<(Seq<char>, Seq<char>)>, key: Seq<char>) -> Result<Option<bool>, ErrorView> {
    match lookup(rec, key) {
        None => Ok(None),
        Some(v) => if v == seq!['1'] {
            Ok(Some(true))
        } else if v == seq!['0'] {
            Ok(Some(false))
        } else {
            Err(bad_value(key))
        },
    }
}

pub open spec fn opt_str_view(s: Option<String>) -> Option<Seq<char>> {
    match s {
        Some(v) => Some(v@),
        None => None,
    }
}

pub open spec fn err_view<T>(r: Result<T, MpdError>) -> ErrorView {
    r->Err_0@
}

fn bad_value_error(key: &str) -> (e: MpdError)
    ensures
        e@ == bad_value(key@),
{
    MpdError::Decode(DecodeError::BadValue(key.to_string()))
}

/// Reads a numeric field of a record.
pub fn u32_field_of(rec: &Record, key: &str) -> (r: Result<Option<u32>, MpdError>)
    ensures
        match r {
            Ok(v) => u32_field(rec@, key@) == Ok::<Option<u32>, ErrorView>(v),
            Err(e) => u32_field(rec@, key@) == Err::<Option<u32>, ErrorView>(e@),
        },
{
    match rec.get(key) {
        None => Ok(None),
        Some(v) => {
            let s = v.as_str();
            let n = s.unicode_len();
            assert(s@.subrange(0, n as int) =~= s@);
            match parse_u32(s, 0, n) {
                Some(x) => Ok(Some(x)),
                None => Err(bad_value_error(key)),
            }
        },
    }
}

/// Reads a flag field of a record.
pub fn flag_field_of(rec: &Record, key: &str) -> (r: Result<Option<bool>, MpdError>)
    ensures
        match r {
            Ok(v) => flag_field(rec@, key@) == Ok::<Option<bool>, ErrorView>(v),
            Err(e) => flag_field(rec@, key@) == Err::<Option<bool>, ErrorView>(e@),
        },
{
    match rec.get(key) {
        None => Ok(None),
        Some(v) => {
            let s = v.as_str();
            let n = s.unicode_len();
            if n == 1 && s.get_char(0) == '1' {
                assert(s@ =~= seq!['1']);
                Ok(Some(true))
            } else if n == 1 && s.get_char(0) == '0' {
                assert(s@ =~= seq!['0']);
                Ok(Some(false))
            } else {
                Err(bad_value_error(key))
            }
        },
    }
}

/// Reads a text field of a record.
pub fn str_field_of(rec: &Record, key: &str) -> (r: Option<String>)
    ensures
        opt_str_view(r) == lookup(rec@, key@),
{
    match rec.get(key) {
        None => None,
        Some(v) => Some(v.clone()),
    }
}

} // verus!
