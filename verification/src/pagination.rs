//! Pagination extracted from the query parameters of a question
//! listing: both `limit` and `offset` must be present and numeric.

use crate::claims::str_eq;
use crate::error::Error;
use crate::num::{parse_i32, parse_i32_spec};
use vstd::prelude::*;
use vstd::string::*;

verus! {

/// Pagination taken from query parameters.
#[derive(Debug, PartialEq, Eq, Structural)]
pub struct Pagination {
    /// How many items to return, when given.
    pub limit: Option<i32>,
    /// The index of the first item to return.
    pub offset: i32,
}

impl Default for Pagination {
    /// No limit, starting from the first item.
    fn default() -> (r: Self)
        ensures
            r == (Pagination { limit: None, offset: 0 }),
    {
        Pagination { limit: None, offset: 0 }
    }
}

/// The first value listed under `key`, searching front to back.
pub open spec fn lookup(params: Seq<(String, String)>, key: Seq<char>) -> Option<Seq<char>>
    decreases params.len(),
{
    if params.len() == 0 {
        None
    } else if params[0].0@ == key {
        Some(params[0].1@)
    } else {
        lookup(params.drop_first(), key)
    }
}

/// What pagination extraction returns: both parameters must be present,
/// and each must parse as the standard library parses an `i32`; the
/// `limit` parameter is examined first.
pub open spec fn extract_pagination_spec(params: Seq<(String, String)>) -> Result<
    Pagination,
    Error,
> {
    match (lookup(params, "limit"@), lookup(params, "offset"@)) {
        (Some(l), Some(o)) => match parse_i32_spec(l) {
            Ok(lv) => match parse_i32_spec(o) {
                Ok(ov) => Ok(Pagination { limit: Some(lv), offset: ov }),
                Err(k) => Err(Error::ParseError(k)),
            },
            Err(k) => Err(Error::ParseError(k)),
        },
        _ => Err(Error::MissingParameters),
    }
}

/// Finds the first value listed under `key`.
fn lookup_param<'a>(params: &'a Vec<(String, String)>, key: &str) -> (r: Option<&'a String>)
    ensures
        match r {
            Some(v) => lookup(params@, key@) == Some(v@),
            None => lookup(params@, key@) is None,
        },
{
    let n = params.len();
    let mut i: usize = 0;
    assert(params@.skip(0) =~= params@);
    while i < n
        invariant
            n == params@.len(),
            i <= n,
            lookup(params@, key@) == lookup(params@.skip(i as int), key@),
        decreases n - i,
    {
        assert(params@.skip(i as int)[0] == params@[i as int]);
        let p = &params[i];
        if str_eq(p.0.as_str(), key) {
            return Some(&p.1);
        }
        assert(params@.skip(i as int).drop_first() =~= params@.skip(i + 1));
        i = i + 1;
    }
    assert(params@.skip(i as int) =~= Seq::<(String, String)>::empty());
    None
}

/// Extracts pagination from query parameters given as key-value pairs.
pub fn extract_pagination(params: &Vec<(String, String)>) -> (r: Result<Pagination, Error>)
    ensures
        r == extract_pagination_spec(params@),
{
    let limit = lookup_param(params, "limit");
    let offset = lookup_param(params, "offset");
    match (limit, offset) {
        (Some(l), Some(o)) => {
            match parse_i32(l.as_str()) {
                Ok(lv) => match parse_i32(o.as_str()) {
                    Ok(ov) => Ok(Pagination { limit: Some(lv), offset: ov }),
                    Err(k) => Err(Error::ParseError(k)),
                },
                Err(k) => Err(Error::ParseError(k)),
            }
        },
        _ => Err(Error::MissingParameters),
    }
}

/// The pagination a question listing runs under: the default when no
/// parameters were given, what they extract to otherwise.
pub fn pagination_or_default(params: &Vec<(String, String)>) -> (r: Result<Pagination, Error>)
    ensures
        r == (if params@.len() == 0 {
            Ok::<Pagination, Error>(Pagination { limit: None, offset: 0 })
        } else {
            extract_pagination_spec(params@)
        }),
{
    if params.len() == 0 {
        Ok(Pagination::default())
    } else {
        extract_pagination(params)
    }
}

} // verus!
