use vstd::prelude::*;

use crate::error::{is_u32_text, parse_u32, u32_text_value, Error};

verus! {

/// Limit and offset of a listing, taken from its query parameters. No limit
/// means every row from the offset on.
#[derive(Debug, Clone, Copy, PartialEq, Eq, Structural)]
pub struct Pagination {
    pub limit: Option<u32>,
    pub offset: u32,
}

impl Default for Pagination {
    fn default() -> (r: Pagination)
        ensures
            r == (Pagination { limit: None, offset: 0 }),
    {
        Pagination { limit: None, offset: 0 }
    }
}

/// The value that the query parameters give to `key`: the last pair with that
/// key wins, as when the pairs are collected into a map in order.
pub open spec fn param_value(params: Seq<(String, String)>, key: Seq<char>) -> Option<Seq<char>>
    decreases params.len(),
{
    if params.len() == 0 {
        None
    } else if params.last().0@ == key {
        Some(params.last().1@)
    } else {
        param_value(params.drop_last(), key)
    }
}

/// An absent parameter, or one that reads as a `u32`.
pub open spec fn param_ok(v: Option<Seq<char>>) -> bool {
    match v {
        Some(t) => is_u32_text(t),
        None => true,
    }
}

/// The number that a parameter holds, if it is present.
pub open spec fn param_number(v: Option<Seq<char>>) -> Option<u32> {
    match v {
        Some(t) => Some(u32_text_value(t) as u32),
        None => None,
    }
}

/// What the query parameters ask for, where both parameters that are present
/// are numbers: each absent one takes its default.
pub open spec fn requested_pagination(params: Seq<(String, String)>) -> Pagination {
    Pagination {
        limit: param_number(param_value(params, "limit"@)),
        offset: match param_number(param_value(params, "offset"@)) {
            Some(o) => o,
            None => 0,
        },
    }
}

/// The position of the pair that gives `key` its value, if any.
fn find_param(params: &Vec<(String, String)>, key: &String) -> (r: Option<usize>)
    ensures
        r is None <==> param_value(params@, key@) is None,
        r matches Some(k) ==> k < params.len() && param_value(params@, key@) == Some(
            params@[k as int].1@,
        ),
{
    let mut found: Option<usize> = None;
    let mut i: usize = 0;
    while i < params.len()
        invariant
            i <= params.len(),
            found is None <==> param_value(params@.take(i as int), key@) is None,
            found matches Some(k) ==> k < i && param_value(params@.take(i as int), key@) == Some(
                params@[k as int].1@,
            ),
        decreases params.len() - i,
    {
        if params[i].0 == *key {
            found = Some(i);
        }
        assert(params@.take(i + 1).drop_last() =~= params@.take(i as int));
        i += 1;
    }
    assert(params@.take(params.len() as int) =~= params@);
    found
}

/// Reads the number that `key` holds, if present.
fn number_param(params: &Vec<(String, String)>, key: &String) -> (r: Result<Option<u32>, Error>)
    ensures
        r.is_ok() <==> param_ok(param_value(params@, key@)),
        r matches Ok(n) ==> n == param_number(param_value(params@, key@)),
        r matches Err(e) ==> e is ParseError,
{
    match find_param(params, key) {
        None => Ok(None),
        Some(k) => match parse_u32(params[k].1.as_str()) {
            Ok(n) => Ok(Some(n)),
            Err(e) => Err(Error::ParseError(e)),
        },
    }
}

/// Extracts the pagination of a listing from its query parameters. A missing
/// `limit` means no limit and a missing `offset` means zero, so no parameters
/// at all give the default pagination; a parameter that is present but is not
/// a `u32` is a `ParseError`, `limit` being read first.
pub fn extract_pagniation(params: Vec<(String, String)>) -> (r: Result<Pagination, Error>)
    ensures
        r.is_ok() <==> param_ok(param_value(params@, "limit"@)) && param_ok(
            param_value(params@, "offset"@),
        ),
        r matches Ok(p) ==> p == requested_pagination(params@),
        r matches Err(e) ==> e is ParseError,
{
    let limit_key = String::from_str("limit");
    let offset_key = String::from_str("offset");
    let limit = match number_param(&params, &limit_key) {
        Ok(n) => n,
        Err(e) => return Err(e),
    };
    let offset = match number_param(&params, &offset_key) {
        Ok(Some(o)) => o,
        Ok(None) => 0,
        Err(e) => return Err(e),
    };
    Ok(Pagination { limit, offset })
}

} // verus!
