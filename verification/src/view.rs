//! How optional and fallible values are read in contracts: by the
//! content of what they hold.

use vstd::prelude::*;
use crate::errors::Error;

verus! {

/// Content of an optional string.
pub open spec fn text_opt(o: Option<String>) -> Option<Seq<char>> {
    match o {
        Some(s) => Some(s@),
        None => None,
    }
}

/// Content of optional bytes.
pub open spec fn bytes_opt(o: Option<Vec<u8>>) -> Option<Seq<u8>> {
    match o {
        Some(v) => Some(v@),
        None => None,
    }
}

/// Content of an optional pair of texts.
pub open spec fn pair_opt(o: Option<(String, String)>) -> Option<(Seq<char>, Seq<char>)> {
    match o {
        Some(p) => Some((p.0@, p.1@)),
        None => None,
    }
}

/// Content of a list of texts.
pub open spec fn texts(v: Vec<String>) -> Seq<Seq<char>> {
    v@.map_values(|s: String| s@)
}

/// A result by the content of its value.
pub open spec fn outcome<T: View>(r: Result<T, Error>) -> Result<T::V, Error> {
    match r {
        Ok(v) => Ok(v@),
        Err(e) => Err(e),
    }
}

/// Content of a result that holds a text.
pub open spec fn text_result(r: Result<String, Error>) -> Result<Seq<char>, Error> {
    match r {
        Ok(s) => Ok(s@),
        Err(e) => Err(e),
    }
}

/// The text of an `Ok` as `Some`, an `Err` as `None`.
pub fn token_of(r: Result<String, Error>) -> (t: Option<String>)
    ensures
        match r {
            Ok(s) => t matches Some(u) && u@ == s@,
            Err(_) => t is None,
        },
{
    match r {
        Ok(s) => Some(s),
        Err(_) => None,
    }
}

/// The bytes of an `Ok` as `Some`, an `Err` as `None`.
pub fn bytes_of(r: Result<Vec<u8>, Error>) -> (o: Option<Vec<u8>>)
    ensures
        match r {
            Ok(v) => o matches Some(w) && w@ == v@,
            Err(_) => o is None,
        },
{
    match r {
        Ok(v) => Some(v),
        Err(_) => None,
    }
}

} // verus!
