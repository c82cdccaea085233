//! The form-body parameter encoder.
//!
//! A request body is built from an ordered list of named parameters, each
//! with an optional value.  Entries without a value contribute nothing to
//! the body; the first present entry is written as `name=value` and every
//! later present entry is appended as `&name=value`.
//!
//! No percent-escaping is applied: a value reaches the body exactly as
//! given, which the contracts below state and the tests pin down.  A value
//! containing `&` or `=` therefore corrupts the body; callers must pass
//! values already in wire form.

use vstd::prelude::*;
use vstd::string::StringExecFns;

use crate::digits::{bool_str, bool_to_string, dec_str, i64_to_string, int_str, u64_to_string};

verus! {

/// One named parameter of a request body.  A `None` value marks the
/// parameter as absent: it is kept in the list (the caller's parameter
/// order is fixed) but contributes nothing to the encoded body.
pub struct Param {
    /// The parameter name as it appears on the wire.
    pub name: String,
    /// The rendered value, or `None` when the parameter is absent.
    pub value: Option<String>,
}

/// The view of an optional string value.
pub open spec fn opt_view(v: Option<String>) -> Option<Seq<char>> {
    match v {
        Option::Some(s) => Option::Some(s@),
        Option::None => Option::None,
    }
}

/// The wire view of an optional enumerated value, given the mapping of one
/// value to its wire string.
pub open spec fn opt_map_view<A>(o: Option<A>, f: spec_fn(A) -> Seq<char>) -> Option<Seq<char>> {
    match o {
        Option::Some(a) => Option::Some(f(a)),
        Option::None => Option::None,
    }
}

impl View for Param {
    type V = (Seq<char>, Option<Seq<char>>);

    open spec fn view(&self) -> (Seq<char>, Option<Seq<char>>) {
        (self.name@, opt_view(self.value))
    }
}

/// The views of a parameter list, in order.
pub open spec fn params_view(ps: Seq<Param>) -> Seq<(Seq<char>, Option<Seq<char>>)> {
    ps.map_values(|p: Param| p@)
}

/// One `name=value` pair as it appears in the body.
pub open spec fn encode_pair(name: Seq<char>, value: Seq<char>) -> Seq<char> {
    name + "="@ + value
}

/// The encoded body of a parameter list: present entries joined by `&` in
/// list order, absent entries skipped without leaving a separator.
pub open spec fn encode_params(ps: Seq<(Seq<char>, Option<Seq<char>>)>) -> Seq<char>
    decreases ps.len(),
{
    if ps.len() == 0 {
        Seq::empty()
    } else {
        let prefix = encode_params(ps.drop_last());
        match ps.last().1 {
            Option::None => prefix,
            Option::Some(v) => if prefix.len() == 0 {
                encode_pair(ps.last().0, v)
            } else {
                prefix + "&"@ + encode_pair(ps.last().0, v)
            },
        }
    }
}

/// Encoding is deterministic: two bodies obtained from the same parameter
/// list, with the same values in the same order, are identical.
pub proof fn lemma_encoding_deterministic(
    ps: Seq<(Seq<char>, Option<Seq<char>>)>,
    first: Seq<char>,
    second: Seq<char>,
)
    requires
        first == encode_params(ps),
        second == encode_params(ps),
    ensures
        first == second,
{
}

/// An entry with an absent value contributes nothing: removing it from the
/// list leaves the encoded body unchanged, with no stray separator.
pub proof fn lemma_absent_entry_encodes_nothing(
    ps: Seq<(Seq<char>, Option<Seq<char>>)>,
    i: int,
)
    requires
        0 <= i < ps.len(),
        ps[i].1 is None,
    ensures
        encode_params(ps.remove(i)) == encode_params(ps),
    decreases ps.len(),
{
    if i == ps.len() - 1 {
        assert(ps.remove(i) =~= ps.drop_last());
    } else {
        assert(ps.remove(i).drop_last() =~= ps.drop_last().remove(i));
        lemma_absent_entry_encodes_nothing(ps.drop_last(), i);
        assert(ps.remove(i).last() == ps.last());
    }
}

/// Encodes a parameter list into a single form body, exactly as
/// `encode_params` describes: the result is a pure function of the names
/// and values, so equal lists always encode to equal bodies.
pub fn param_build(params: &Vec<Param>) -> (r: String)
    ensures
        r@ == encode_params(params_view(params@)),
{
    let mut body = String::new();
    let mut i: usize = 0;
    while i < params.len()
        invariant
            i <= params@.len(),
            body@ == encode_params(params_view(params@).take(i as int)),
        decreases params@.len() - i,
    {
        let p = &params[i];
        match &p.value {
            Option::None => {},
            Option::Some(v) => {
                if !body.as_str().is_empty() {
                    body.append("&");
                }
                body.append(p.name.as_str());
                body.append("=");
                body.append(v.as_str());
            },
        }
        proof {
            let pv = params_view(params@);
            assert(pv.take(i + 1).drop_last() =~= pv.take(i as int));
            assert(pv.take(i + 1).last() == params@[i as int]@);
            assert(body@ =~= encode_params(pv.take(i + 1)));
        }
        i = i + 1;
    }
    proof {
        assert(params_view(params@).take(params@.len() as int) =~= params_view(params@));
    }
    body
}

/// A parameter with a present string value.
pub fn param(name: &str, value: String) -> (p: Param)
    ensures
        p@ == (name@, Option::Some(value@)),
{
    Param { name: name.to_owned(), value: Some(value) }
}

/// A parameter with an optional string value, passed through as given.
pub fn param_opt(name: &str, value: Option<String>) -> (p: Param)
    ensures
        p@ == (name@, opt_view(value)),
{
    Param { name: name.to_owned(), value }
}

/// A parameter carrying an unsigned number in decimal notation.
pub fn param_u64(name: &str, value: u64) -> (p: Param)
    ensures
        p@ == (name@, Option::Some(dec_str(value as nat))),
{
    Param { name: name.to_owned(), value: Some(u64_to_string(value)) }
}

/// A parameter carrying an optional unsigned number in decimal notation.
pub fn param_opt_u64(name: &str, value: Option<u64>) -> (p: Param)
    ensures
        p@ == (name@, match value {
            Option::Some(v) => Option::Some(dec_str(v as nat)),
            Option::None => Option::None,
        }),
{
    match value {
        Some(v) => Param { name: name.to_owned(), value: Some(u64_to_string(v)) },
        None => Param { name: name.to_owned(), value: None },
    }
}

/// A parameter carrying an optional signed number in decimal notation.
pub fn param_opt_i8(name: &str, value: Option<i8>) -> (p: Param)
    ensures
        p@ == (name@, match value {
            Option::Some(v) => Option::Some(int_str(v as int)),
            Option::None => Option::None,
        }),
{
    match value {
        Some(v) => Param { name: name.to_owned(), value: Some(i64_to_string(v as i64)) },
        None => Param { name: name.to_owned(), value: None },
    }
}

/// A parameter carrying an optional boolean, rendered `true` or `false`.
pub fn param_opt_bool(name: &str, value: Option<bool>) -> (p: Param)
    ensures
        p@ == (name@, match value {
            Option::Some(v) => Option::Some(bool_str(v)),
            Option::None => Option::None,
        }),
{
    match value {
        Some(v) => Param { name: name.to_owned(), value: Some(bool_to_string(v)) },
        None => Param { name: name.to_owned(), value: None },
    }
}

} // verus!
