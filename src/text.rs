use vstd::prelude::*;
use vstd::string::*;

verus! {

/// The text of an optional string.
pub open spec fn opt_text(h: Option<String>) -> Option<Seq<char>> {
    match h {
        Some(s) => Some(s@),
        None => None,
    }
}

/// Character-wise equality of two string slices.
pub fn same_text(a: &str, b: &str) -> (r: bool)
    ensures
        r == (a@ == b@),
{
    let x = String::from_str(a);
    let y = String::from_str(b);
    x == y
}

/// A copy of an optional string.
pub fn copy_opt(h: &Option<String>) -> (r: Option<String>)
    ensures
        opt_text(r) == opt_text(*h),
{
    match h {
        Some(s) => Some(s.clone()),
        None => None,
    }
}

/// Whether an optional string holds exactly `t`.
pub fn holds_text(h: &Option<String>, t: &String) -> (r: bool)
    ensures
        r == (opt_text(*h) == Some(t@)),
{
    match h {
        Some(s) => *s == *t,
        None => false,
    }
}

} // verus!
