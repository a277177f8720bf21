use vstd::prelude::*;
use vstd::string::StringExecFns;

verus! {

/// `s` with every `/` turned into `-`.
pub open spec fn slug_of(s: Seq<char>) -> Seq<char> {
    s.map_values(|c: char| if c == '/' { '-' } else { c })
}

/// Relies on `str::replace`, which replaces every match of the pattern: with the
/// one-character pattern `/` and replacement `-`, each `/` becomes `-` and every
/// other character stays.
#[verifier::external_body]
pub(crate) fn slug(s: &str) -> (r: String)
    ensures
        r@ == slug_of(s@),
{
    s.replace("/", "-")
}

/// `a` followed by `b`.
pub fn join(a: &str, b: &str) -> (r: String)
    ensures
        r@ == a@ + b@,
{
    let mut r = a.to_owned();
    r.append(b);
    r
}

} // verus!
