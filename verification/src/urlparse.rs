//! URL well-formedness. Validation is delegated to the `url` crate; the
//! grammar it implements (scheme, authority, path, and so on) is far too
//! large to restate, so acceptance is captured as an opaque predicate of the
//! input characters.
use vstd::prelude::*;

verus! {

/// Whether a string is a syntactically well-formed absolute URL. The
/// predicate is meaningful because `url::Url::parse` accepts or rejects an
/// input by its characters alone.
pub uninterp spec fn url_well_formed(s: Seq<char>) -> bool;

/// Relies on `url::Url::parse`: a deterministic parser, so whether it
/// returns `Ok` is a pure function of the input string.
#[verifier::external_body]
pub(crate) fn url_is_well_formed(s: &str) -> (r: bool)
    ensures
        r == url_well_formed(s@),
{
    url::Url::parse(s).is_ok()
}

} // verus!
