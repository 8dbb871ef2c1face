//! Paths as UTF-8 text, and the one operation on them that is left to the
//! path library.

use vstd::prelude::*;

verus! {

/// The path that adjoining `part` to `base` gives: what `camino` computes for
/// the two texts on the platform the library was built for.
pub uninterp spec fn path_join(base: Seq<char>, part: Seq<char>) -> Seq<char>;

/// Trusted: `camino::Utf8Path::join`, which adjoins `part` to `base` as
/// `std::path::Path::join` does (an absolute `part` replaces `base`). It reads
/// nothing but the two texts and touches no file system; the contract gives
/// its result the name [`path_join`] and claims no more of it.
#[verifier::external_body]
pub(crate) fn join(base: &str, part: &str) -> (joined: String)
    ensures
        joined@ == path_join(base@, part@),
{
    camino::Utf8Path::new(base).join(part).into_string()
}

} // verus!
