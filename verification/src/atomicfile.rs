//! Crash-safe file writes stage through a sibling temp file that is renamed
//! over the target. This module decides the temp file's name.

use vstd::prelude::*;
use crate::text::push_str;

verus! {

/// The temp path a write to `path` stages through: the target's full name
/// plus `.tmp`, in the same directory.
pub open spec fn tmp_path_spec(path: Seq<char>) -> Seq<char> {
    path + ".tmp"@
}

/// The sibling temp path a write to `path` stages through. It keeps the full
/// name, so two files in one directory never stage through the same path.
pub fn tmp_path(path: &str) -> (r: String)
    ensures
        r@ == tmp_path_spec(path@),
{
    let mut r = crate::text::string_from(path);
    push_str(&mut r, ".tmp");
    r
}

/// Distinct targets never share a temp file.
pub proof fn lemma_tmp_paths_distinct(a: Seq<char>, b: Seq<char>)
    requires
        a != b,
    ensures
        tmp_path_spec(a) != tmp_path_spec(b),
{
    if tmp_path_spec(a) == tmp_path_spec(b) {
        let t = ".tmp"@;
        assert((a + t).len() == a.len() + t.len());
        assert((b + t).len() == b.len() + t.len());
        assert(a.len() == b.len());
        assert(a =~= tmp_path_spec(a).take(a.len() as int));
        assert(b =~= tmp_path_spec(b).take(b.len() as int));
    }
}

} // verus!
