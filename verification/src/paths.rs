//! Paths as text. Components are separated by `/`.

use vstd::prelude::*;

verus! {

/// Whether a path starts at the root.
pub open spec fn is_rooted(path: Seq<char>) -> bool {
    path.len() > 0 && path[0] == '/'
}

/// The path reached from `base` by following `rel`: a rooted `rel` replaces
/// `base`; otherwise `rel` is appended, after a separator unless `base` is
/// empty or already ends in one.
pub open spec fn joined(base: Seq<char>, rel: Seq<char>) -> Seq<char> {
    if is_rooted(rel) {
        rel
    } else if base.len() == 0 || base.last() == '/' {
        base + rel
    } else {
        base + seq!['/'] + rel
    }
}

/// Whether `text` ends in `/`.
fn ends_with_separator(text: &str) -> (r: bool)
    ensures
        r == (text@.len() > 0 && text@.last() == '/'),
{
    let n: usize = text.unicode_len();
    n > 0 && text.get_char(n - 1) == '/'
}

/// Joins `rel` onto `base`.
pub fn join_path(base: &str, rel: &str) -> (r: String)
    ensures
        r@ == joined(base@, rel@),
{
    proof {
        reveal_strlit("/");
    }
    if rel.unicode_len() > 0 && rel.get_char(0) == '/' {
        rel.to_owned()
    } else if base.unicode_len() == 0 || ends_with_separator(base) {
        let r = base.to_owned().concat(rel);
        r
    } else {
        let r = base.to_owned().concat("/").concat(rel);
        assert("/"@ =~= seq!['/']);
        r
    }
}

} // verus!
