//! Unix path text, as the Apple desktop uses it: names divided by `/`, and a
//! path that starts with `/` is absolute. It is read the same way on every
//! host, whatever paths look like there.

use vstd::prelude::*;
use vstd::string::*;

verus! {

/// An absolute path starts at the root, `/`.
pub open spec fn is_absolute(p: Seq<char>) -> bool {
    p.len() > 0 && p[0] == '/'
}

/// `path` seen from `base`: an absolute `path` stands for itself; any other
/// follows `base`, after a `/` unless `base` is empty or already ends in
/// one.
pub open spec fn join(base: Seq<char>, path: Seq<char>) -> Seq<char> {
    if is_absolute(path) {
        path
    } else if base.len() == 0 || base.last() == '/' {
        base + path
    } else {
        base + seq!['/'] + path
    }
}

/// `path` seen from `base`, as [`join`] defines it.
pub fn append(base: &str, path: &str) -> (joined: String)
    ensures
        joined@ == join(base@, path@),
{
    proof {
        reveal_strlit("/");
        assert("/"@ =~= seq!['/']);
    }
    if path.unicode_len() > 0 && path.get_char(0) == '/' {
        return path.to_owned();
    }
    let n = base.unicode_len();
    let mut joined = base.to_owned();
    if n > 0 && base.get_char(n - 1) != '/' {
        joined.append("/");
    }
    joined.append(path);
    joined
}

} // verus!
