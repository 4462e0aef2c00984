//! Slash-separated file system paths held as strings.
use vstd::prelude::*;
use crate::text::{chars_of, push_all, push_char, string_from};

verus! {

/// `PathBuf::join` on a Unix path: an absolute component replaces the base;
/// otherwise a `/` separates the two unless the base is empty or already ends
/// with one.
pub open spec fn join(base: Seq<char>, comp: Seq<char>) -> Seq<char> {
    if comp.len() > 0 && comp[0] == '/' {
        comp
    } else if base.len() > 0 && base.last() != '/' {
        base + seq!['/'] + comp
    } else {
        base + comp
    }
}

/// Joins `comp` onto the path `base`.
pub fn path_join(base: &str, comp: &str) -> (r: String)
    ensures
        r@ == join(base@, comp@),
{
    let b = chars_of(base);
    let c = chars_of(comp);
    if c.len() > 0 && c[0] == '/' {
        return string_from(&c);
    }
    let mut r = string_from(&b);
    if b.len() > 0 && b[b.len() - 1] != '/' {
        push_char(&mut r, '/');
    }
    push_all(&mut r, &c);
    r
}

} // verus!
