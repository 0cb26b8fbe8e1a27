//! Operations on text: equality, alphabetical order, containment, and the
//! stem of a file path.

use vstd::prelude::*;
use vstd::string::StrSliceExecFns;

verus! {

/// Whether two texts are equal.
pub fn text_eq(a: &str, b: &str) -> (r: bool)
    ensures
        r == (a@ == b@),
{
    let x = a.to_owned();
    let y = b.to_owned();
    x == y
}

/// Alphabetical order: the first differing character decides, by code
/// point, and a proper prefix comes first.
pub open spec fn text_lt(a: Seq<char>, b: Seq<char>) -> bool
    decreases a.len(),
{
    if a.len() == 0 {
        b.len() > 0
    } else if b.len() == 0 {
        false
    } else if a[0] != b[0] {
        (a[0] as u32) < (b[0] as u32)
    } else {
        text_lt(a.drop_first(), b.drop_first())
    }
}

/// Whether `a` comes strictly before `b` in alphabetical order.
pub fn text_less(a: &str, b: &str) -> (r: bool)
    ensures
        r == text_lt(a@, b@),
{
    let na = a.unicode_len();
    let nb = b.unicode_len();
    let mut i: usize = 0;
    assert(a@.skip(0) =~= a@);
    assert(b@.skip(0) =~= b@);
    while i < na && i < nb
        invariant
            na == a@.len(),
            nb == b@.len(),
            i <= na,
            i <= nb,
            text_lt(a@, b@) == text_lt(a@.skip(i as int), b@.skip(i as int)),
        decreases na - i,
    {
        proof {
            assert(a@.skip(i as int).drop_first() =~= a@.skip(i + 1));
            assert(b@.skip(i as int).drop_first() =~= b@.skip(i + 1));
        }
        let ca = a.get_char(i);
        let cb = b.get_char(i);
        if ca != cb {
            return (ca as u32) < (cb as u32);
        }
        i = i + 1;
    }
    nb > i
}

/// Whether `t` occurs in `s`.
pub open spec fn contains(s: Seq<char>, t: Seq<char>) -> bool {
    exists|i: int| 0 <= i <= s.len() - t.len() && #[trigger] s.subrange(i, i + t.len()) == t
}

/// A text occurs in any text that ends with it.
pub proof fn lemma_contains_end(s: Seq<char>, t: Seq<char>)
    ensures
        contains(s + t, t),
{
    assert((s + t).subrange(s.len() as int, (s.len() + t.len()) as int) =~= t);
}

/// What a text holds, a longer text that starts with it holds too.
pub proof fn lemma_contains_extend(s: Seq<char>, u: Seq<char>, t: Seq<char>)
    requires
        contains(s, t),
    ensures
        contains(s + u, t),
{
    let i = choose|i: int| 0 <= i <= s.len() - t.len() && #[trigger] s.subrange(i, i + t.len()) == t;
    assert((s + u).subrange(i, i + t.len()) =~= s.subrange(i, i + t.len()));
}

/// The file name of a path without its extension, as `std::path::Path::file_stem`
/// gives it; `None` where the path has no file name.
pub uninterp spec fn file_stem_of(path: Seq<char>) -> Option<Seq<char>>;

/// Relies on `std::path::Path::file_stem`, whose result depends on the path alone;
/// a stem taken from a `str` is valid UTF-8.
#[verifier::external_body]
pub fn file_stem(path: &str) -> (r: Option<String>)
    ensures
        match r {
            Some(s) => file_stem_of(path@) == Some(s@),
            None => file_stem_of(path@) is None,
        },
{
    std::path::Path::new(path).file_stem().and_then(|s| s.to_str()).map(|s| s.to_string())
}

} // verus!
