//! Input normalization: the lookup word is lowercased and its spaces and
//! apostrophes become hyphens, matching the site's URL slug convention.

use vstd::prelude::*;
use vstd::string::*;

verus! {

/// What `str::to_lowercase` returns for the given characters.
pub uninterp spec fn lower_of(s: Seq<char>) -> Seq<char>;

/// What `str::to_uppercase` returns for the given characters.
pub uninterp spec fn upper_of(s: Seq<char>) -> Seq<char>;

/// Relies on `str::to_lowercase`: the lowercase equivalent depends on the
/// characters alone.
#[verifier::external_body]
pub(crate) fn lowercase(s: &str) -> (r: String)
    ensures
        r@ == lower_of(s@),
{
    s.to_lowercase()
}

/// Relies on `str::to_uppercase`: the uppercase equivalent depends on the
/// characters alone.
#[verifier::external_body]
pub(crate) fn uppercase(s: &str) -> (r: String)
    ensures
        r@ == upper_of(s@),
{
    s.to_uppercase()
}

/// Replaces a space or an apostrophe by a hyphen, keeping every other
/// character.
pub open spec fn slug_char(c: char) -> char {
    if c == ' ' || c == '\'' {
        '-'
    } else {
        c
    }
}

/// The slug form of an already lowercased word: each space and each
/// apostrophe becomes a hyphen.
pub open spec fn slug_of(s: Seq<char>) -> Seq<char> {
    s.map_values(|c: char| slug_char(c))
}

/// Normalizes the raw word argument into the slug used in lookup URLs:
/// lowercase it, then replace each space and each apostrophe by a hyphen.
/// The result never contains a space or an apostrophe.
pub fn normalize_word(w: &str) -> (r: String)
    ensures
        r@ == slug_of(lower_of(w@)),
        forall|k: int| 0 <= k < r@.len() ==> r@[k] != ' ' && r@[k] != '\'',
{
    let low = lowercase(w);
    let n = low.as_str().unicode_len();
    let mut out = String::new();
    let mut i: usize = 0;
    while i < n
        invariant
            0 <= i <= n,
            n == low@.len(),
            out@ == slug_of(low@.take(i as int)),
        decreases n - i,
    {
        let c = low.as_str().get_char(i);
        let d = if c == ' ' || c == '\'' {
            '-'
        } else {
            c
        };
        crate::text::push_char(&mut out, d);
        proof {
            assert(slug_of(low@.take(i + 1)) =~= slug_of(low@.take(i as int)).push(
                slug_char(low@[i as int]),
            ));
        }
        i = i + 1;
    }
    proof {
        assert(low@.take(n as int) =~= low@);
        assert(forall|k: int| 0 <= k < out@.len() ==> out@[k] == slug_char(low@[k]));
    }
    out
}

} // verus!
