//! Small text operations on which the backend builds its URLs and messages.
use vstd::prelude::*;
use vstd::string::*;

verus! {

/// `s` without its trailing `'/'` characters (what `str::trim_end_matches('/')`
/// leaves).
pub open spec fn trim_trailing_slashes(s: Seq<char>) -> Seq<char>
    decreases s.len(),
{
    if s.len() > 0 && s.last() == '/' {
        trim_trailing_slashes(s.drop_last())
    } else {
        s
    }
}

/// The trimmed text is a prefix of the original, and the rest of the
/// original is made of `'/'` only.
pub proof fn lemma_trim_shape(s: Seq<char>)
    ensures
        trim_trailing_slashes(s).len() <= s.len(),
        trim_trailing_slashes(s) == s.take(trim_trailing_slashes(s).len() as int),
        forall|i: int|
            trim_trailing_slashes(s).len() <= i < s.len() ==> #[trigger] s[i] == '/',
        trim_trailing_slashes(s).len() == 0 || trim_trailing_slashes(s).last() != '/',
    decreases s.len(),
{
    if s.len() > 0 && s.last() == '/' {
        lemma_trim_shape(s.drop_last());
        let t = trim_trailing_slashes(s.drop_last());
        assert(s.drop_last().take(t.len() as int) == s.take(t.len() as int));
        assert forall|i: int| t.len() <= i < s.len() implies #[trigger] s[i] == '/' by {
            if i < s.len() - 1 {
                assert(s.drop_last()[i] == s[i]);
            }
        }
    } else {
        assert(s.take(s.len() as int) == s);
    }
}

/// A text with no trailing `'/'` is left as it is.
pub proof fn lemma_trim_noop(s: Seq<char>)
    requires
        s.len() == 0 || s.last() != '/',
    ensures
        trim_trailing_slashes(s) == s,
{
}

/// Trimming `s.take(end)` when its last character is `'/'` is trimming
/// `s.take(end - 1)`.
proof fn lemma_trim_step(s: Seq<char>, end: int)
    requires
        0 < end <= s.len(),
        s[end - 1] == '/',
    ensures
        trim_trailing_slashes(s.take(end)) == trim_trailing_slashes(s.take(end - 1)),
{
    assert(s.take(end).drop_last() == s.take(end - 1));
}

/// `s` without its trailing `'/'` characters, as `str::trim_end_matches('/')`
/// leaves it.
pub fn trim_end_slashes(s: &str) -> (r: String)
    ensures
        r@ == trim_trailing_slashes(s@),
{
    let n = s.unicode_len();
    let mut end: usize = n;
    assert(s@.take(n as int) == s@);
    while end > 0 && s.get_char(end - 1) == '/'
        invariant
            end <= n,
            n == s@.len(),
            trim_trailing_slashes(s@) == trim_trailing_slashes(s@.take(end as int)),
        decreases end,
    {
        proof {
            lemma_trim_step(s@, end as int);
        }
        end = end - 1;
    }
    let kept = s.substring_char(0, end);
    proof {
        let t = s@.take(end as int);
        assert(kept@ == t);
        if end > 0 {
            assert(t.last() == s@[end - 1]);
        }
        lemma_trim_noop(t);
    }
    String::from_str(kept)
}

/// `label`, then `": "`, then `text`: the shape of every warning message.
pub open spec fn labelled(label: Seq<char>, text: Seq<char>) -> Seq<char> {
    label + ": "@ + text
}

/// Builds `label: text`.
pub fn make_labelled(label: &str, text: &str) -> (r: String)
    ensures
        r@ == labelled(label@, text@),
{
    let mut r = String::from_str(label);
    r.append(": ");
    r.append(text);
    r
}

} // verus!
