use vstd::prelude::*;
use vstd::string::{StrSliceExecFns, StringExecFns};

verus! {

/// `text` with every occurrence of `marker` removed, scanning left to
/// right without overlap; an empty marker leaves the text unchanged.
pub open spec fn spec_remove_marker(text: Seq<char>, marker: Seq<char>) -> Seq<char>
    decreases text.len(),
{
    if marker.len() == 0 || text.len() < marker.len() {
        text
    } else if text.subrange(0, marker.len() as int) == marker {
        spec_remove_marker(text.skip(marker.len() as int), marker)
    } else {
        seq![text[0]] + spec_remove_marker(text.skip(1), marker)
    }
}

/// Whether `marker` occurs in `text` at character position `i`.
fn marker_at(text: &str, marker: &str, i: usize, n: usize, m: usize) -> (b: bool)
    requires
        n == text@.len(),
        m == marker@.len(),
        i + m <= n,
    ensures
        b == (text@.subrange(i as int, i + m) == marker@),
{
    let mut j: usize = 0;
    while j < m
        invariant
            j <= m,
            n == text@.len(),
            m == marker@.len(),
            i + m <= n,
            forall|k: int| 0 <= k < j ==> text@[i + k] == marker@[k],
        decreases m - j,
    {
        if text.get_char(i + j) != marker.get_char(j) {
            proof {
                assert(text@.subrange(i as int, i + m)[j as int] != marker@[j as int]);
            }
            return false;
        }
        j += 1;
    }
    proof {
        assert(text@.subrange(i as int, i + m) =~= marker@);
    }
    true
}

/// Removes every occurrence of `marker` from the completion endpoint's
/// reply, left to right without overlap — the endpoint sees user turns
/// prefixed with speaker names and tends to echo the bot's own name
/// prefix back, which must not reach the channel.
pub fn remove_marker(text: &str, marker: &str) -> (r: String)
    ensures
        r@ == spec_remove_marker(text@, marker@),
{
    let n = text.unicode_len();
    let m = marker.unicode_len();
    if m == 0 {
        return String::from_str(text);
    }
    let mut out = String::new();
    let mut i: usize = 0;
    proof {
        assert(text@.skip(0) =~= text@);
    }
    while i < n
        invariant
            i <= n,
            n == text@.len(),
            m == marker@.len(),
            m > 0,
            out@ + spec_remove_marker(text@.skip(i as int), marker@) == spec_remove_marker(
                text@,
                marker@,
            ),
        decreases n - i,
    {
        let ghost rest = text@.skip(i as int);
        if m <= n - i && marker_at(text, marker, i, n, m) {
            proof {
                assert(rest.subrange(0, m as int) =~= text@.subrange(i as int, i + m));
                assert(rest.skip(m as int) =~= text@.skip(i + m));
            }
            i += m;
        } else {
            out.append(text.substring_char(i, i + 1));
            proof {
                assert(text@.subrange(i as int, i + 1) =~= seq![text@[i as int]]);
                if rest.len() >= m {
                    assert(rest.subrange(0, m as int) =~= text@.subrange(i as int, i + m));
                    assert(spec_remove_marker(rest, marker@) == seq![rest[0]]
                        + spec_remove_marker(rest.skip(1), marker@));
                } else {
                    assert(spec_remove_marker(rest, marker@) == rest);
                    assert(spec_remove_marker(rest.skip(1), marker@) == rest.skip(1));
                    assert(rest =~= seq![rest[0]] + rest.skip(1));
                }
                assert(rest.skip(1) =~= text@.skip(i + 1));
                assert(seq![rest[0]] =~= text@.subrange(i as int, i + 1));
            }
            i += 1;
        }
    }
    proof {
        assert(text@.skip(n as int) =~= Seq::<char>::empty());
    }
    out
}

} // verus!
