//! Text canonicalisation used by the check-mode file comparison.
//!
//! Check mode must ignore line-ending differences between the freshly
//! rendered output and what is on disk: a "\r\n" pair counts as "\n", and a
//! single trailing newline is not significant.

use vstd::prelude::*;

verus! {

use vstd::string::StrSliceExecFns;
use vstd::string::StringExecFns;

/// One pass over the text: every "\r\n" pair becomes "\n"; every other
/// character is kept as it is.
pub open spec fn strip_crlf(s: Seq<char>) -> Seq<char>
    decreases s.len(),
{
    if s.len() == 0 {
        Seq::empty()
    } else if s.len() >= 2 && s[0] == '\r' && s[1] == '\n' {
        seq!['\n'] + strip_crlf(s.skip(2))
    } else {
        seq![s[0]] + strip_crlf(s.skip(1))
    }
}

/// The canonical form of a piece of text for comparison purposes:
/// "\r\n" collapsed to "\n", and one trailing newline dropped.
pub open spec fn normalized(s: Seq<char>) -> Seq<char> {
    let t = strip_crlf(s);
    if t.len() > 0 && t.last() == '\n' {
        t.drop_last()
    } else {
        t
    }
}

fn strip_crlf_exec(s: &str) -> (r: String)
    ensures
        r@ == strip_crlf(s@),
{
    let n: usize = s.unicode_len();
    let mut out = String::new();
    let mut i: usize = 0;
    proof {
        assert(s@.skip(0) =~= s@);
        assert(out@ + strip_crlf(s@) =~= strip_crlf(s@));
    }
    while i < n
        invariant
            i <= n,
            n == s@.len(),
            out@ + strip_crlf(s@.skip(i as int)) == strip_crlf(s@),
        decreases n - i,
    {
        proof {
            assert(s@.skip(i as int).len() == n - i);
            assert(s@.skip(i as int)[0] == s@[i as int]);
        }
        if s.get_char(i) == '\r' && i + 1 < n && s.get_char(i + 1) == '\n' {
            proof {
                reveal_strlit("\n");
                assert(s@.skip(i as int)[1] == s@[i as int + 1]);
                assert(s@.skip(i as int).skip(2) =~= s@.skip(i as int + 2));
                assert("\n"@ =~= seq!['\n']);
                assert((out@ + "\n"@) + strip_crlf(s@.skip(i as int + 2)) =~= out@ + (seq![
                    '\n',
                ] + strip_crlf(s@.skip(i as int + 2))));
            }
            out.append("\n");
            i = i + 2;
        } else {
            let piece = s.substring_char(i, i + 1);
            proof {
                assert(piece@ =~= seq![s@[i as int]]);
                assert(s@.skip(i as int).skip(1) =~= s@.skip(i as int + 1));
                assert((out@ + piece@) + strip_crlf(s@.skip(i as int + 1)) =~= out@ + (seq![
                    s@[i as int],
                ] + strip_crlf(s@.skip(i as int + 1))));
            }
            out.append(piece);
            i = i + 1;
        }
    }
    proof {
        assert(s@.skip(n as int) =~= Seq::empty());
        assert(out@ + strip_crlf(Seq::empty()) =~= out@);
    }
    out
}

/// Builds the canonical form of `s` as a fresh string.
pub fn normalize(s: &str) -> (r: String)
    ensures
        r@ == normalized(s@),
{
    let t = strip_crlf_exec(s);
    let n: usize = t.as_str().unicode_len();
    if n > 0 && t.as_str().get_char(n - 1) == '\n' {
        let u = t.as_str().substring_char(0, n - 1);
        proof {
            assert(t@.subrange(0, n as int - 1) =~= t@.drop_last());
        }
        u.to_owned()
    } else {
        t
    }
}

/// True exactly when the two texts agree up to line endings and one
/// trailing newline.
pub fn norm_eq(a: &str, b: &str) -> (r: bool)
    ensures
        r == (normalized(a@) == normalized(b@)),
{
    let na = normalize(a);
    let nb = normalize(b);
    na == nb
}

} // verus!
