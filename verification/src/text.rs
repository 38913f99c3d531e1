//! Text handling for the output of the version-control engine: trimming the
//! trailing newline from captured output and normalizing directory paths.

use vstd::prelude::*;

verus! {

/// True when the character is trailing whitespace that the version-control
/// engine appends to its textual output.
pub open spec fn is_trailing_ws(c: char) -> bool {
    c == '\n' || c == '\r' || c == ' ' || c == '\t'
}

/// The string with all trailing whitespace removed.
pub open spec fn trim_end_spec(s: Seq<char>) -> Seq<char>
    decreases s.len(),
{
    if s.len() > 0 && is_trailing_ws(s[s.len() - 1]) {
        trim_end_spec(s.drop_last())
    } else {
        s
    }
}

/// The path with trailing separators removed; a bare root separator stays.
pub open spec fn normalize_spec(s: Seq<char>) -> Seq<char>
    decreases s.len(),
{
    if s.len() > 1 && s[s.len() - 1] == '/' {
        normalize_spec(s.drop_last())
    } else {
        s
    }
}

fn is_trailing_ws_char(c: char) -> (b: bool)
    ensures
        b == is_trailing_ws(c),
{
    c == '\n' || c == '\r' || c == ' ' || c == '\t'
}

/// Remove all trailing whitespace from a string.
pub fn trim_end(s: &str) -> (r: String)
    ensures
        r@ == trim_end_spec(s@),
{
    let len = s.unicode_len();
    let mut n = len;
    proof {
        assert(s@.subrange(0, len as int) =~= s@);
    }
    while n > 0 && is_trailing_ws_char(s.get_char(n - 1))
        invariant
            n <= len,
            len == s@.len(),
            forall|i: int| n <= i < len ==> is_trailing_ws(s@[i]),
            trim_end_spec(s@) == trim_end_spec(s@.subrange(0, n as int)),
        decreases n,
    {
        proof {
            assert(s@.subrange(0, n as int).drop_last() =~= s@.subrange(0, n as int - 1));
        }
        n -= 1;
    }
    proof {
        assert(s@.subrange(0, len as int) =~= s@);
        assert(trim_end_spec(s@.subrange(0, n as int)) == s@.subrange(0, n as int));
    }
    let r = s.substring_char(0, n);
    String::from_str(r)
}

/// Remove trailing path separators, keeping a bare root separator.
pub fn normalize_path(s: &str) -> (r: String)
    ensures
        r@ == normalize_spec(s@),
{
    let len = s.unicode_len();
    let mut n = len;
    proof {
        assert(s@.subrange(0, len as int) =~= s@);
    }
    while n > 1 && s.get_char(n - 1) == '/'
        invariant
            n <= len,
            len == s@.len(),
            forall|i: int| n <= i < len ==> s@[i] == '/',
            n < len ==> n >= 1,
            normalize_spec(s@) == normalize_spec(s@.subrange(0, n as int)),
        decreases n,
    {
        proof {
            assert(s@.subrange(0, n as int).drop_last() =~= s@.subrange(0, n as int - 1));
        }
        n -= 1;
    }
    proof {
        assert(s@.subrange(0, len as int) =~= s@);
        assert(normalize_spec(s@.subrange(0, n as int)) == s@.subrange(0, n as int));
    }
    let r = s.substring_char(0, n);
    String::from_str(r)
}

} // verus!
