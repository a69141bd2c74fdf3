//! Whitespace trimming and prefix stripping for marker-file text.

use vstd::prelude::*;

verus! {

/// A character that trimming removes at the ends of marker-file text:
/// the Unicode white-space set.
pub open spec fn is_space_spec(c: char) -> bool {
    ||| c == ' '
    ||| c == '\t'
    ||| c == '\n'
    ||| c == '\r'
    ||| c == '\u{000B}'
    ||| c == '\u{000C}'
    ||| c == '\u{0085}'
    ||| c == '\u{00A0}'
    ||| c == '\u{1680}'
    ||| c == '\u{2000}'
    ||| c == '\u{2001}'
    ||| c == '\u{2002}'
    ||| c == '\u{2003}'
    ||| c == '\u{2004}'
    ||| c == '\u{2005}'
    ||| c == '\u{2006}'
    ||| c == '\u{2007}'
    ||| c == '\u{2008}'
    ||| c == '\u{2009}'
    ||| c == '\u{200A}'
    ||| c == '\u{2028}'
    ||| c == '\u{2029}'
    ||| c == '\u{202F}'
    ||| c == '\u{205F}'
    ||| c == '\u{3000}'
}

/// Decide whether `c` is removed by trimming.
pub fn is_space(c: char) -> (b: bool)
    ensures
        b == is_space_spec(c),
{
    c == ' ' || c == '\t' || c == '\n' || c == '\r' || c == '\u{000B}' || c == '\u{000C}'
        || c == '\u{0085}' || c == '\u{00A0}' || c == '\u{1680}' || c == '\u{2000}'
        || c == '\u{2001}' || c == '\u{2002}' || c == '\u{2003}' || c == '\u{2004}'
        || c == '\u{2005}' || c == '\u{2006}' || c == '\u{2007}' || c == '\u{2008}'
        || c == '\u{2009}' || c == '\u{200A}' || c == '\u{2028}' || c == '\u{2029}'
        || c == '\u{202F}' || c == '\u{205F}' || c == '\u{3000}'
}

/// `s` without its trailing white-space characters.
pub open spec fn trim_end_spec(s: Seq<char>) -> Seq<char>
    decreases s.len(),
{
    if s.len() > 0 && is_space_spec(s[s.len() - 1]) {
        trim_end_spec(s.drop_last())
    } else {
        s
    }
}

/// `s` without its leading white-space characters.
pub open spec fn trim_start_spec(s: Seq<char>) -> Seq<char>
    decreases s.len(),
{
    if s.len() > 0 && is_space_spec(s[0]) {
        trim_start_spec(s.subrange(1, s.len() as int))
    } else {
        s
    }
}

/// `s` without white space at either end.
pub open spec fn trim_spec(s: Seq<char>) -> Seq<char> {
    trim_start_spec(trim_end_spec(s))
}

/// Drop trailing white space from an owned string.
pub fn trim_in_place(string: String) -> (r: String)
    ensures
        r@ == trim_end_spec(string@),
{
    let s = string.as_str();
    let len = s.unicode_len();
    let mut end: usize = len;
    proof {
        assert(s@.subrange(0, len as int) =~= s@);
    }
    while end > 0 && is_space(s.get_char(end - 1))
        invariant
            end <= len,
            len == s@.len(),
            s@ == string@,
            trim_end_spec(s@) == trim_end_spec(s@.subrange(0, end as int)),
        decreases end,
    {
        proof {
            assert(s@.subrange(0, end as int).drop_last() =~= s@.subrange(0, end - 1));
        }
        end = end - 1;
    }
    let r = s.substring_char(0, end);
    String::from_str(r)
}

/// Drop white space from both ends of a string slice.
pub fn trim_text(s: &str) -> (r: String)
    ensures
        r@ == trim_spec(s@),
{
    let len = s.unicode_len();
    let mut end: usize = len;
    proof {
        assert(s@.subrange(0, len as int) =~= s@);
    }
    while end > 0 && is_space(s.get_char(end - 1))
        invariant
            end <= len,
            len == s@.len(),
            trim_end_spec(s@) == trim_end_spec(s@.subrange(0, end as int)),
        decreases end,
    {
        proof {
            assert(s@.subrange(0, end as int).drop_last() =~= s@.subrange(0, end - 1));
        }
        end = end - 1;
    }
    let ghost trimmed_end = s@.subrange(0, end as int);
    proof {
        assert(trim_end_spec(s@) == trimmed_end);
    }
    let mut start: usize = 0;
    while start < end && is_space(s.get_char(start))
        invariant
            start <= end <= len,
            len == s@.len(),
            trim_end_spec(s@) == trimmed_end,
            trimmed_end == s@.subrange(0, end as int),
            trim_start_spec(trimmed_end) == trim_start_spec(s@.subrange(start as int, end as int)),
        decreases end - start,
    {
        proof {
            assert(s@.subrange(start as int, end as int).subrange(
                1,
                s@.subrange(start as int, end as int).len() as int,
            ) =~= s@.subrange(start + 1, end as int));
        }
        start = start + 1;
    }
    let r = s.substring_char(start, end);
    String::from_str(r)
}

/// Trimming the end leaves no trailing white space behind.
pub proof fn lemma_trim_end_clean(s: Seq<char>)
    ensures
        trim_end_spec(s).len() > 0 ==> !is_space_spec(trim_end_spec(s).last()),
    decreases s.len(),
{
    if s.len() > 0 && is_space_spec(s[s.len() - 1]) {
        lemma_trim_end_clean(s.drop_last());
    }
}

/// Trimming the start leaves no leading white space behind.
pub proof fn lemma_trim_start_clean(s: Seq<char>)
    ensures
        trim_start_spec(s).len() > 0 ==> !is_space_spec(trim_start_spec(s)[0]),
    decreases s.len(),
{
    if s.len() > 0 && is_space_spec(s[0]) {
        lemma_trim_start_clean(s.subrange(1, s.len() as int));
    }
}

/// Trimming the start keeps the last character, when anything is left.
pub proof fn lemma_trim_start_keeps_end(s: Seq<char>)
    ensures
        trim_start_spec(s).len() > 0 ==> s.len() > 0 && trim_start_spec(s).last() == s.last(),
    decreases s.len(),
{
    if s.len() > 0 && is_space_spec(s[0]) {
        lemma_trim_start_keeps_end(s.subrange(1, s.len() as int));
    }
}

/// Trimming is idempotent: normalizing reference text a second time
/// changes nothing.
pub proof fn lemma_trim_idempotent(s: Seq<char>)
    ensures
        trim_spec(trim_spec(s)) == trim_spec(s),
{
    let v = trim_end_spec(s);
    let u = trim_start_spec(v);
    lemma_trim_end_clean(s);
    lemma_trim_start_keeps_end(v);
    lemma_trim_start_clean(v);
    assert(trim_end_spec(u) == u);
    assert(trim_start_spec(u) == u);
}

/// Whether `p` is an initial segment of `s`.
pub open spec fn has_prefix(s: Seq<char>, p: Seq<char>) -> bool {
    p.len() <= s.len() && s.subrange(0, p.len() as int) == p
}

/// The part of `s` after the prefix `p`, when `s` starts with `p`.
pub fn strip_prefix(s: &str, p: &str) -> (r: Option<String>)
    ensures
        r is Some <==> has_prefix(s@, p@),
        r matches Some(t) ==> t@ == s@.subrange(p@.len() as int, s@.len() as int),
{
    let sl = s.unicode_len();
    let pl = p.unicode_len();
    if pl > sl {
        return None;
    }
    let mut i: usize = 0;
    while i < pl
        invariant
            i <= pl <= sl,
            sl == s@.len(),
            pl == p@.len(),
            forall|j: int| 0 <= j < i ==> s@[j] == p@[j],
        decreases pl - i,
    {
        if s.get_char(i) != p.get_char(i) {
            proof {
                assert(s@.subrange(0, pl as int)[i as int] != p@[i as int]);
            }
            return None;
        }
        i = i + 1;
    }
    proof {
        assert(s@.subrange(0, pl as int) =~= p@);
    }
    Some(String::from_str(s.substring_char(pl, sl)))
}

} // verus!
