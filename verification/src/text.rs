//! Cutting texts at a separator, and writing numbers out.

use vstd::prelude::*;
use vstd::string::StringExecFns;

verus! {

/// `k` is where the first `sep` of `s` stands, or the length of `s` when it
/// holds none.
pub open spec fn first_cut(s: Seq<char>, sep: char, k: int) -> bool {
    &&& 0 <= k <= s.len()
    &&& k < s.len() ==> s[k] == sep
    &&& forall|j: int| 0 <= j < k ==> s[j] != sep
}

/// `k` is just behind the last `sep` of `s`, or 0 when it holds none.
pub open spec fn last_cut(s: Seq<char>, sep: char, k: int) -> bool {
    &&& 0 <= k <= s.len()
    &&& k > 0 ==> s[k - 1] == sep
    &&& forall|j: int| k <= j < s.len() ==> s[j] != sep
}

/// The part of `s` in front of its first `sep`; all of `s` when it holds
/// none.
pub open spec fn before_first(s: Seq<char>, sep: char) -> Seq<char> {
    s.take(choose|k: int| first_cut(s, sep, k))
}

/// The part of `s` behind its last `sep`; all of `s` when it holds none.
pub open spec fn after_last(s: Seq<char>, sep: char) -> Seq<char> {
    s.skip(choose|k: int| last_cut(s, sep, k))
}

/// There is one first cut only.
pub proof fn lemma_first_cut(s: Seq<char>, sep: char, k: int)
    requires
        first_cut(s, sep, k),
    ensures
        before_first(s, sep) == s.take(k),
{
    let c = choose|c: int| first_cut(s, sep, c);
    if c < k {
        assert(s[c] != sep);
    } else if k < c {
        assert(s[k] != sep);
    }
}

/// There is one last cut only.
pub proof fn lemma_last_cut(s: Seq<char>, sep: char, k: int)
    requires
        last_cut(s, sep, k),
    ensures
        after_last(s, sep) == s.skip(k),
{
    let c = choose|c: int| last_cut(s, sep, c);
    if c < k {
        assert(s[k - 1] != sep);
    } else if k < c {
        assert(s[c - 1] != sep);
    }
}

/// Where the first `sep` of `s` stands, counted in characters; the length
/// of `s` when it holds none.
pub fn find_first(s: &str, sep: char) -> (k: usize)
    ensures
        first_cut(s@, sep, k as int),
{
    let n = s.unicode_len();
    let mut k: usize = 0;
    let mut open = true;
    for c in it: s.chars()
        invariant
            n == s@.len(),
            it.seq() == s@,
            open ==> k == it.index(),
            open ==> forall|j: int| 0 <= j < k ==> s@[j] != sep,
            !open ==> first_cut(s@, sep, k as int) && k < n,
    {
        if open {
            if c == sep {
                open = false;
            } else {
                k = k + 1;
            }
        }
    }
    k
}

/// Just behind the last `sep` of `s`, counted in characters; 0 when it
/// holds none.
pub fn find_last(s: &str, sep: char) -> (k: usize)
    ensures
        last_cut(s@, sep, k as int),
{
    let n = s.unicode_len();
    let mut k: usize = 0;
    let mut i: usize = 0;
    for c in it: s.chars()
        invariant
            n == s@.len(),
            it.seq() == s@,
            i == it.index(),
            last_cut(s@.take(i as int), sep, k as int),
    {
        proof {
            assert(s@.take(i + 1) =~= s@.take(i as int).push(c));
        }
        i = i + 1;
        if c == sep {
            k = i;
        }
    }
    proof {
        assert(s@.take(n as int) =~= s@);
    }
    k
}

/// Whether two texts hold the same characters.
pub fn same_text(a: &str, b: &str) -> (same: bool)
    ensures
        same == (a@ == b@),
{
    a.to_owned() == b.to_owned()
}

/// The character that stands for the digit `d`.
pub open spec fn digit(d: int) -> char {
    seq!['0', '1', '2', '3', '4', '5', '6', '7', '8', '9'][d]
}

/// `n` written in decimal, without leading zeros.
pub open spec fn decimal(n: nat) -> Seq<char>
    decreases n,
{
    if n < 10 {
        seq![digit(n as int)]
    } else {
        decimal(n / 10).push(digit((n % 10) as int))
    }
}

/// The one-character text of a digit.
fn digit_text(d: usize) -> (text: &'static str)
    requires
        d < 10,
    ensures
        text@ == seq![digit(d as int)],
{
    proof {
        reveal_strlit("0");
        reveal_strlit("1");
        reveal_strlit("2");
        reveal_strlit("3");
        reveal_strlit("4");
        reveal_strlit("5");
        reveal_strlit("6");
        reveal_strlit("7");
        reveal_strlit("8");
        reveal_strlit("9");
    }
    let text = if d == 0 {
        "0"
    } else if d == 1 {
        "1"
    } else if d == 2 {
        "2"
    } else if d == 3 {
        "3"
    } else if d == 4 {
        "4"
    } else if d == 5 {
        "5"
    } else if d == 6 {
        "6"
    } else if d == 7 {
        "7"
    } else if d == 8 {
        "8"
    } else {
        "9"
    };
    assert(text@ =~= seq![digit(d as int)]);
    text
}

/// Writes `n` in decimal behind what `out` holds.
pub fn push_decimal(out: &mut String, n: usize)
    ensures
        final(out)@ == old(out)@ + decimal(n as nat),
    decreases n,
{
    if n >= 10 {
        push_decimal(out, n / 10);
    }
    out.append(digit_text(n % 10));
    proof {
        if n >= 10 {
            assert(old(out)@ + decimal((n / 10) as nat) + seq![digit((n % 10) as int)] =~= old(
                out,
            )@ + decimal(n as nat));
        }
    }
}

} // verus!
