//! Small verified text helpers: equality, decimal rendering, and splitting a
//! file name into stem and extension.

use vstd::prelude::*;

verus! {

/// Character-for-character string equality.
pub fn str_eq(a: &str, b: &str) -> (r: bool)
    ensures
        r == (a@ == b@),
{
    let alen = a.unicode_len();
    let blen = b.unicode_len();
    if alen != blen {
        assert(a@ != b@) by {
            assert(a@.len() != b@.len());
        }
        return false;
    }
    let mut i: usize = 0;
    while i < alen
        invariant
            alen == a@.len(),
            alen == b@.len(),
            0 <= i <= alen,
            forall|j: int| 0 <= j < i ==> a@[j] == b@[j],
        decreases alen - i,
    {
        if a.get_char(i) != b.get_char(i) {
            return false;
        }
        i = i + 1;
    }
    proof {
        assert(a@ =~= b@);
    }
    true
}

/// The character for one decimal digit.
pub open spec fn digit_char(d: nat) -> char {
    if d == 0 {
        '0'
    } else if d == 1 {
        '1'
    } else if d == 2 {
        '2'
    } else if d == 3 {
        '3'
    } else if d == 4 {
        '4'
    } else if d == 5 {
        '5'
    } else if d == 6 {
        '6'
    } else if d == 7 {
        '7'
    } else if d == 8 {
        '8'
    } else {
        '9'
    }
}

/// The decimal rendering of `n`, most significant digit first, no leading
/// zeroes (except for `0` itself).
pub open spec fn dec_rep(n: nat) -> Seq<char>
    decreases n,
{
    if n < 10 {
        seq![digit_char(n)]
    } else {
        dec_rep(n / 10) + seq![digit_char(n % 10)]
    }
}

/// Appends one decimal digit.
fn push_digit(d: u64, out: &mut String)
    requires
        d < 10,
    ensures
        final(out)@ == old(out)@ + seq![digit_char(d as nat)],
{
    proof {
        reveal_strlit("0");
        reveal_strlit("1");
        reveal_strlit("2");
        reveal_strlit("3");
        reveal_strlit("4");
        reveal_strlit("5");
        reveal_strlit("6");
        reveal_strlit("7");
        reveal_strlit("8");
        reveal_strlit("9");
    }
    if d == 0 {
        out.append("0");
        proof {
            assert(final(out)@ =~= old(out)@ + seq![digit_char(d as nat)]);
        }
    } else if d == 1 {
        out.append("1");
        proof {
            assert(final(out)@ =~= old(out)@ + seq![digit_char(d as nat)]);
        }
    } else if d == 2 {
        out.append("2");
        proof {
            assert(final(out)@ =~= old(out)@ + seq![digit_char(d as nat)]);
        }
    } else if d == 3 {
        out.append("3");
        proof {
            assert(final(out)@ =~= old(out)@ + seq![digit_char(d as nat)]);
        }
    } else if d == 4 {
        out.append("4");
        proof {
            assert(final(out)@ =~= old(out)@ + seq![digit_char(d as nat)]);
        }
    } else if d == 5 {
        out.append("5");
        proof {
            assert(final(out)@ =~= old(out)@ + seq![digit_char(d as nat)]);
        }
    } else if d == 6 {
        out.append("6");
        proof {
            assert(final(out)@ =~= old(out)@ + seq![digit_char(d as nat)]);
        }
    } else if d == 7 {
        out.append("7");
        proof {
            assert(final(out)@ =~= old(out)@ + seq![digit_char(d as nat)]);
        }
    } else if d == 8 {
        out.append("8");
        proof {
            assert(final(out)@ =~= old(out)@ + seq![digit_char(d as nat)]);
        }
    } else {
        out.append("9");
        proof {
            assert(final(out)@ =~= old(out)@ + seq![digit_char(d as nat)]);
        }
    }
}

/// Appends the decimal rendering of `n`.
pub fn push_dec(n: u64, out: &mut String)
    ensures
        final(out)@ == old(out)@ + dec_rep(n as nat),
    decreases n,
{
    if n < 10 {
        push_digit(n, out);
    } else {
        push_dec(n / 10, out);
        push_digit(n % 10, out);
        proof {
            assert((old(out)@ + dec_rep((n / 10) as nat)) + seq![digit_char((n % 10) as nat)]
                =~= old(out)@ + dec_rep(n as nat));
        }
    }
}

/// The index of the last `.` of `s` that does not open the name, or `-1`:
/// a leading dot marks a hidden file, not an extension.
pub open spec fn last_dot_index(s: Seq<char>) -> int
    decreases s.len(),
{
    if s.len() <= 1 {
        -1
    } else if s[s.len() - 1] == '.' {
        s.len() - 1
    } else {
        last_dot_index(s.take(s.len() - 1))
    }
}

/// The file name without its extension.
pub open spec fn stem_of(s: Seq<char>) -> Seq<char> {
    if last_dot_index(s) == -1 {
        s
    } else {
        s.take(last_dot_index(s))
    }
}

/// The extension, without its dot, if the name has one.
pub open spec fn ext_of(s: Seq<char>) -> Option<Seq<char>> {
    if last_dot_index(s) == -1 {
        None
    } else {
        Some(s.skip(last_dot_index(s) + 1))
    }
}

/// `last_dot_index` is exactly the last qualifying dot: given a dot at `j`
/// (or `j == -1`) with no dot after it, the search lands on `j`.
proof fn lemma_last_dot_index(s: Seq<char>, j: int)
    requires
        j == -1 || 1 <= j < s.len(),
        j >= 1 ==> s[j] == '.',
        forall|k: int| if j < 0 { 1 } else { j + 1 } <= k < s.len() ==> s[k] != '.',
    ensures
        last_dot_index(s) == j,
    decreases s.len(),
{
    if s.len() <= 1 {
    } else if s[s.len() - 1] == '.' {
        assert(j == s.len() - 1);
    } else {
        let t = s.take(s.len() - 1);
        assert(j < s.len() - 1);
        lemma_last_dot_index(t, j);
    }
}

/// Splits a file name into its stem and its extension.
pub fn split_name(name: &str) -> (r: (String, Option<String>))
    ensures
        r.0@ == stem_of(name@),
        match r.1 {
            Some(e) => ext_of(name@) == Some(e@),
            None => ext_of(name@) is None,
        },
{
    let len = name.unicode_len();
    let mut dot: usize = 0;
    let mut k: usize = 1;
    while k < len
        invariant
            1 <= k <= len || (len <= 1 && k == 1),
            len == name@.len(),
            dot == 0 || (1 <= dot < k && name@[dot as int] == '.'),
            forall|t: int| (if dot == 0 { 1 } else { dot + 1 }) <= t < k ==> name@[t] != '.',
        decreases len - k,
    {
        if name.get_char(k) == '.' {
            dot = k;
        }
        k = k + 1;
    }
    if dot == 0 {
        proof {
            lemma_last_dot_index(name@, -1);
        }
        (String::from_str(name), None)
    } else {
        proof {
            lemma_last_dot_index(name@, dot as int);
        }
        let stem = name.substring_char(0, dot);
        let ext = name.substring_char(dot + 1, len);
        proof {
            assert(name@.subrange(0, dot as int) =~= name@.take(dot as int));
            assert(name@.subrange(dot + 1, len as int) =~= name@.skip(dot + 1));
        }
        (String::from_str(stem), Some(String::from_str(ext)))
    }
}

} // verus!
