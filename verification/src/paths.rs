//! Verified helpers for the path strings the cache works with: rendering a
//! numeric user id in decimal, and extracting the file-name component of a
//! slash-separated path.

use vstd::prelude::*;
use vstd::string::StringExecFns;
use vstd::string::StrSliceExecFns;

verus! {

broadcast use vstd::string::group_string_axioms;

/// The decimal digit character for `d`; meaningful for `d < 10`.
pub open spec fn digit_char(d: nat) -> char {
    if d == 0 {
        '0'
    } else if d == 1 {
        '1'
    } else if d == 2 {
        '2'
    } else if d == 3 {
        '3'
    } else if d == 4 {
        '4'
    } else if d == 5 {
        '5'
    } else if d == 6 {
        '6'
    } else if d == 7 {
        '7'
    } else if d == 8 {
        '8'
    } else {
        '9'
    }
}

/// The decimal rendering of `n`, most significant digit first, no sign and no
/// leading zero (except for `n == 0` itself).
pub open spec fn dec_seq(n: nat) -> Seq<char>
    decreases n,
{
    if n < 10 {
        seq![digit_char(n)]
    } else {
        dec_seq(n / 10).push(digit_char(n % 10))
    }
}

pub proof fn lemma_dec_seq_len(n: nat)
    ensures
        dec_seq(n).len() >= 1,
    decreases n,
{
    if n >= 10 {
        lemma_dec_seq_len(n / 10);
    }
}

/// A decimal rendering never contains a path separator.
pub proof fn lemma_dec_seq_no_slash(n: nat)
    ensures
        forall|i: int| 0 <= i < dec_seq(n).len() ==> dec_seq(n)[i] != '/',
    decreases n,
{
    if n < 10 {
        assert(dec_seq(n)[0] == digit_char(n));
    } else {
        lemma_dec_seq_no_slash(n / 10);
        let la = dec_seq(n / 10);
        assert forall|i: int| 0 <= i < dec_seq(n).len() implies dec_seq(n)[i] != '/' by {
            if i < la.len() {
                assert(dec_seq(n)[i] == la[i]);
            } else {
                assert(dec_seq(n)[i] == digit_char(n % 10));
            }
        }
    }
}

proof fn lemma_digit_char_injective(x: nat, y: nat)
    requires
        x < 10,
        y < 10,
        digit_char(x) == digit_char(y),
    ensures
        x == y,
{
}

/// Distinct numbers render as distinct decimal strings.
pub proof fn lemma_dec_seq_injective(a: nat, b: nat)
    requires
        dec_seq(a) == dec_seq(b),
    ensures
        a == b,
    decreases a,
{
    if a < 10 && b < 10 {
        assert(dec_seq(a)[0] == digit_char(a));
        assert(dec_seq(b)[0] == digit_char(b));
        lemma_digit_char_injective(a, b);
    } else if a < 10 {
        lemma_dec_seq_len(b / 10);
        assert(dec_seq(b).len() >= 2);
        assert(dec_seq(a).len() == 1);
    } else if b < 10 {
        lemma_dec_seq_len(a / 10);
        assert(dec_seq(a).len() >= 2);
        assert(dec_seq(b).len() == 1);
    } else {
        let la = dec_seq(a / 10);
        let lb = dec_seq(b / 10);
        assert(dec_seq(a).len() == la.len() + 1);
        assert(dec_seq(b).len() == lb.len() + 1);
        assert(la.len() == lb.len());
        assert(dec_seq(a)[la.len() as int] == digit_char(a % 10));
        assert(dec_seq(b)[lb.len() as int] == digit_char(b % 10));
        lemma_digit_char_injective(a % 10, b % 10);
        assert(la =~= lb) by {
            assert forall|i: int| 0 <= i < la.len() implies la[i] == lb[i] by {
                assert(dec_seq(a)[i] == la[i]);
                assert(dec_seq(b)[i] == lb[i]);
            }
        }
        lemma_dec_seq_injective(a / 10, b / 10);
        vstd::arithmetic::div_mod::lemma_fundamental_div_mod(a as int, 10);
        vstd::arithmetic::div_mod::lemma_fundamental_div_mod(b as int, 10);
    }
}

fn push_digit(s: &mut String, d: u32)
    requires
        d < 10,
    ensures
        final(s)@ == old(s)@.push(digit_char(d as nat)),
{
    let t: &str = if d == 0 {
        "0"
    } else if d == 1 {
        "1"
    } else if d == 2 {
        "2"
    } else if d == 3 {
        "3"
    } else if d == 4 {
        "4"
    } else if d == 5 {
        "5"
    } else if d == 6 {
        "6"
    } else if d == 7 {
        "7"
    } else if d == 8 {
        "8"
    } else {
        "9"
    };
    proof {
        reveal_strlit("0");
        reveal_strlit("1");
        reveal_strlit("2");
        reveal_strlit("3");
        reveal_strlit("4");
        reveal_strlit("5");
        reveal_strlit("6");
        reveal_strlit("7");
        reveal_strlit("8");
        reveal_strlit("9");
        assert(t@ =~= seq![digit_char(d as nat)]);
    }
    s.append(t);
    proof {
        assert(s@ =~= old(s)@.push(digit_char(d as nat)));
    }
}

fn push_dec(s: &mut String, n: u32)
    ensures
        final(s)@ == old(s)@ + dec_seq(n as nat),
    decreases n,
{
    if n >= 10 {
        push_dec(s, n / 10);
    }
    push_digit(s, n % 10);
    proof {
        if n < 10 {
            assert(s@ =~= old(s)@ + dec_seq(n as nat));
        } else {
            assert(dec_seq(n as nat) == dec_seq(n as nat / 10).push(digit_char(n as nat % 10)));
            assert(s@ =~= old(s)@ + dec_seq(n as nat));
        }
    }
}

/// The decimal rendering of `n` as a string.
pub fn u32_to_dec(n: u32) -> (s: String)
    ensures
        s@ == dec_seq(n as nat),
{
    let mut s = String::new();
    push_dec(&mut s, n);
    proof {
        assert(s@ =~= dec_seq(n as nat));
    }
    s
}

/// Index where the file-name component of `s` begins: right after the last
/// `'/'`, or 0 when there is none.
pub open spec fn base_start(s: Seq<char>) -> int
    decreases s.len(),
{
    if s.len() == 0 {
        0
    } else if s.last() == '/' {
        s.len() as int
    } else {
        base_start(s.drop_last())
    }
}

pub proof fn lemma_base_start_bounds(s: Seq<char>)
    ensures
        0 <= base_start(s) <= s.len(),
    decreases s.len(),
{
    if s.len() > 0 && s.last() != '/' {
        lemma_base_start_bounds(s.drop_last());
    }
}

/// Length of `s` once trailing separators and trailing `.` components are
/// dropped — the part of a path its components are read from (`a/b/`, `a/b/.`
/// and `a/b` all name the same entry).
pub open spec fn trimmed_len(s: Seq<char>) -> int
    decreases s.len(),
{
    if s.len() >= 1 && s.last() == '/' {
        trimmed_len(s.drop_last())
    } else if s.len() >= 2 && s.last() == '.' && s[s.len() - 2] == '/' {
        trimmed_len(s.take(s.len() - 2))
    } else if s.len() == 1 && s.last() == '.' {
        0
    } else {
        s.len() as int
    }
}

pub proof fn lemma_trimmed_len_bounds(s: Seq<char>)
    ensures
        0 <= trimmed_len(s) <= s.len(),
    decreases s.len(),
{
    if s.len() >= 1 && s.last() == '/' {
        lemma_trimmed_len_bounds(s.drop_last());
    } else if s.len() >= 2 && s.last() == '.' && s[s.len() - 2] == '/' {
        lemma_trimmed_len_bounds(s.take(s.len() - 2));
    }
}

/// The file-name component of a slash-separated path: the text after the last
/// `'/'`, once trailing separators and trailing `.` components are dropped. A
/// path whose final component is empty or `..` has none.
pub open spec fn base_name_spec(s: Seq<char>) -> Option<Seq<char>> {
    let t = s.take(trimmed_len(s));
    let tail = t.subrange(base_start(t), t.len() as int);
    if tail.len() == 0 || tail == seq!['.', '.'] {
        None
    } else {
        Some(tail)
    }
}

/// The file-name component of `path`, if it has one.
pub fn base_name(path: &str) -> (r: Option<String>)
    ensures
        r is Some <==> base_name_spec(path@) is Some,
        r matches Some(n) ==> base_name_spec(path@) == Some(n@),
{
    let full = path.unicode_len();
    let mut len = full;
    let mut again = true;
    proof {
        assert(path@.take(full as int) =~= path@);
    }
    while again
        invariant
            len <= full,
            full == path@.len(),
            trimmed_len(path@) == trimmed_len(path@.take(len as int)),
            !again ==> trimmed_len(path@.take(len as int)) == len,
        decreases len + (if again {
            1int
        } else {
            0int
        }),
    {
        let ghost t = path@.take(len as int);
        if len >= 1 && path.get_char(len - 1) == '/' {
            len = len - 1;
            proof {
                assert(t.last() == path@[len as int]);
                assert(t.drop_last() =~= path@.take(len as int));
            }
        } else if len >= 2 && path.get_char(len - 1) == '.' && path.get_char(len - 2) == '/' {
            len = len - 2;
            proof {
                assert(t.last() == path@[len as int + 1]);
                assert(t[t.len() - 2] == path@[len as int]);
                assert(t.take(t.len() - 2) =~= path@.take(len as int));
            }
        } else if len == 1 && path.get_char(0) == '.' {
            len = 0;
            proof {
                assert(t.last() == path@[0]);
                assert(trimmed_len(t) == 0);
                assert(path@.take(0) =~= Seq::<char>::empty());
            }
        } else {
            again = false;
            proof {
                assert(trimmed_len(t) == len);
            }
        }
    }
    let ghost t = path@.take(len as int);
    let mut start: usize = 0;
    let mut i: usize = 0;
    proof {
        assert(t.take(0) =~= Seq::<char>::empty());
    }
    while i < len
        invariant
            i <= len,
            len <= full,
            full == path@.len(),
            t == path@.take(len as int),
            start == base_start(t.take(i as int)),
            start <= i,
        decreases len - i,
    {
        let c = path.get_char(i);
        proof {
            assert(t[i as int] == path@[i as int]);
        }
        if c == '/' {
            start = i + 1;
        }
        i = i + 1;
        proof {
            let pre = t.take(i as int);
            assert(pre.drop_last() =~= t.take(i as int - 1));
            assert(pre.last() == t[i as int - 1]);
        }
    }
    proof {
        assert(t.take(len as int) =~= t);
        lemma_base_start_bounds(t);
    }
    let tail = path.substring_char(start, len);
    proof {
        assert(tail@ =~= t.subrange(base_start(t), t.len() as int));
    }
    let tlen = tail.unicode_len();
    if tlen == 0 {
        return None;
    }
    if tlen == 2 && tail.get_char(0) == '.' && tail.get_char(1) == '.' {
        proof {
            assert(tail@ =~= seq!['.', '.']);
        }
        return None;
    }
    proof {
        assert(tail@ != seq!['.', '.']);
    }
    Some(String::from_str(tail))
}

/// If one string is another with anything appended after a separator that the
/// first part never contains, the parts on both sides agree.
pub proof fn lemma_split_at_sep(a1: Seq<char>, b1: Seq<char>, a2: Seq<char>, b2: Seq<char>, sep: char)
    requires
        forall|i: int| 0 <= i < a1.len() ==> a1[i] != sep,
        forall|i: int| 0 <= i < a2.len() ==> a2[i] != sep,
        a1 + seq![sep] + b1 == a2 + seq![sep] + b2,
    ensures
        a1 == a2,
        b1 == b2,
{
    let s1 = a1 + seq![sep] + b1;
    let s2 = a2 + seq![sep] + b2;
    if a1.len() < a2.len() {
        assert(s1[a1.len() as int] == sep);
        assert(s2[a1.len() as int] == a2[a1.len() as int]);
        assert(false);
    }
    if a2.len() < a1.len() {
        assert(s2[a2.len() as int] == sep);
        assert(s1[a2.len() as int] == a1[a2.len() as int]);
        assert(false);
    }
    assert(a1 =~= a2) by {
        assert(forall|i: int| 0 <= i < a1.len() ==> a1[i] == s1[i] && a2[i] == s2[i]);
    }
    assert(b1 =~= b2) by {
        assert(s1.len() == s2.len());
        assert(forall|i: int|
            0 <= i < b1.len() ==> b1[i] == s1[a1.len() + 1 + i] && b2[i] == s2[a2.len() + 1 + i]);
    }
}

/// Concatenation after a fixed prefix is injective in the suffix.
pub proof fn lemma_concat_cancel_left(a: Seq<char>, x: Seq<char>, y: Seq<char>)
    requires
        a + x == a + y,
    ensures
        x == y,
{
    assert((a + x).len() == a.len() + x.len());
    assert((a + y).len() == a.len() + y.len());
    assert(x.len() == y.len());
    assert forall|i: int| 0 <= i < x.len() implies x[i] == y[i] by {
        assert((a + x)[a.len() + i] == x[i]);
        assert((a + y)[a.len() + i] == y[i]);
    }
    assert(x =~= y);
}

} // verus!
