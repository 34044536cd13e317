//! Text building blocks of a report: decimal numbers, and the
//! character classes that the output laws speak of.
use vstd::prelude::*;

verus! {

/// Every character of `s` is ASCII where `ascii` is asked for, and none is `<`
/// where `no_lt` is asked for.
pub open spec fn fine(s: Seq<char>, ascii: bool, no_lt: bool) -> bool {
    forall|i: int|
        0 <= i < s.len() ==> (ascii ==> (#[trigger] s[i] as u32) < 128) && (no_lt ==> s[i]
            != '<')
}

pub broadcast proof fn lemma_fine_concat(a: Seq<char>, b: Seq<char>, ascii: bool, no_lt: bool)
    ensures
        #[trigger] fine(a + b, ascii, no_lt) == (fine(a, ascii, no_lt) && fine(b, ascii, no_lt)),
{
    if fine(a, ascii, no_lt) && fine(b, ascii, no_lt) {
        assert forall|i: int| 0 <= i < (a + b).len() implies (ascii ==> (#[trigger] (a
            + b)[i] as u32) < 128) && (no_lt ==> (a + b)[i] != '<') by {
            if i < a.len() {
                assert((a + b)[i] == a[i]);
            } else {
                assert((a + b)[i] == b[i - a.len()]);
            }
        }
    }
    if fine(a + b, ascii, no_lt) {
        assert forall|i: int| 0 <= i < a.len() implies (ascii ==> (#[trigger] a[i] as u32) < 128)
            && (no_lt ==> a[i] != '<') by {
            assert((a + b)[i] == a[i]);
        }
        assert forall|i: int| 0 <= i < b.len() implies (ascii ==> (#[trigger] b[i] as u32) < 128)
            && (no_lt ==> b[i] != '<') by {
            assert((a + b)[i + a.len()] == b[i]);
        }
    }
}

/// What holds of every character under the stronger flags holds under weaker ones.
pub broadcast proof fn lemma_fine_weaken(s: Seq<char>, ascii: bool, no_lt: bool)
    requires
        fine(s, true, true),
    ensures
        #[trigger] fine(s, ascii, no_lt),
{
}

/// `s` holds `t` at some position.
pub open spec fn contains(s: Seq<char>, t: Seq<char>) -> bool {
    exists|i: int| 0 <= i && i + t.len() <= s.len() && #[trigger] s.subrange(i, i + t.len()) == t
}

pub proof fn lemma_contains_left(a: Seq<char>, s: Seq<char>, t: Seq<char>)
    requires
        contains(s, t),
    ensures
        contains(a + s, t),
{
    let i = choose|i: int|
        0 <= i && i + t.len() <= s.len() && #[trigger] s.subrange(i, i + t.len()) == t;
    let j = i + a.len();
    assert((a + s).subrange(j, j + t.len()) =~= s.subrange(i, i + t.len()));
}

pub proof fn lemma_contains_right(s: Seq<char>, b: Seq<char>, t: Seq<char>)
    requires
        contains(s, t),
    ensures
        contains(s + b, t),
{
    let i = choose|i: int|
        0 <= i && i + t.len() <= s.len() && #[trigger] s.subrange(i, i + t.len()) == t;
    assert((s + b).subrange(i, i + t.len()) =~= s.subrange(i, i + t.len()));
}

/// The decimal digit of `d`.
pub open spec fn digit(d: nat) -> char {
    if d == 0 {
        '0'
    } else if d == 1 {
        '1'
    } else if d == 2 {
        '2'
    } else if d == 3 {
        '3'
    } else if d == 4 {
        '4'
    } else if d == 5 {
        '5'
    } else if d == 6 {
        '6'
    } else if d == 7 {
        '7'
    } else if d == 8 {
        '8'
    } else {
        '9'
    }
}

/// `n` in decimal, without leading zeros.
pub open spec fn decimal(n: nat) -> Seq<char>
    decreases n,
{
    if n < 10 {
        seq![digit(n)]
    } else {
        decimal(n / 10).push(digit(n % 10))
    }
}

/// `n` in decimal, with a leading `-` where it is negative.
pub open spec fn signed_decimal(n: int) -> Seq<char> {
    if n < 0 {
        seq!['-'] + decimal((-n) as nat)
    } else {
        decimal(n as nat)
    }
}

pub proof fn lemma_decimal_fine(n: nat)
    ensures
        fine(decimal(n), true, true),
    decreases n,
{
    if n >= 10 {
        lemma_decimal_fine(n / 10);
        lemma_fine_concat(decimal(n / 10), seq![digit(n % 10)], true, true);
        assert(decimal(n / 10).push(digit(n % 10)) == decimal(n / 10) + seq![digit(n % 10)]);
    }
}

pub proof fn lemma_signed_decimal_fine(n: int)
    ensures
        fine(signed_decimal(n), true, true),
{
    if n < 0 {
        lemma_decimal_fine((-n) as nat);
        lemma_fine_concat(seq!['-'], decimal((-n) as nat), true, true);
    } else {
        lemma_decimal_fine(n as nat);
    }
}

fn digit_text(d: u64) -> (r: &'static str)
    requires
        d < 10,
    ensures
        r@ == seq![digit(d as nat)],
{
    proof {
        reveal_strlit("0");
        reveal_strlit("1");
        reveal_strlit("2");
        reveal_strlit("3");
        reveal_strlit("4");
        reveal_strlit("5");
        reveal_strlit("6");
        reveal_strlit("7");
        reveal_strlit("8");
        reveal_strlit("9");
    }
    if d == 0 {
        "0"
    } else if d == 1 {
        "1"
    } else if d == 2 {
        "2"
    } else if d == 3 {
        "3"
    } else if d == 4 {
        "4"
    } else if d == 5 {
        "5"
    } else if d == 6 {
        "6"
    } else if d == 7 {
        "7"
    } else if d == 8 {
        "8"
    } else {
        "9"
    }
}

/// Appends `n` in decimal.
pub fn push_decimal(out: &mut String, n: u64)
    ensures
        final(out)@ == old(out)@ + decimal(n as nat),
    decreases n,
{
    if n >= 10 {
        push_decimal(out, n / 10);
    }
    out.append(digit_text(n % 10));
    assert(decimal(n as nat) =~= if n < 10 {
        seq![digit(n as nat)]
    } else {
        decimal((n / 10) as nat).push(digit((n % 10) as nat))
    });
}

/// Appends `n` in decimal, with a leading `-` where it is negative.
pub fn push_signed_decimal(out: &mut String, n: i64)
    ensures
        final(out)@ == old(out)@ + signed_decimal(n as int),
{
    if n < 0 {
        proof {
            reveal_strlit("-");
        }
        out.append("-");
        let m: u64 = (-(n as i128)) as u64;
        push_decimal(out, m);
        assert(old(out)@ + seq!['-'] + decimal(m as nat) =~= old(out)@ + signed_decimal(n as int));
    } else {
        push_decimal(out, n as u64);
    }
}

} // verus!
