use vstd::prelude::*;

use super::clock::{minute_of, DayClock};

verus! {

/// The decimal digit character for `d` (0 through 9).
pub open spec fn digit_char(d: nat) -> char {
    if d == 0 {
        '0'
    } else if d == 1 {
        '1'
    } else if d == 2 {
        '2'
    } else if d == 3 {
        '3'
    } else if d == 4 {
        '4'
    } else if d == 5 {
        '5'
    } else if d == 6 {
        '6'
    } else if d == 7 {
        '7'
    } else if d == 8 {
        '8'
    } else {
        '9'
    }
}

/// `n` written in decimal, without leading zeros (as `n.to_string()` writes it).
pub open spec fn decimal(n: nat) -> Seq<char>
    decreases n,
{
    if n < 10 {
        seq![digit_char(n)]
    } else {
        decimal(n / 10).push(digit_char(n % 10))
    }
}

/// `n` in decimal, zero-padded to at least two digits (`{:02}`).
pub open spec fn two_digits(n: nat) -> Seq<char> {
    if n < 10 {
        seq!['0', digit_char(n)]
    } else {
        decimal(n)
    }
}

/// `HH:MM`, each part zero-padded to at least two digits.
pub open spec fn stamp_text(hour: nat, minute: nat) -> Seq<char> {
    two_digits(hour) + seq![':'] + two_digits(minute)
}

/// Every non-overlapping occurrence of `pat` in `s`, scanned left to right,
/// replaced by `rep` -- what `str::replace` does for a non-empty pattern.
pub open spec fn replace_all(s: Seq<char>, pat: Seq<char>, rep: Seq<char>) -> Seq<char>
    decreases s.len(),
{
    if pat.len() == 0 || s.len() < pat.len() {
        s
    } else if s.subrange(0, pat.len() as int) == pat {
        rep + replace_all(s.subrange(pat.len() as int, s.len() as int), pat, rep)
    } else {
        seq![s[0]] + replace_all(s.subrange(1, s.len() as int), pat, rep)
    }
}

/// The baker's writing habit: normal 焼成室 lines round the shared clock's
/// true minute down to the nearest even value. A presentation-layer rounding
/// on top of one real clock, not a property of the clock itself -- an odd
/// minute surviving this rounding is what makes a deviation line legible as a
/// deviation.
pub fn even_minute_of(clock: DayClock) -> (res: u32)
    ensures
        res == minute_of(clock@) - minute_of(clock@) % 2,
        res % 2 == 0,
        res <= minute_of(clock@),
{
    let m = clock.minute();
    m - (m % 2)
}

fn digit_text(d: u32) -> (res: &'static str)
    requires
        d < 10,
    ensures
        res@ == seq![digit_char(d as nat)],
{
    proof {
        reveal_strlit("0");
        reveal_strlit("1");
        reveal_strlit("2");
        reveal_strlit("3");
        reveal_strlit("4");
        reveal_strlit("5");
        reveal_strlit("6");
        reveal_strlit("7");
        reveal_strlit("8");
        reveal_strlit("9");
    }
    if d == 0 {
        "0"
    } else if d == 1 {
        "1"
    } else if d == 2 {
        "2"
    } else if d == 3 {
        "3"
    } else if d == 4 {
        "4"
    } else if d == 5 {
        "5"
    } else if d == 6 {
        "6"
    } else if d == 7 {
        "7"
    } else if d == 8 {
        "8"
    } else {
        "9"
    }
}

/// `n` in decimal, as `n.to_string()` writes it.
pub fn number_text(n: u32) -> (res: String)
    ensures
        res@ == decimal(n as nat),
    decreases n,
{
    if n < 10 {
        let mut s = String::new();
        s.append(digit_text(n));
        proof {
            assert(s@ =~= decimal(n as nat));
        }
        s
    } else {
        let mut s = number_text(n / 10);
        s.append(digit_text(n % 10));
        proof {
            assert(s@ =~= decimal(n as nat));
        }
        s
    }
}

fn append_two_digits(out: &mut String, n: u32)
    ensures
        final(out)@ == old(out)@ + two_digits(n as nat),
{
    proof {
        reveal_strlit("0");
    }
    let digits = number_text(n);
    if n < 10 {
        out.append("0");
    }
    out.append(digits.as_str());
    proof {
        if n < 10 {
            assert(seq!['0'] + decimal(n as nat) =~= two_digits(n as nat));
        }
        assert(final(out)@ =~= old(out)@ + two_digits(n as nat));
    }
}

/// `HH:MM`, as `format!("{:02}:{:02}", hour, minute)` writes it.
pub fn timestamp(hour: u32, minute: u32) -> (res: String)
    ensures
        res@ == stamp_text(hour as nat, minute as nat),
{
    proof {
        reveal_strlit(":");
    }
    let mut s = String::new();
    append_two_digits(&mut s, hour);
    s.append(":");
    append_two_digits(&mut s, minute);
    proof {
        assert(s@ =~= stamp_text(hour as nat, minute as nat));
    }
    s
}

/// Whether `pat` occurs in `s` starting at character `at`.
fn occurs_at(s: &str, pat: &str, at: usize) -> (res: bool)
    requires
        at + pat@.len() <= s@.len(),
        s@.len() <= usize::MAX,
    ensures
        res == (s@.subrange(at as int, at + pat@.len()) == pat@),
{
    let p = pat.unicode_len();
    let mut k: usize = 0;
    while k < p
        invariant
            p == pat@.len(),
            k <= p,
            at + p <= s@.len(),
            s@.len() <= usize::MAX,
            forall|j: int| 0 <= j < k ==> s@[at + j] == pat@[j],
        decreases p - k,
    {
        if s.get_char(at + k) != pat.get_char(k) {
            proof {
                assert(s@.subrange(at as int, at + p)[k as int] != pat@[k as int]);
            }
            return false;
        }
        k += 1;
    }
    proof {
        assert(s@.subrange(at as int, at + p) =~= pat@);
    }
    true
}

proof fn lemma_replace_step(s: Seq<char>, pat: Seq<char>, rep: Seq<char>, i: int)
    requires
        pat.len() > 0,
        0 <= i < s.len(),
    ensures
        (i + pat.len() <= s.len() && s.subrange(i, i + pat.len()) == pat) ==> replace_all(
            s.subrange(i, s.len() as int),
            pat,
            rep,
        ) == rep + replace_all(s.subrange(i + pat.len(), s.len() as int), pat, rep),
        !(i + pat.len() <= s.len() && s.subrange(i, i + pat.len()) == pat) ==> replace_all(
            s.subrange(i, s.len() as int),
            pat,
            rep,
        ) == seq![s[i]] + replace_all(s.subrange(i + 1, s.len() as int), pat, rep),
{
    let t = s.subrange(i, s.len() as int);
    let n = s.len() as int;
    let p = pat.len() as int;
    if t.len() < p {
        assert(s.subrange(i + 1, n).len() < p);
        assert(t =~= seq![s[i]] + s.subrange(i + 1, n));
    } else {
        assert(t.subrange(0, p) =~= s.subrange(i, i + p));
        assert(t.subrange(p, t.len() as int) =~= s.subrange(i + p, n));
        assert(t.subrange(1, t.len() as int) =~= s.subrange(i + 1, n));
        assert(t[0] == s[i]);
    }
}

/// `s` with every occurrence of `pat` replaced by `rep` (`str::replace`).
pub fn replace_text(s: &str, pat: &str, rep: &str) -> (res: String)
    requires
        pat@.len() > 0,
    ensures
        res@ == replace_all(s@, pat@, rep@),
{
    let n = s.unicode_len();
    let p = pat.unicode_len();
    let mut out = String::new();
    let mut start: usize = 0;
    let mut i: usize = 0;
    proof {
        assert(s@.subrange(0, n as int) =~= s@);
        assert(out@ + s@.subrange(0, 0) =~= Seq::<char>::empty());
    }
    while i < n
        invariant
            n == s@.len(),
            p == pat@.len(),
            p > 0,
            start <= i <= n,
            out@ + s@.subrange(start as int, i as int) + replace_all(
                s@.subrange(i as int, n as int),
                pat@,
                rep@,
            ) == replace_all(s@, pat@, rep@),
        decreases n - i,
    {
        proof {
            lemma_replace_step(s@, pat@, rep@, i as int);
        }
        if p <= n - i && occurs_at(s, pat, i) {
            let chunk = s.substring_char(start, i);
            let ghost before = out@;
            out.append(chunk);
            out.append(rep);
            proof {
                assert(out@ + s@.subrange((i + p) as int, (i + p) as int) + replace_all(
                    s@.subrange((i + p) as int, n as int),
                    pat@,
                    rep@,
                ) =~= before + s@.subrange(start as int, i as int) + replace_all(
                    s@.subrange(i as int, n as int),
                    pat@,
                    rep@,
                ));
            }
            i = i + p;
            start = i;
        } else {
            proof {
                assert(s@.subrange(start as int, i as int) + seq![s@[i as int]] =~= s@.subrange(
                    start as int,
                    i + 1,
                ));
                assert(out@ + s@.subrange(start as int, i + 1) + replace_all(
                    s@.subrange(i + 1, n as int),
                    pat@,
                    rep@,
                ) =~= out@ + s@.subrange(start as int, i as int) + replace_all(
                    s@.subrange(i as int, n as int),
                    pat@,
                    rep@,
                ));
            }
            i = i + 1;
        }
    }
    let tail = s.substring_char(start, n);
    out.append(tail);
    proof {
        assert(s@.subrange(n as int, n as int) =~= Seq::<char>::empty());
        assert(out@ =~= replace_all(s@, pat@, rep@));
    }
    out
}

/// `template` with every `{n}` replaced by `n` in decimal.
pub fn fill_n(template: &str, n: u32) -> (res: String)
    ensures
        res@ == replace_all(template@, "{n}"@, decimal(n as nat)),
{
    proof {
        reveal_strlit("{n}");
    }
    let digits = number_text(n);
    replace_text(template, "{n}", digits.as_str())
}

/// `template` with every `{name}` replaced by `name`.
pub fn fill_name(template: &str, name: &str) -> (res: String)
    ensures
        res@ == replace_all(template@, "{name}"@, name@),
{
    proof {
        reveal_strlit("{name}");
    }
    replace_text(template, "{name}", name)
}

} // verus!
