//! Text building blocks shared by the modules: substitution of a pattern,
//! decimal rendering of numbers, and concatenation.

use vstd::prelude::*;

verus! {

/// `s` with every occurrence of `from`, found scanning left to right without
/// overlap, replaced by `to`. This is what `str::replace` computes for a
/// non-empty pattern; an empty pattern leaves `s` unchanged here.
pub open spec fn replace_all(s: Seq<char>, from: Seq<char>, to: Seq<char>) -> Seq<char>
    decreases s.len(),
{
    if s.len() == 0 || from.len() == 0 {
        s
    } else if from.len() <= s.len() && s.subrange(0, from.len() as int) == from {
        to + replace_all(s.subrange(from.len() as int, s.len() as int), from, to)
    } else {
        seq![s[0]] + replace_all(s.subrange(1, s.len() as int), from, to)
    }
}

/// A `Result` whose error text is taken by its view.
pub open spec fn result_view<T>(r: Result<T, String>) -> Result<T, Seq<char>> {
    match r {
        Ok(v) => Ok(v),
        Err(e) => Err(e@),
    }
}

/// `pat` occurs in `s` starting at position `i`.
pub open spec fn occurs_at(s: Seq<char>, pat: Seq<char>, i: int) -> bool {
    0 <= i && i + pat.len() <= s.len() && s.subrange(i, i + pat.len()) == pat
}

/// The ASCII digit for `d` (`d` below ten).
pub open spec fn digit_char(d: nat) -> char {
    (d + 48) as char
}

/// Decimal notation of `n`, without leading zeros (`0` is written "0").
pub open spec fn decimal(n: nat) -> Seq<char>
    decreases n,
{
    if n < 10 {
        seq![digit_char(n)]
    } else {
        decimal(n / 10).push(digit_char(n % 10))
    }
}

/// Whether `pat` occurs in `s` at character position `i`.
fn occurs_at_exec(s: &str, s_len: usize, pat: &str, pat_len: usize, i: usize) -> (b: bool)
    requires
        s_len == s@.len(),
        pat_len == pat@.len(),
        i <= s_len,
    ensures
        b == occurs_at(s@, pat@, i as int),
{
    if pat_len > s_len - i {
        return false;
    }
    let mut j: usize = 0;
    while j < pat_len
        invariant
            s_len == s@.len(),
            pat_len == pat@.len(),
            i + pat_len <= s_len,
            j <= pat_len,
            forall|k: int| 0 <= k < j ==> s@[i + k] == pat@[k],
        decreases pat_len - j,
    {
        if s.get_char(i + j) != pat.get_char(j) {
            assert(s@.subrange(i as int, i + pat_len)[j as int] != pat@[j as int]);
            return false;
        }
        j += 1;
    }
    assert(s@.subrange(i as int, i + pat_len) =~= pat@);
    true
}

/// Replaces, left to right and without overlap, each occurrence of the
/// non-empty pattern `from` in `s` by `to`.
pub fn replace_all_str(s: &str, from: &str, to: &str) -> (r: String)
    requires
        from@.len() > 0,
    ensures
        r@ == replace_all(s@, from@, to@),
{
    let s_len = s.unicode_len();
    let from_len = from.unicode_len();
    let mut out = String::new();
    let mut i: usize = 0;
    assert(s@.subrange(0, s_len as int) =~= s@);
    while i < s_len
        invariant
            s_len == s@.len(),
            from_len == from@.len(),
            from_len > 0,
            i <= s_len,
            replace_all(s@, from@, to@) == out@ + replace_all(
                s@.subrange(i as int, s_len as int),
                from@,
                to@,
            ),
        decreases s_len - i,
    {
        let ghost rest = s@.subrange(i as int, s_len as int);
        let ghost before = out@;
        if occurs_at_exec(s, s_len, from, from_len, i) {
            assert(rest.subrange(0, from_len as int) =~= s@.subrange(i as int, i + from_len));
            assert(rest.subrange(from_len as int, rest.len() as int) =~= s@.subrange(
                i + from_len,
                s_len as int,
            ));
            out.append(to);
            i = i + from_len;
            let ghost tail = replace_all(s@.subrange(i as int, s_len as int), from@, to@);
            assert(before + (to@ + tail) =~= (before + to@) + tail);
        } else {
            let c = s.substring_char(i, i + 1);
            assert(from_len <= rest.len() ==> rest.subrange(0, from_len as int) =~= s@.subrange(
                i as int,
                i + from_len,
            ));
            assert(rest.subrange(1, rest.len() as int) =~= s@.subrange(i + 1, s_len as int));
            assert(c@ =~= seq![rest[0]]);
            out.append(c);
            i = i + 1;
            let ghost tail = replace_all(s@.subrange(i as int, s_len as int), from@, to@);
            assert(before + (c@ + tail) =~= (before + c@) + tail);
        }
    }
    assert(s@.subrange(s_len as int, s_len as int) =~= Seq::<char>::empty());
    assert(out@ + Seq::<char>::empty() =~= out@);
    out
}

/// The one-character string of the digit `d`.
fn digit_str(d: u64) -> (r: &'static str)
    requires
        d < 10,
    ensures
        r@ == seq![digit_char(d as nat)],
{
    let digits: &'static str = "0123456789";
    proof {
        reveal_strlit("0123456789");
        assert(digits@ =~= seq!['0', '1', '2', '3', '4', '5', '6', '7', '8', '9']);
        assert(digits@[d as int] == digit_char(d as nat));
    }
    let r = digits.substring_char(d as usize, d as usize + 1);
    assert(r@ =~= seq![digit_char(d as nat)]);
    r
}

/// Decimal notation of `n`, as `u64`'s `Display` writes it.
pub fn decimal_string(n: u64) -> (r: String)
    ensures
        r@ == decimal(n as nat),
    decreases n,
{
    if n < 10 {
        String::from_str(digit_str(n))
    } else {
        let mut s = decimal_string(n / 10);
        let d = digit_str(n % 10);
        s.append(d);
        assert(s@ =~= decimal((n / 10) as nat).push(digit_char((n % 10) as nat)));
        s
    }
}

/// `a` followed by `b`.
pub fn concat_str(a: &str, b: &str) -> (r: String)
    ensures
        r@ == a@ + b@,
{
    let mut s = String::from_str(a);
    s.append(b);
    s
}

/// Text without an occurrence of the pattern is left unchanged by the
/// replacement.
pub proof fn replace_all_without_occurrence(s: Seq<char>, from: Seq<char>, to: Seq<char>)
    requires
        forall|i: int| 0 <= i < s.len() ==> !#[trigger] occurs_at(s, from, i),
    ensures
        replace_all(s, from, to) == s,
    decreases s.len(),
{
    if s.len() == 0 || from.len() == 0 {
    } else {
        let rest = s.subrange(1, s.len() as int);
        assert(!occurs_at(s, from, 0));
        assert forall|i: int| 0 <= i < rest.len() implies !#[trigger] occurs_at(rest, from, i) by {
            assert(!occurs_at(s, from, i + 1));
            if occurs_at(rest, from, i) {
                assert(s.subrange(i + 1, i + 1 + from.len()) =~= rest.subrange(i, i + from.len()));
            }
        }
        replace_all_without_occurrence(rest, from, to);
        assert(from.len() <= s.len() ==> s.subrange(0, from.len() as int) != from);
        assert(seq![s[0]] + rest =~= s);
    }
}

/// A prefix in which no occurrence of the pattern starts passes through the
/// replacement unchanged.
pub proof fn replace_all_keeps_prefix(p: Seq<char>, q: Seq<char>, from: Seq<char>, to: Seq<char>)
    requires
        forall|i: int| 0 <= i < p.len() ==> !#[trigger] occurs_at(p + q, from, i),
    ensures
        replace_all(p + q, from, to) == p + replace_all(q, from, to),
    decreases p.len(),
{
    let s = p + q;
    if p.len() == 0 {
        assert(s =~= q);
        assert(p + replace_all(q, from, to) =~= replace_all(q, from, to));
    } else if from.len() == 0 {
    } else {
        let p1 = p.subrange(1, p.len() as int);
        assert(!occurs_at(s, from, 0));
        assert(s.subrange(1, s.len() as int) =~= p1 + q);
        assert forall|i: int| 0 <= i < p1.len() implies !#[trigger] occurs_at(p1 + q, from, i) by {
            assert(!occurs_at(s, from, i + 1));
            if occurs_at(p1 + q, from, i) {
                assert(s.subrange(i + 1, i + 1 + from.len()) =~= (p1 + q).subrange(
                    i,
                    i + from.len(),
                ));
            }
        }
        replace_all_keeps_prefix(p1, q, from, to);
        assert(from.len() <= s.len() ==> s.subrange(0, from.len() as int) != from);
        assert(seq![s[0]] + (p1 + replace_all(q, from, to)) =~= p + replace_all(q, from, to));
    }
}

} // verus!
