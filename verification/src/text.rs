use vstd::prelude::*;

verus! {

/// `s` begins with `p`.
pub open spec fn spec_starts_with(s: Seq<char>, p: Seq<char>) -> bool {
    p.len() <= s.len() && s.subrange(0, p.len() as int) == p
}

/// `s` ends with `p`.
pub open spec fn spec_ends_with(s: Seq<char>, p: Seq<char>) -> bool {
    p.len() <= s.len() && s.subrange(s.len() - p.len(), s.len() as int) == p
}

/// `p` occurs in `s` starting at position `i`.
pub open spec fn spec_occurs_at(s: Seq<char>, p: Seq<char>, i: int) -> bool {
    0 <= i && i + p.len() <= s.len() && s.subrange(i, i + p.len()) == p
}

/// `p` occurs somewhere in `s`.
pub open spec fn spec_contains(s: Seq<char>, p: Seq<char>) -> bool {
    exists|i: int| spec_occurs_at(s, p, i)
}

/// The characters of `s`, one by one.
pub fn chars_of(s: &str) -> (v: Vec<char>)
    ensures
        v@ == s@,
{
    let n = s.unicode_len();
    let mut v: Vec<char> = Vec::new();
    let mut i: usize = 0;
    while i < n
        invariant
            n == s@.len(),
            i <= n,
            v@ == s@.subrange(0, i as int),
        decreases n - i,
    {
        let c = s.get_char(i);
        v.push(c);
        i = i + 1;
        assert(v@ =~= s@.subrange(0, i as int));
    }
    assert(v@ =~= s@);
    v
}

/// Whether `p` occurs in `s` at position `i`.
fn occurs_at(s: &Vec<char>, p: &Vec<char>, i: usize) -> (r: bool)
    ensures
        r == spec_occurs_at(s@, p@, i as int),
{
    if i > s.len() || p.len() > s.len() - i {
        return false;
    }
    let mut k: usize = 0;
    while k < p.len()
        invariant
            i + p@.len() <= s@.len(),
            s@.len() == s.len(),
            p@.len() == p.len(),
            k <= p@.len(),
            forall|t: int| 0 <= t < k ==> s@[i + t] == p@[t],
        decreases p@.len() - k,
    {
        if s[i + k] != p[k] {
            assert(s@.subrange(i as int, i + p@.len())[k as int] != p@[k as int]);
            return false;
        }
        k = k + 1;
    }
    assert(s@.subrange(i as int, i + p@.len()) =~= p@);
    true
}

pub fn str_starts_with(s: &str, p: &str) -> (r: bool)
    ensures
        r == spec_starts_with(s@, p@),
{
    let sv = chars_of(s);
    let pv = chars_of(p);
    occurs_at(&sv, &pv, 0)
}

pub fn str_ends_with(s: &str, p: &str) -> (r: bool)
    ensures
        r == spec_ends_with(s@, p@),
{
    let sv = chars_of(s);
    let pv = chars_of(p);
    if pv.len() > sv.len() {
        return false;
    }
    occurs_at(&sv, &pv, sv.len() - pv.len())
}

pub fn str_contains(s: &str, p: &str) -> (r: bool)
    ensures
        r == spec_contains(s@, p@),
{
    let sv = chars_of(s);
    let pv = chars_of(p);
    if pv.len() > sv.len() {
        assert forall|i: int| !spec_occurs_at(s@, p@, i) by {}
        return false;
    }
    let last = sv.len() - pv.len();
    let mut i: usize = 0;
    while i <= last
        invariant
            sv@ == s@,
            pv@ == p@,
            last == s@.len() - p@.len(),
            i <= last,
            forall|t: int| 0 <= t < i ==> !spec_occurs_at(s@, p@, t),
        ensures
            forall|t: int| 0 <= t <= last ==> !spec_occurs_at(s@, p@, t),
        decreases last + 1 - i,
    {
        if occurs_at(&sv, &pv, i) {
            return true;
        }
        if i == last {
            break;
        }
        i = i + 1;
    }
    assert forall|t: int| !spec_occurs_at(s@, p@, t) by {
        if 0 <= t && t + p@.len() <= s@.len() {
            assert(t <= last);
        }
    }
    false
}

/// A string starts with any prefix of it, ends with any suffix of it, and
/// contains any piece of it.
pub proof fn lemma_affixes_are_found(a: Seq<char>, p: Seq<char>, b: Seq<char>)
    ensures
        spec_starts_with(p + b, p),
        spec_ends_with(a + p, p),
        spec_contains(a + p + b, p),
{
    assert((p + b).subrange(0, p.len() as int) =~= p);
    assert((a + p).subrange((a + p).len() - p.len(), (a + p).len() as int) =~= p);
    assert((a + p + b).subrange(a.len() as int, (a.len() + p.len()) as int) =~= p);
    assert(spec_occurs_at(a + p + b, p, a.len() as int));
}

/// Conversely, a string that starts with, ends with or contains `p` is made
/// of `p` and other text around it.
pub proof fn lemma_affixes_split(s: Seq<char>, p: Seq<char>)
    ensures
        spec_starts_with(s, p) ==> s == p + s.subrange(p.len() as int, s.len() as int),
        spec_ends_with(s, p) ==> s == s.subrange(0, s.len() - p.len()) + p,
        spec_contains(s, p) ==> exists|i: int|
            0 <= i && i + p.len() <= s.len() && s == s.subrange(0, i) + p + s.subrange(
                i + p.len(),
                s.len() as int,
            ),
{
    if spec_starts_with(s, p) {
        assert(s =~= p + s.subrange(p.len() as int, s.len() as int));
    }
    if spec_ends_with(s, p) {
        assert(s =~= s.subrange(0, s.len() - p.len()) + p);
    }
    if spec_contains(s, p) {
        let i = choose|i: int| spec_occurs_at(s, p, i);
        assert(s =~= s.subrange(0, i) + p + s.subrange(i + p.len(), s.len() as int));
    }
}

/// The decimal digit character for `d` (taken modulo ten).
pub open spec fn spec_digit_char(d: nat) -> char {
    let d = d % 10;
    if d == 0 {
        '0'
    } else if d == 1 {
        '1'
    } else if d == 2 {
        '2'
    } else if d == 3 {
        '3'
    } else if d == 4 {
        '4'
    } else if d == 5 {
        '5'
    } else if d == 6 {
        '6'
    } else if d == 7 {
        '7'
    } else if d == 8 {
        '8'
    } else {
        '9'
    }
}

/// The decimal representation of `n`, most significant digit first, with no
/// leading zeros.
pub open spec fn spec_decimal(n: nat) -> Seq<char>
    decreases n,
{
    if n < 10 {
        seq![spec_digit_char(n)]
    } else {
        spec_decimal(n / 10).push(spec_digit_char(n % 10))
    }
}

/// The number a character stands for as a decimal digit.
pub open spec fn spec_digit_value(c: char) -> int {
    (c as int) - ('0' as int)
}

/// The number a string of decimal digits stands for.
pub open spec fn spec_decimal_value(s: Seq<char>) -> int
    decreases s.len(),
{
    if s.len() == 0 {
        0
    } else {
        spec_decimal_value(s.drop_last()) * 10 + spec_digit_value(s.last())
    }
}

/// The decimal form of `n` is a non-empty string of the characters `0` to
/// `9` that reads back as `n`, and it starts with `0` only when `n` is zero.
pub proof fn lemma_decimal_reads_back(n: nat)
    ensures
        spec_decimal(n).len() > 0,
        forall|k: int| 0 <= k < spec_decimal(n).len() ==> '0' <= #[trigger] spec_decimal(n)[k] <= '9',
        spec_decimal_value(spec_decimal(n)) == n,
        spec_decimal(n)[0] == '0' <==> n == 0,
    decreases n,
{
    let d = n % 10;
    assert(0 <= d < 10);
    assert(spec_digit_value(spec_digit_char(d)) == d && '0' <= spec_digit_char(d) <= '9') by {
        assert(('0' as int) == 48);
        assert(('9' as int) == 57);
        if d == 0 {} else if d == 1 {assert(('1' as int) == 49);} else if d == 2 {assert(('2' as int) == 50);}
        else if d == 3 {assert(('3' as int) == 51);} else if d == 4 {assert(('4' as int) == 52);}
        else if d == 5 {assert(('5' as int) == 53);} else if d == 6 {assert(('6' as int) == 54);}
        else if d == 7 {assert(('7' as int) == 55);} else if d == 8 {assert(('8' as int) == 56);} else {}
    }
    if n < 10 {
        assert(d == n);
        assert(spec_decimal(n) =~= seq![spec_digit_char(n)]);
        assert(spec_decimal(n).drop_last() =~= Seq::<char>::empty());
        assert(spec_decimal_value(Seq::<char>::empty()) == 0);
        assert(spec_decimal(n).last() == spec_digit_char(d));
        assert(spec_decimal_value(spec_decimal(n)) == spec_decimal_value(spec_decimal(n).drop_last()) * 10
            + spec_digit_value(spec_decimal(n).last()));
    } else {
        let q = n / 10;
        lemma_decimal_reads_back(q);
        let s = spec_decimal(n);
        assert(s == spec_decimal(q).push(spec_digit_char(d)));
        assert(s.drop_last() =~= spec_decimal(q));
        assert(q * 10 + d == n) by (nonlinear_arith)
            requires q == n / 10, d == n % 10;
        assert(q > 0) by (nonlinear_arith)
            requires q == n / 10, n >= 10;
        assert(s[0] == spec_decimal(q)[0]);
        assert(s.last() == spec_digit_char(d));
        assert(spec_decimal_value(s) == spec_decimal_value(s.drop_last()) * 10 + spec_digit_value(
            s.last(),
        ));
        assert forall|k: int| 0 <= k < s.len() implies '0' <= #[trigger] s[k] <= '9' by {
            if k < s.len() - 1 {
                assert(s[k] == spec_decimal(q)[k]);
            }
        }
    }
}

fn digit_str(d: u64) -> (s: &'static str)
    requires
        d < 10,
    ensures
        s@ == seq![spec_digit_char(d as nat)],
{
    proof {
        reveal_strlit("0");
        reveal_strlit("1");
        reveal_strlit("2");
        reveal_strlit("3");
        reveal_strlit("4");
        reveal_strlit("5");
        reveal_strlit("6");
        reveal_strlit("7");
        reveal_strlit("8");
        reveal_strlit("9");
    }
    match d {
        0 => "0",
        1 => "1",
        2 => "2",
        3 => "3",
        4 => "4",
        5 => "5",
        6 => "6",
        7 => "7",
        8 => "8",
        _ => "9",
    }
}

/// Formats `n` in decimal, as `Display` for `u64` does.
pub fn u64_to_decimal(n: u64) -> (s: String)
    ensures
        s@ == spec_decimal(n as nat),
    decreases n,
{
    if n < 10 {
        String::from_str(digit_str(n))
    } else {
        let mut s = u64_to_decimal(n / 10);
        s.append(digit_str(n % 10));
        s
    }
}

/// `s` followed by `t`, as a new string.
pub fn concat_str(s: &str, t: &str) -> (r: String)
    ensures
        r@ == s@ + t@,
{
    let mut r = String::from_str(s);
    r.append(t);
    r
}

} // verus!
