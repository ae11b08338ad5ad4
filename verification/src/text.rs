//! Text utilities on `str` / `String` with specifications over `Seq<char>`.
use vstd::prelude::*;
use vstd::string::*;
use vstd::std_specs::iter::IteratorSpec;

verus! {

/// `needle` occurs in `hay` as a contiguous run of characters.
pub open spec fn has_substring(hay: Seq<char>, needle: Seq<char>) -> bool {
    exists|i: int| 0 <= i && i + needle.len() <= hay.len() && #[trigger] hay.subrange(i, i + needle.len()) == needle
}

/// Concatenation of two string slices into a new `String`.
pub fn join2(a: &str, b: &str) -> (r: String)
    ensures
        r@ == a@ + b@,
{
    String::from_str(a).concat(b)
}

/// Concatenation of three string slices into a new `String`.
pub fn join3(a: &str, b: &str, c: &str) -> (r: String)
    ensures
        r@ == a@ + b@ + c@,
{
    String::from_str(a).concat(b).concat(c)
}


/// The characters of `s`, in order.
pub fn chars_of(s: &str) -> (v: Vec<char>)
    ensures
        v@ == s@,
{
    broadcast use vstd::string::group_string_axioms;
    let mut it = s.chars();
    let mut v: Vec<char> = Vec::new();
    loop
        invariant
            v@ + it.remaining() == s@,
            it.obeys_prophetic_iter_laws(),
            it.decrease() is Some,
        decreases it.decrease()->0,
    {
        let ghost before = it.remaining();
        match it.next() {
            Some(c) => {
                v.push(c);
                assert(v@ + it.remaining() =~= s@) by {
                    assert(before =~= seq![c] + it.remaining());
                }
            },
            None => {
                assert(v@ =~= s@);
                return v;
            },
        }
    }
}


/// `n` characters of `h`, starting at `i`, are exactly `n`.
fn matches_at(h: &Vec<char>, n: &Vec<char>, i: usize) -> (r: bool)
    requires
        i + n@.len() <= h@.len(),
    ensures
        r == (h@.subrange(i as int, i + n@.len()) == n@),
{
    let mut j: usize = 0;
    while j < n.len()
        invariant
            i + n@.len() <= h.len(),
            j <= n@.len(),
            forall|k: int| 0 <= k < j ==> h@[i + k] == n@[k],
        decreases n@.len() - j,
    {
        if h[i + j] != n[j] {
            assert(h@.subrange(i as int, i + n@.len())[j as int] != n@[j as int]);
            return false;
        }
        j += 1;
    }
    assert(h@.subrange(i as int, i + n@.len()) =~= n@);
    true
}

/// Whether `needle` occurs in `hay` (as `str::contains` with a `&str` pattern).
pub fn contains_text(hay: &str, needle: &str) -> (r: bool)
    ensures
        r == has_substring(hay@, needle@),
{
    let h = chars_of(hay);
    let n = chars_of(needle);
    if n.len() > h.len() {
        return false;
    }
    let last: usize = h.len() - n.len();
    let mut i: usize = 0;
    loop
        invariant
            h@ == hay@,
            n@ == needle@,
            last == h@.len() - n@.len(),
            i <= last,
            forall|k: int| 0 <= k < i ==> #[trigger] h@.subrange(k, k + n@.len()) != n@,
        decreases last - i,
    {
        if matches_at(&h, &n, i) {
            return true;
        }
        if i == last {
            return false;
        }
        i += 1;
    }
}

/// `s` with every trailing occurrence of `c` removed.
pub open spec fn trim_end_char(s: Seq<char>, c: char) -> Seq<char>
    decreases s.len(),
{
    if s.len() > 0 && s.last() == c {
        trim_end_char(s.drop_last(), c)
    } else {
        s
    }
}

/// What is left of `s` is a prefix of it, followed in `s` only by copies of `c`,
/// and does not itself end in `c`.
pub proof fn lemma_trim_end_char(s: Seq<char>, c: char)
    ensures
        trim_end_char(s, c).len() <= s.len(),
        trim_end_char(s, c) == s.take(trim_end_char(s, c).len() as int),
        forall|i: int| trim_end_char(s, c).len() <= i < s.len() ==> s[i] == c,
        trim_end_char(s, c).len() == 0 || trim_end_char(s, c).last() != c,
    decreases s.len(),
{
    if s.len() > 0 && s.last() == c {
        lemma_trim_end_char(s.drop_last(), c);
        let t = trim_end_char(s.drop_last(), c);
        assert(s.drop_last().take(t.len() as int) =~= s.take(t.len() as int));
        assert forall|i: int| t.len() <= i < s.len() implies s[i] == c by {
            if i < s.len() - 1 {
                assert(s.drop_last()[i] == s[i]);
            }
        }
    } else {
        assert(s.take(s.len() as int) =~= s);
    }
}

/// `s` without its trailing slashes (as `str::trim_end_matches('/')`).
pub fn trim_trailing_slashes(s: &str) -> (r: &str)
    ensures
        r@ == trim_end_char(s@, '/'),
{
    let v = chars_of(s);
    let mut k: usize = v.len();
    assert(s@.take(k as int) =~= s@);
    while k > 0 && v[k - 1] == '/'
        invariant
            v@ == s@,
            k <= v@.len(),
            trim_end_char(s@, '/') == trim_end_char(s@.take(k as int), '/'),
        decreases k,
    {
        assert(s@.take(k as int).drop_last() =~= s@.take(k - 1));
        k -= 1;
    }
    s.substring_char(0, k)
}

/// The digit character for `d` (0 to 9).
pub open spec fn digit_char(d: int) -> char {
    if d == 0 { '0' }
    else if d == 1 { '1' }
    else if d == 2 { '2' }
    else if d == 3 { '3' }
    else if d == 4 { '4' }
    else if d == 5 { '5' }
    else if d == 6 { '6' }
    else if d == 7 { '7' }
    else if d == 8 { '8' }
    else { '9' }
}

/// Decimal notation of a natural number, without leading zeros.
pub open spec fn nat_decimal(n: nat) -> Seq<char>
    decreases n,
{
    if n < 10 {
        seq![digit_char(n as int)]
    } else {
        nat_decimal(n / 10).push(digit_char((n % 10) as int))
    }
}

/// Decimal notation of an integer, as `Display` writes it: a leading `-` for
/// negative numbers, then the digits of the magnitude.
pub open spec fn int_decimal(n: int) -> Seq<char> {
    if n < 0 {
        seq!['-'] + nat_decimal((-n) as nat)
    } else {
        nat_decimal(n as nat)
    }
}

/// A decimal digit character.
pub open spec fn is_digit(c: char) -> bool {
    '0' <= c && c <= '9'
}

/// The number that a run of decimal digits denotes, most significant first.
pub open spec fn decimal_value(s: Seq<char>) -> int
    decreases s.len(),
{
    if s.len() == 0 {
        0
    } else {
        decimal_value(s.drop_last()) * 10 + (s.last() as int - '0' as int)
    }
}

/// Ten to the power `k`.
pub open spec fn pow10(k: nat) -> nat
    decreases k,
{
    if k == 0 { 1 } else { 10 * pow10((k - 1) as nat) }
}

/// The digit character for `d` is the character whose code is that of `'0'`
/// plus `d`.
pub proof fn lemma_digit_char(d: int)
    requires
        0 <= d < 10,
    ensures
        digit_char(d) as int == '0' as int + d,
        is_digit(digit_char(d)),
{
}

/// `nat_decimal(n)` is the base-10 notation of `n`: it is made of digits, has
/// no leading zero (unless `n` is 0), has one digit per decimal place of `n`,
/// and read back as base-10 digits it denotes `n`.
pub proof fn lemma_nat_decimal(n: nat)
    ensures
        nat_decimal(n).len() >= 1,
        forall|i: int| 0 <= i < nat_decimal(n).len() ==> is_digit(#[trigger] nat_decimal(n)[i]),
        nat_decimal(n)[0] == '0' ==> n == 0,
        n < pow10(nat_decimal(n).len()),
        nat_decimal(n).len() > 1 ==> pow10((nat_decimal(n).len() - 1) as nat) <= n,
        decimal_value(nat_decimal(n)) == n,
    decreases n,
{
    if n < 10 {
        lemma_digit_char(n as int);
        assert(nat_decimal(n).drop_last() =~= Seq::<char>::empty());
        assert(decimal_value(Seq::<char>::empty()) == 0);
        assert(nat_decimal(n).last() == digit_char(n as int));
        assert(pow10(1) == 10) by {
            reveal_with_fuel(pow10, 2);
        }
    } else {
        let m: nat = n / 10;
        let d: int = (n % 10) as int;
        lemma_nat_decimal(m);
        lemma_digit_char(d);
        let hi = nat_decimal(m);
        let s = nat_decimal(n);
        assert(s == hi.push(digit_char(d)));
        assert(s.drop_last() =~= hi);
        assert forall|i: int| 0 <= i < s.len() implies is_digit(#[trigger] s[i]) by {
            if i < hi.len() {
                assert(s[i] == hi[i]);
            }
        }
        assert(s[0] == hi[0]);
        let l: nat = hi.len();
        assert(pow10(l + 1) == 10 * pow10(l));
        assert(n == 10 * m + d);
        assert(n < pow10(l + 1)) by (nonlinear_arith)
            requires
                m < pow10(l),
                n == 10 * m + d,
                0 <= d < 10,
                pow10(l + 1) == 10 * pow10(l),
        {}
        if l > 1 {
            assert(pow10(l) == 10 * pow10((l - 1) as nat));
            assert(pow10(l) <= n) by (nonlinear_arith)
                requires
                    pow10((l - 1) as nat) <= m,
                    n == 10 * m + d,
                    0 <= d,
                    pow10(l) == 10 * pow10((l - 1) as nat),
            {}
        } else {
            assert(pow10(1) == 10) by {
                reveal_with_fuel(pow10, 2);
            }
        }
        assert(s.len() == l + 1);
        assert(s.last() == digit_char(d));
        assert(decimal_value(s) == decimal_value(hi) * 10 + (digit_char(d) as int - '0' as int));
    }
}

/// Different numbers have different decimal notations.
pub proof fn lemma_nat_decimal_injective(a: nat, b: nat)
    requires
        nat_decimal(a) == nat_decimal(b),
    ensures
        a == b,
{
    lemma_nat_decimal(a);
    lemma_nat_decimal(b);
}

/// `int_decimal(n)` reads back as `n`: the digits of a non-negative number
/// denote it, and a negative number is a `-` followed by the digits of its
/// magnitude.
pub proof fn lemma_int_decimal(n: int)
    ensures
        n >= 0 ==> decimal_value(int_decimal(n)) == n,
        n >= 0 ==> forall|i: int| 0 <= i < int_decimal(n).len() ==> is_digit(#[trigger] int_decimal(n)[i]),
        n < 0 ==> int_decimal(n)[0] == '-' && decimal_value(int_decimal(n).drop_first()) == -n,
        n < 0 ==> forall|i: int| 1 <= i < int_decimal(n).len() ==> is_digit(#[trigger] int_decimal(n)[i]),
        int_decimal(n).len() >= 1,
{
    if n < 0 {
        let m: nat = (-n) as nat;
        lemma_nat_decimal(m);
        assert(int_decimal(n).drop_first() =~= nat_decimal(m));
        assert forall|i: int| 1 <= i < int_decimal(n).len() implies is_digit(#[trigger] int_decimal(n)[i]) by {
            assert(int_decimal(n)[i] == nat_decimal(m)[i - 1]);
        }
    } else {
        lemma_nat_decimal(n as nat);
    }
}

fn digit_str(d: u32) -> (r: &'static str)
    requires
        d < 10,
    ensures
        r@ == seq![digit_char(d as int)],
{
    if d == 0 { proof { reveal_strlit("0"); } "0" }
    else if d == 1 { proof { reveal_strlit("1"); } "1" }
    else if d == 2 { proof { reveal_strlit("2"); } "2" }
    else if d == 3 { proof { reveal_strlit("3"); } "3" }
    else if d == 4 { proof { reveal_strlit("4"); } "4" }
    else if d == 5 { proof { reveal_strlit("5"); } "5" }
    else if d == 6 { proof { reveal_strlit("6"); } "6" }
    else if d == 7 { proof { reveal_strlit("7"); } "7" }
    else if d == 8 { proof { reveal_strlit("8"); } "8" }
    else { proof { reveal_strlit("9"); } "9" }
}

fn u32_decimal(n: u32) -> (r: String)
    ensures
        r@ == nat_decimal(n as nat),
        decimal_value(r@) == n,
    decreases n,
{
    let r = if n < 10 {
        String::from_str(digit_str(n))
    } else {
        let high = u32_decimal(n / 10);
        high.concat(digit_str(n % 10))
    };
    proof { lemma_nat_decimal(n as nat); }
    r
}

/// Decimal text of an `i32` (as `format!("{}", n)`).
pub fn i32_decimal(n: i32) -> (r: String)
    ensures
        r@ == int_decimal(n as int),
        n >= 0 ==> decimal_value(r@) == n,
        n < 0 ==> r@[0] == '-' && decimal_value(r@.drop_first()) == -n,
{
    proof { lemma_int_decimal(n as int); }
    if n < 0 {
        let magnitude: u32 = (0i64 - (n as i64)) as u32;
        proof { reveal_strlit("-"); }
        String::from_str("-").concat(u32_decimal(magnitude).as_str())
    } else {
        u32_decimal(n as u32)
    }
}

} // verus!
