//! Text built for the page: decimal numbers and the forms of a city name.
use vstd::prelude::*;

verus! {

/// The bracket that opens the disambiguation segment of a city name.
pub open spec fn open_bracket() -> char {
    '（'
}

/// The bracket that closes the disambiguation segment of a city name.
pub open spec fn close_bracket() -> char {
    '）'
}

/// The character of a decimal digit `d < 10`.
pub open spec fn digit_char(d: nat) -> char {
    seq!['0', '1', '2', '3', '4', '5', '6', '7', '8', '9'][d as int]
}

/// The decimal text of `n`, without leading zeros.
pub open spec fn decimal_of(n: nat) -> Seq<char>
    decreases n,
{
    if n < 10 {
        seq![digit_char(n)]
    } else {
        decimal_of(n / 10).push(digit_char(n % 10))
    }
}

/// The last `k` decimal digits of `n`, padded with zeros on the left.
pub open spec fn padded_of(n: nat, k: nat) -> Seq<char>
    decreases k,
{
    if k == 0 {
        seq![]
    } else {
        padded_of(n / 10, (k - 1) as nat).push(digit_char(n % 10))
    }
}

/// `10` to the power `k`.
pub open spec fn pow10(k: nat) -> nat
    decreases k,
{
    if k == 0 {
        1
    } else {
        10 * pow10((k - 1) as nat)
    }
}

/// The text of `n / 10^k` with `k` digits after the point.
pub open spec fn fixed_of(n: nat, k: nat) -> Seq<char> {
    decimal_of(n / pow10(k)) + seq!['.'] + padded_of(n % pow10(k), k)
}

/// The text of `v / 10^k` with `k` digits after the point, signed.
pub open spec fn signed_fixed_of(v: int, k: nat) -> Seq<char> {
    if v < 0 {
        seq!['-'] + fixed_of((-v) as nat, k)
    } else {
        fixed_of(v as nat, k)
    }
}

/// The one-character text of a digit.
fn digit_text(d: u64) -> (r: &'static str)
    requires
        d < 10,
    ensures
        r@ == seq![digit_char(d as nat)],
{
    let digits = "0123456789";
    proof {
        reveal_strlit("0123456789");
    }
    let r = digits.substring_char(d as usize, d as usize + 1);
    assert(r@ =~= seq![digit_char(d as nat)]);
    r
}

/// The decimal text of `n`.
pub fn decimal_text(n: u64) -> (r: String)
    ensures
        r@ == decimal_of(n as nat),
    decreases n,
{
    if n < 10 {
        String::from_str(digit_text(n))
    } else {
        let mut r = decimal_text(n / 10);
        r.append(digit_text(n % 10));
        r
    }
}

/// The last `k` decimal digits of `n`, padded with zeros on the left.
fn padded_text(n: u64, k: u32) -> (r: String)
    ensures
        r@ == padded_of(n as nat, k as nat),
    decreases k,
{
    if k == 0 {
        String::new()
    } else {
        let mut r = padded_text(n / 10, k - 1);
        r.append(digit_text(n % 10));
        r
    }
}

/// `10^k` as a machine integer, for `k` up to 19.
fn pow10_u64(k: u32) -> (r: u64)
    requires
        k <= 19,
    ensures
        r == pow10(k as nat),
        r >= 1,
    decreases k,
{
    if k == 0 {
        1
    } else {
        let p = pow10_u64(k - 1);
        assert(pow10((k - 1) as nat) <= 1_000_000_000_000_000_000) by {
            lemma_pow10_bound((k - 1) as nat);
        }
        10 * p
    }
}

pub proof fn lemma_pow10_bound(k: nat)
    requires
        k <= 18,
    ensures
        1 <= pow10(k) <= 1_000_000_000_000_000_000,
        pow10(k) <= pow10(18),
    decreases k,
{
    reveal_with_fuel(pow10, 19);
    if k > 0 {
        lemma_pow10_bound((k - 1) as nat);
    }
}

/// The text of `n / 10^k` with `k` digits after the point.
pub fn fixed_text(n: u64, k: u32) -> (r: String)
    requires
        k <= 19,
    ensures
        r@ == fixed_of(n as nat, k as nat),
{
    let p = pow10_u64(k);
    let mut r = decimal_text(n / p);
    let point = ".";
    proof {
        reveal_strlit(".");
    }
    r.append(point);
    let frac = padded_text(n % p, k);
    r.append(frac.as_str());
    r
}

/// The text of `v / 10^k` with `k` digits after the point, signed.
pub fn signed_fixed_text(v: i64, k: u32) -> (r: String)
    requires
        k <= 19,
    ensures
        r@ == signed_fixed_of(v as int, k as nat),
{
    if v < 0 {
        let magnitude: u64 = if v == i64::MIN {
            (i64::MAX as u64) + 1
        } else {
            (-v) as u64
        };
        let minus = "-";
        proof {
            reveal_strlit("-");
        }
        let mut r = String::from_str(minus);
        let digits = fixed_text(magnitude, k);
        r.append(digits.as_str());
        r
    } else {
        fixed_text(v as u64, k)
    }
}

/// A city name as displayed in the detail panel: the part before the first
/// opening bracket, or the whole name where there is none.
pub open spec fn display_name_of(s: Seq<char>) -> Seq<char>
    decreases s.len(),
{
    if s.contains(open_bracket()) {
        display_name_of(s.drop_last())
    } else {
        s
    }
}

/// What one character of a city name becomes in an encyclopedia title.
pub open spec fn title_piece(c: char) -> Seq<char> {
    if c == open_bracket() {
        seq!['_', '(']
    } else if c == close_bracket() {
        seq![')']
    } else {
        seq![c]
    }
}

/// A city name as an encyclopedia title: each opening bracket becomes `_(` and
/// each closing bracket `)`; the other characters stay.
pub open spec fn title_of(s: Seq<char>) -> Seq<char>
    decreases s.len(),
{
    if s.len() == 0 {
        seq![]
    } else {
        title_of(s.drop_last()) + title_piece(s.last())
    }
}

proof fn lemma_display_name_is_prefix(s: Seq<char>, i: int)
    requires
        0 <= i <= s.len(),
        forall|j: int| 0 <= j < i ==> s[j] != open_bracket(),
        i < s.len() ==> s[i] == open_bracket(),
    ensures
        display_name_of(s) == s.take(i),
    decreases s.len(),
{
    if i == s.len() {
        assert(!s.contains(open_bracket()));
        assert(s.take(i) =~= s);
    } else {
        assert(s.contains(open_bracket())) by {
            assert(s[i] == open_bracket());
        }
        assert(display_name_of(s) == display_name_of(s.drop_last()));
        if i == s.len() - 1 {
            let d = s.drop_last();
            assert(!d.contains(open_bracket())) by {
                if d.contains(open_bracket()) {
                    let j = choose|j: int| 0 <= j < d.len() && d[j] == open_bracket();
                    assert(s[j] == open_bracket());
                }
            }
            assert(d =~= s.take(i));
            assert(display_name_of(d) == d);
        } else {
            lemma_display_name_is_prefix(s.drop_last(), i);
            assert(s.drop_last().take(i) =~= s.take(i));
        }
    }
}

/// The city name as displayed: the part before the first opening bracket.
pub fn display_name(city: &str) -> (r: String)
    ensures
        r@ == display_name_of(city@),
{
    let len = city.unicode_len();
    let mut i: usize = 0;
    while i < len && city.get_char(i) != '（'
        invariant
            len == city@.len(),
            i <= len,
            forall|j: int| 0 <= j < i ==> city@[j] != open_bracket(),
        decreases len - i,
    {
        i = i + 1;
    }
    proof {
        lemma_display_name_is_prefix(city@, i as int);
    }
    String::from_str(city.substring_char(0, i))
}

/// The city name as an encyclopedia title, brackets converted.
pub fn title_text(city: &str) -> (r: String)
    ensures
        r@ == title_of(city@),
{
    let len = city.unicode_len();
    let open = "_(";
    let close = ")";
    proof {
        reveal_strlit("_(");
        reveal_strlit(")");
    }
    let mut r = String::new();
    let mut i: usize = 0;
    while i < len
        invariant
            len == city@.len(),
            i <= len,
            open@ == seq!['_', '('],
            close@ == seq![')'],
            r@ == title_of(city@.take(i as int)),
        decreases len - i,
    {
        let c = city.get_char(i);
        if c == '（' {
            r.append(open);
        } else if c == '）' {
            r.append(close);
        } else {
            r.append(city.substring_char(i, i + 1));
        }
        assert(city@.take(i + 1).drop_last() =~= city@.take(i as int));
        assert(city@.subrange(i as int, i + 1) =~= seq![c]);
        i = i + 1;
    }
    assert(city@.take(len as int) =~= city@);
    r
}

} // verus!
