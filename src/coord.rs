//! Coordinates read from floating-point text, held exactly as their decimal
//! digits and a power of ten.
use vstd::prelude::*;

verus! {

/// Largest magnitude of an exponent written in the text; one beyond it is
/// taken as this.
pub const EXPONENT_CAP: u64 = 1_000_000_000_000_000_000;

/// A decimal number: `-1` to the power `negative`, times the number that
/// `digits` spell (most significant first), times `10^exponent`.
#[derive(Debug)]
pub struct Coord {
    pub negative: bool,
    pub digits: Vec<u8>,
    pub exponent: i128,
}

/// What a coordinate stands for.
pub struct CoordModel {
    pub negative: bool,
    pub digits: Seq<nat>,
    pub exponent: int,
}

impl View for Coord {
    type V = CoordModel;

    open spec fn view(&self) -> CoordModel {
        CoordModel {
            negative: self.negative,
            digits: self.digits@.map_values(|d: u8| d as nat),
            exponent: self.exponent as int,
        }
    }
}

/// How far a scan of unsigned decimal text has come: the digits read, whether
/// the point was seen, and how many digits followed it.
pub struct DecimalScan {
    pub digits: Seq<nat>,
    pub point: bool,
    pub scale: nat,
}

/// The value of a decimal digit character, if it is one.
pub open spec fn digit_value(c: char) -> Option<nat> {
    if '0' <= c && c <= '9' {
        Some((c as nat - '0' as nat) as nat)
    } else {
        None
    }
}

/// Scans unsigned decimal text: digits with at most one point among them.
pub open spec fn scan_decimal(s: Seq<char>) -> Option<DecimalScan>
    decreases s.len(),
{
    if s.len() == 0 {
        Some(DecimalScan { digits: seq![], point: false, scale: 0 })
    } else {
        match scan_decimal(s.drop_last()) {
            None => None,
            Some(st) => match digit_value(s.last()) {
                Some(d) => Some(
                    DecimalScan {
                        digits: st.digits.push(d),
                        point: st.point,
                        scale: if st.point {
                            st.scale + 1
                        } else {
                            st.scale
                        },
                    },
                ),
                None => if s.last() == '.' && !st.point {
                    Some(DecimalScan { point: true, ..st })
                } else {
                    None
                },
            },
        }
    }
}

/// Whether the text starts with a sign character.
pub open spec fn has_sign(s: Seq<char>) -> bool {
    s.len() > 0 && (s[0] == '-' || s[0] == '+')
}

/// Whether the text starts with a minus sign.
pub open spec fn has_minus(s: Seq<char>) -> bool {
    s.len() > 0 && s[0] == '-'
}

/// The text without its sign.
pub open spec fn unsigned_part(s: Seq<char>) -> Seq<char> {
    if has_sign(s) {
        s.drop_first()
    } else {
        s
    }
}

/// Whether a character marks the start of an exponent.
pub open spec fn is_exponent_mark(c: char) -> bool {
    c == 'e' || c == 'E'
}

/// The text before the first exponent mark, or all of it where there is none.
pub open spec fn mantissa_part(s: Seq<char>) -> Seq<char>
    decreases s.len(),
{
    if exists|i: int| 0 <= i < s.len() && is_exponent_mark(#[trigger] s[i]) {
        mantissa_part(s.drop_last())
    } else {
        s
    }
}

/// The number that a run of decimal digits spells.
pub open spec fn digits_number(s: Seq<char>) -> nat
    decreases s.len(),
{
    if s.len() == 0 {
        0
    } else {
        digits_number(s.drop_last()) * 10 + match digit_value(s.last()) {
            Some(d) => d,
            None => 0,
        }
    }
}

/// Whether every character is a decimal digit.
pub open spec fn all_digits(s: Seq<char>) -> bool {
    forall|i: int| 0 <= i < s.len() ==> digit_value(#[trigger] s[i]) is Some
}

/// The exponent that the text after an exponent mark writes: an optional sign
/// and at least one digit, its magnitude capped at `EXPONENT_CAP`.
pub open spec fn exponent_of(t: Seq<char>) -> Option<int> {
    let b = unsigned_part(t);
    if b.len() >= 1 && all_digits(b) {
        let v: int = if digits_number(b) > EXPONENT_CAP {
            EXPONENT_CAP as int
        } else {
            digits_number(b) as int
        };
        Some(if has_minus(t) { -v } else { v })
    } else {
        None
    }
}

/// The coordinate that floating-point text stands for: an optional `+` or `-`,
/// at least one digit with at most one point among the digits, then optionally
/// `e` or `E`, an optional sign and at least one digit. Every digit is kept;
/// the exponent written is capped in magnitude at `EXPONENT_CAP`. Other text
/// (`inf`, `NaN`, blanks) stands for no coordinate.
pub open spec fn coord_of(s: Seq<char>) -> Option<CoordModel> {
    let u = unsigned_part(s);
    let m = mantissa_part(u);
    let e = if m.len() < u.len() {
        exponent_of(u.skip(m.len() as int + 1))
    } else {
        Some(0)
    };
    match (scan_decimal(m), e) {
        (Some(st), Some(e)) => if st.digits.len() >= 1 {
            Some(CoordModel { negative: has_minus(s), digits: st.digits, exponent: e - st.scale })
        } else {
            None
        },
        _ => None,
    }
}

proof fn lemma_mantissa_part(s: Seq<char>, i: int)
    requires
        0 <= i <= s.len(),
        forall|j: int| 0 <= j < i ==> !is_exponent_mark(#[trigger] s[j]),
        i < s.len() ==> is_exponent_mark(s[i]),
    ensures
        mantissa_part(s) == s.take(i),
    decreases s.len(),
{
    if i == s.len() {
        assert(s.take(i) =~= s);
    } else {
        assert(is_exponent_mark(s[i]));
        assert(mantissa_part(s) == mantissa_part(s.drop_last()));
        if i == s.len() - 1 {
            let d = s.drop_last();
            assert(!exists|j: int| 0 <= j < d.len() && is_exponent_mark(#[trigger] d[j])) by {
                if exists|j: int| 0 <= j < d.len() && is_exponent_mark(#[trigger] d[j]) {
                    let j = choose|j: int| 0 <= j < d.len() && is_exponent_mark(#[trigger] d[j]);
                    assert(is_exponent_mark(s[j]));
                }
            }
            assert(d =~= s.take(i));
            assert(mantissa_part(d) == d);
        } else {
            lemma_mantissa_part(s.drop_last(), i);
            assert(s.drop_last().take(i) =~= s.take(i));
        }
    }
}

proof fn lemma_scan_fails_after(s: Seq<char>, i: int)
    requires
        0 <= i <= s.len(),
        scan_decimal(s.take(i)) is None,
    ensures
        scan_decimal(s) is None,
    decreases s.len() - i,
{
    if i < s.len() {
        assert(s.take(i + 1).drop_last() =~= s.take(i));
        lemma_scan_fails_after(s, i + 1);
    } else {
        assert(s.take(i) =~= s);
    }
}

proof fn lemma_scan_scale(s: Seq<char>)
    requires
        scan_decimal(s) is Some,
    ensures
        scan_decimal(s).unwrap().scale <= s.len(),
        scan_decimal(s).unwrap().digits.len() <= s.len(),
    decreases s.len(),
{
    if s.len() > 0 {
        lemma_scan_scale(s.drop_last());
    }
}

/// Whether a character is an exponent mark, at run time.
fn exponent_mark(c: char) -> (r: bool)
    ensures
        r == is_exponent_mark(c),
{
    c == 'e' || c == 'E'
}

/// Reads the exponent written in `text` from `from` on: an optional sign and
/// at least one digit.
fn parse_exponent(text: &str, from: usize) -> (r: Option<i128>)
    requires
        from <= text@.len(),
    ensures
        r matches Some(e) ==> exponent_of(text@.skip(from as int)) == Some(e as int),
        r is None ==> exponent_of(text@.skip(from as int)) is None,
{
    let len = text.unicode_len();
    let ghost t = text@.skip(from as int);
    let negative = from < len && text.get_char(from) == '-';
    let start: usize = if from < len && (text.get_char(from) == '-' || text.get_char(from) == '+') {
        from + 1
    } else {
        from
    };
    let ghost b = unsigned_part(t);
    assert(b =~= text@.skip(start as int));
    assert(negative == has_minus(t));
    if start == len {
        return None;
    }
    let mut value: u64 = 0;
    let mut i: usize = start;
    while i < len
        invariant
            len == text@.len(),
            start <= i <= len,
            b == text@.skip(start as int),
            t == text@.skip(from as int),
            b == unsigned_part(t),
            negative == has_minus(t),
            value <= EXPONENT_CAP,
            all_digits(b.take(i - start)),
            value == (if digits_number(b.take(i - start)) > EXPONENT_CAP {
                EXPONENT_CAP as int
            } else {
                digits_number(b.take(i - start)) as int
            }),
        decreases len - i,
    {
        let c = text.get_char(i);
        let ghost prev = b.take(i - start);
        let ghost next = b.take(i + 1 - start);
        assert(next.drop_last() =~= prev);
        assert(next.last() == c);
        if !('0' <= c && c <= '9') {
            assert(!all_digits(b)) by {
                assert(digit_value(c) is None);
                assert(b[i - start] == c);
            }
            return None;
        }
        let d = (c as u32 - '0' as u32) as u64;
        assert(forall|j: int| 0 <= j < next.len() ==> digit_value(#[trigger] next[j]) is Some) by {
            assert forall|j: int| 0 <= j < next.len() implies digit_value(#[trigger] next[j]) is Some by {
                if j < prev.len() {
                    assert(next[j] == prev[j]);
                }
            }
        }
        if value == EXPONENT_CAP || value * 10 + d > EXPONENT_CAP {
            value = EXPONENT_CAP;
        } else {
            value = value * 10 + d;
        }
        i = i + 1;
    }
    assert(b.take(len - start) =~= b);
    let magnitude = value as i128;
    Some(if negative { -magnitude } else { magnitude })
}

impl Coord {
    /// Reads a coordinate from floating-point text; `None` where the text is
    /// not one.
    pub fn parse(text: &str) -> (r: Option<Coord>)
        ensures
            r matches Some(c) ==> coord_of(text@) == Some(c@),
            r is None ==> coord_of(text@) is None,
    {
        let len = text.unicode_len();
        let ghost s = text@;
        let negative = len > 0 && text.get_char(0) == '-';
        let start: usize = if len > 0 && (text.get_char(0) == '-' || text.get_char(0) == '+') {
            1
        } else {
            0
        };
        let ghost u = unsigned_part(s);
        assert(u =~= s.skip(start as int));
        let mut mark: usize = start;
        while mark < len && !exponent_mark(text.get_char(mark))
            invariant
                len == s.len(),
                s == text@,
                start <= mark <= len,
                u == s.skip(start as int),
                forall|j: int| 0 <= j < mark - start ==> !is_exponent_mark(#[trigger] u[j]),
            decreases len - mark,
        {
            mark = mark + 1;
        }
        let ghost m = u.take(mark - start);
        proof {
            lemma_mantissa_part(u, mark - start);
        }
        let mut digits: Vec<u8> = Vec::new();
        let mut point = false;
        let mut scale: usize = 0;
        assert(digits@.map_values(|d: u8| d as nat) =~= Seq::<nat>::empty());
        assert(m.take(0) =~= Seq::<char>::empty());
        let mut i: usize = start;
        while i < mark
            invariant
                s == text@,
                len == s.len(),
                start <= i <= mark <= len,
                u == s.skip(start as int),
                m == u.take(mark - start),
                m == mantissa_part(u),
                u == unsigned_part(s),
                negative == has_minus(s),
                scan_decimal(m.take(i - start)) == Some(
                    DecimalScan {
                        digits: digits@.map_values(|d: u8| d as nat),
                        point,
                        scale: scale as nat,
                    },
                ),
            decreases mark - i,
        {
            let c = text.get_char(i);
            let ghost prev = m.take(i - start);
            assert(m.take(i + 1 - start).drop_last() =~= prev);
            assert(m.take(i + 1 - start).last() == c);
            proof {
                lemma_scan_scale(prev);
            }
            if '0' <= c && c <= '9' {
                let d = (c as u32 - '0' as u32) as u8;
                digits.push(d);
                assert(digits@.map_values(|d: u8| d as nat) =~= scan_decimal(prev).unwrap().digits.push(
                    d as nat,
                ));
                if point {
                    scale = scale + 1;
                }
            } else if c == '.' && !point {
                point = true;
            } else {
                proof {
                    assert(digit_value(c) is None);
                    assert(scan_decimal(m.take(i + 1 - start)) is None);
                    lemma_scan_fails_after(m, i + 1 - start);
                }
                return None;
            }
            i = i + 1;
        }
        assert(m.take(mark - start) =~= m);
        if digits.len() == 0 {
            return None;
        }
        let written: i128 = if mark < len {
            assert(u.skip(m.len() as int + 1) =~= s.skip(mark as int + 1));
            match parse_exponent(text, mark + 1) {
                Some(e) => e,
                None => {
                    return None;
                },
            }
        } else {
            0
        };
        let exponent = written - scale as i128;
        Some(Coord { negative, digits, exponent })
    }
}

} // verus!
