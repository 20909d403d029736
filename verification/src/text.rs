//! Character-level utilities shared by the address codec: string equality,
//! decimal parsing and rendering, and fixed-width hexadecimal rendering.

use vstd::prelude::*;

verus! {

/// True for the characters '0' through '9'.
pub open spec fn is_dec_digit(c: char) -> bool {
    48 <= c as u32 <= 57
}

/// Numeric value of a decimal digit character.
pub open spec fn dec_digit_val(c: char) -> int {
    c as u32 - 48
}

/// The digit character for `d`, meaningful for 0 <= d <= 9.
pub open spec fn dec_char(d: int) -> char {
    if d == 0 {
        '0'
    } else if d == 1 {
        '1'
    } else if d == 2 {
        '2'
    } else if d == 3 {
        '3'
    } else if d == 4 {
        '4'
    } else if d == 5 {
        '5'
    } else if d == 6 {
        '6'
    } else if d == 7 {
        '7'
    } else if d == 8 {
        '8'
    } else {
        '9'
    }
}

/// The lower-case hexadecimal digit character for `d`, meaningful for 0 <= d <= 15.
pub open spec fn hex_char(d: int) -> char {
    if d < 10 {
        dec_char(d)
    } else if d == 10 {
        'a'
    } else if d == 11 {
        'b'
    } else if d == 12 {
        'c'
    } else if d == 13 {
        'd'
    } else if d == 14 {
        'e'
    } else {
        'f'
    }
}

/// Value of a digit string, most significant digit first.
pub open spec fn dec_val(s: Seq<char>) -> int
    decreases s.len(),
{
    if s.len() == 0 {
        0
    } else {
        dec_val(s.drop_last()) * 10 + dec_digit_val(s.last())
    }
}

pub open spec fn all_dec_digits(s: Seq<char>) -> bool {
    forall|i: int| 0 <= i < s.len() ==> is_dec_digit(#[trigger] s[i])
}

/// Canonical decimal rendering of `n`: no leading zeros, "0" for zero.
pub open spec fn dec_digits(n: nat) -> Seq<char>
    decreases n,
{
    if n < 10 {
        seq![dec_char(n as int)]
    } else {
        dec_digits(n / 10).push(dec_char((n % 10) as int))
    }
}

/// Canonical decimal rendering of a signed value.
pub open spec fn dec_i32(v: int) -> Seq<char> {
    if v < 0 {
        seq!['-'] + dec_digits((-v) as nat)
    } else {
        dec_digits(v as nat)
    }
}

/// Fixed-width lower-case hexadecimal rendering of `v`, most significant
/// digit first, meaningful for 0 <= v < 16^w.
pub open spec fn hex_digits(v: int, w: nat) -> Seq<char>
    decreases w,
{
    if w == 0 {
        seq![]
    } else {
        hex_digits(v / 16, (w - 1) as nat).push(hex_char(v % 16))
    }
}

/// What `str::parse::<i32>` accepts and returns: an optional single sign,
/// then one or more decimal digits, within the `i32` range.
pub open spec fn spec_parse_i32(s: Seq<char>) -> Option<i32> {
    let digits = if s.len() > 0 && (s[0] == '+' || s[0] == '-') {
        s.drop_first()
    } else {
        s
    };
    let neg = s.len() > 0 && s[0] == '-';
    if digits.len() == 0 || !all_dec_digits(digits) {
        None
    } else if neg {
        if dec_val(digits) <= 0x8000_0000 {
            Some((-dec_val(digits)) as i32)
        } else {
            None
        }
    } else {
        if dec_val(digits) <= 0x7fff_ffff {
            Some(dec_val(digits) as i32)
        } else {
            None
        }
    }
}

/// Character-wise string equality, decided without assuming anything about
/// how the two strings were produced.
pub fn str_eq(a: &str, b: &str) -> (r: bool)
    ensures
        r == (a@ == b@),
{
    let n = a.unicode_len();
    if n != b.unicode_len() {
        return false;
    }
    let mut i: usize = 0;
    while i < n
        invariant
            n == a@.len(),
            n == b@.len(),
            0 <= i <= n,
            forall|j: int| 0 <= j < i ==> a@[j] == b@[j],
        decreases n - i,
    {
        if a.get_char(i) != b.get_char(i) {
            return false;
        }
        i += 1;
    }
    proof {
        assert(a@ =~= b@);
    }
    true
}

proof fn lemma_dec_val_nonneg(s: Seq<char>)
    requires
        all_dec_digits(s),
    ensures
        dec_val(s) >= 0,
    decreases s.len(),
{
    if s.len() > 0 {
        lemma_dec_val_nonneg(s.drop_last());
    }
}

/// Appending digits only grows the value of a digit string.
proof fn lemma_dec_val_prefix_le(s: Seq<char>, i: int)
    requires
        all_dec_digits(s),
        0 <= i <= s.len(),
    ensures
        dec_val(s.subrange(0, i)) <= dec_val(s),
    decreases s.len() - i,
{
    if i == s.len() {
        assert(s.subrange(0, i) =~= s);
    } else {
        let p = s.subrange(0, i);
        let q = s.subrange(0, i + 1);
        assert(q.drop_last() =~= p);
        lemma_dec_val_nonneg(p);
        lemma_dec_val_prefix_le(s, i + 1);
    }
}

/// Exactly `str::parse::<i32>` on the characters of `s`.
pub fn parse_i32(s: &str) -> (r: Option<i32>)
    ensures
        r == spec_parse_i32(s@),
{
    let n = s.unicode_len();
    if n == 0 {
        return None;
    }
    let c0 = s.get_char(0);
    let neg = c0 == '-';
    let start: usize = if c0 == '-' || c0 == '+' {
        1
    } else {
        0
    };
    let ghost digits = if start == 1 {
        s@.drop_first()
    } else {
        s@
    };
    if start == 1 && n == 1 {
        return None;
    }
    let bound: u64 = if neg {
        0x8000_0000
    } else {
        0x7fff_ffff
    };
    let mut acc: u64 = 0;
    let mut i: usize = start;
    while i < n
        invariant
            n == s@.len(),
            n > 0,
            start <= i <= n,
            start == 0 || start == 1,
            start == 1 <==> (s@[0] == '+' || s@[0] == '-'),
            neg <==> s@[0] == '-',
            start == 1 ==> digits == s@.drop_first(),
            start == 0 ==> digits == s@,
            digits.len() == n - start,
            digits.len() > 0,
            forall|j: int| 0 <= j < digits.len() ==> digits[j] == s@[j + start],
            all_dec_digits(digits.subrange(0, i - start)),
            acc == dec_val(digits.subrange(0, i - start)),
            acc <= bound,
            neg ==> bound == 0x8000_0000,
            !neg ==> bound == 0x7fff_ffff,
        decreases n - i,
    {
        let c = s.get_char(i);
        let u = c as u32;
        proof {
            assert(digits[i - start] == c);
        }
        if u < 48 || u > 57 {
            proof {
                assert(!is_dec_digit(digits[i - start]));
                assert(!all_dec_digits(digits));
            }
            return None;
        }
        let d = (u - 48) as u64;
        let acc2: u64 = acc * 10 + d;
        proof {
            let p = digits.subrange(0, i - start);
            let q = digits.subrange(0, i + 1 - start);
            assert(q.drop_last() =~= p);
            assert(q.last() == digits[i - start]);
            assert(dec_digit_val(c) == d);
            assert(dec_val(q) == acc2);
            assert forall|j: int| 0 <= j < q.len() implies is_dec_digit(#[trigger] q[j]) by {
                if j < i - start {
                    assert(q[j] == p[j]);
                    assert(is_dec_digit(p[j]));
                } else {
                    assert(q[j] == c);
                }
            }
        }
        if acc2 > bound {
            proof {
                if all_dec_digits(digits) {
                    lemma_dec_val_prefix_le(digits, i + 1 - start);
                    assert(dec_val(digits) >= dec_val(digits.subrange(0, i + 1 - start)));
                    assert(dec_val(digits) > bound);
                }
            }
            return None;
        }
        acc = acc2;
        i += 1;
    }
    proof {
        assert(digits.subrange(0, n - start) =~= digits);
        assert(acc == dec_val(digits));
        assert(all_dec_digits(digits));
    }
    if neg {
        let v: i64 = -(acc as i64);
        proof {
            assert(-0x8000_0000 <= v <= 0);
            assert(v as i32 as int == -(dec_val(digits)));
        }
        Some(v as i32)
    } else {
        proof {
            assert(acc as i32 as int == dec_val(digits));
        }
        Some(acc as i32)
    }
}

/// The digit character of `d` carries the value `d`.
pub proof fn lemma_dec_char_val(d: int)
    requires
        0 <= d <= 9,
    ensures
        is_dec_digit(dec_char(d)),
        dec_digit_val(dec_char(d)) == d,
{
}

/// Appends the digit character for `d`.
fn append_dec_char(s: &mut String, d: u8)
    requires
        d <= 9,
    ensures
        final(s)@ == old(s)@.push(dec_char(d as int)),
{
    let ghost s0 = s@;
    match d {
        0 => {
            proof {
                reveal_strlit("0");
            }
            s.append("0");
        },
        1 => {
            proof {
                reveal_strlit("1");
            }
            s.append("1");
        },
        2 => {
            proof {
                reveal_strlit("2");
            }
            s.append("2");
        },
        3 => {
            proof {
                reveal_strlit("3");
            }
            s.append("3");
        },
        4 => {
            proof {
                reveal_strlit("4");
            }
            s.append("4");
        },
        5 => {
            proof {
                reveal_strlit("5");
            }
            s.append("5");
        },
        6 => {
            proof {
                reveal_strlit("6");
            }
            s.append("6");
        },
        7 => {
            proof {
                reveal_strlit("7");
            }
            s.append("7");
        },
        8 => {
            proof {
                reveal_strlit("8");
            }
            s.append("8");
        },
        _ => {
            proof {
                reveal_strlit("9");
            }
            s.append("9");
        },
    }
    proof {
        assert(s@ =~= s0.push(dec_char(d as int)));
    }
}

/// Appends the lower-case hexadecimal digit character for `d`.
fn append_hex_char(s: &mut String, d: u8)
    requires
        d <= 15,
    ensures
        final(s)@ == old(s)@.push(hex_char(d as int)),
{
    if d <= 9 {
        append_dec_char(s, d);
    } else {
        let ghost s0 = s@;
        match d {
            10 => {
                proof {
                    reveal_strlit("a");
                }
                s.append("a");
            },
            11 => {
                proof {
                    reveal_strlit("b");
                }
                s.append("b");
            },
            12 => {
                proof {
                    reveal_strlit("c");
                }
                s.append("c");
            },
            13 => {
                proof {
                    reveal_strlit("d");
                }
                s.append("d");
            },
            14 => {
                proof {
                    reveal_strlit("e");
                }
                s.append("e");
            },
            _ => {
                proof {
                    reveal_strlit("f");
                }
                s.append("f");
            },
        }
        proof {
            assert(s@ =~= s0.push(hex_char(d as int)));
        }
    }
}

/// Appends the canonical decimal rendering of `n`.
pub fn append_u32_dec(s: &mut String, n: u32)
    ensures
        final(s)@ == old(s)@ + dec_digits(n as nat),
    decreases n,
{
    let ghost s0 = s@;
    if n < 10 {
        append_dec_char(s, n as u8);
        proof {
            assert(s@ =~= s0 + dec_digits(n as nat));
        }
    } else {
        append_u32_dec(s, n / 10);
        append_dec_char(s, (n % 10) as u8);
        proof {
            assert(s@ =~= s0 + dec_digits(n as nat));
        }
    }
}

/// Appends the canonical decimal rendering of `v`, with a leading '-' when
/// negative.
pub fn append_i32_dec(s: &mut String, v: i32)
    ensures
        final(s)@ == old(s)@ + dec_i32(v as int),
{
    let ghost s0 = s@;
    if v >= 0 {
        append_u32_dec(s, v as u32);
    } else {
        proof {
            reveal_strlit("-");
        }
        s.append("-");
        let mag: u32 = (-(v as i64)) as u32;
        proof {
            assert(mag as int == -(v as int));
        }
        append_u32_dec(s, mag);
        proof {
            assert(s@ =~= s0 + dec_i32(v as int));
        }
    }
}

/// Appends exactly `w` lower-case hexadecimal digit characters for `v`,
/// most significant first.
pub fn append_hex_fixed(s: &mut String, v: u64, w: u32)
    ensures
        final(s)@ == old(s)@ + hex_digits(v as int, w as nat),
    decreases w,
{
    let ghost s0 = s@;
    if w == 0 {
        proof {
            assert(s@ =~= s0 + hex_digits(v as int, 0));
        }
    } else {
        append_hex_fixed(s, v / 16, w - 1);
        append_hex_char(s, (v % 16) as u8);
        proof {
            assert(s@ =~= s0 + hex_digits(v as int, w as nat));
        }
    }
}

/// The canonical rendering of `n` is made of digits, is never empty, and
/// reads back as `n`.
pub proof fn lemma_dec_digits_value(n: nat)
    ensures
        all_dec_digits(dec_digits(n)),
        dec_digits(n).len() >= 1,
        dec_val(dec_digits(n)) == n,
        dec_digits(n)[0] != '-',
        dec_digits(n)[0] != '+',
    decreases n,
{
    if n < 10 {
        let q = dec_digits(n);
        lemma_dec_char_val(n as int);
        assert(q == seq![dec_char(n as int)]);
        assert(q.drop_last() =~= Seq::<char>::empty());
        assert(q.last() == dec_char(n as int));
        assert(dec_val(Seq::<char>::empty()) == 0);
        assert(dec_val(q) == dec_digit_val(dec_char(n as int)));
    } else {
        lemma_dec_digits_value(n / 10);
        lemma_dec_char_val((n % 10) as int);
        let p = dec_digits(n / 10);
        let q = dec_digits(n);
        assert(q == p.push(dec_char((n % 10) as int)));
        assert(q.drop_last() =~= p);
        assert(q.last() == dec_char((n % 10) as int));
        assert(dec_val(q) == dec_val(p) * 10 + (n % 10));
    }
}

/// Canonical renderings parse back to the value they were made from.
pub proof fn lemma_parse_canonical_i32(v: int)
    requires
        -0x8000_0000 <= v <= 0x7fff_ffff,
    ensures
        spec_parse_i32(dec_i32(v)) == Some(v as i32),
{
    if v >= 0 {
        lemma_dec_digits_value(v as nat);
    } else {
        lemma_dec_digits_value((-v) as nat);
        let s = dec_i32(v);
        assert(s[0] == '-');
        assert(s.drop_first() =~= dec_digits((-v) as nat));
    }
}

} // verus!
