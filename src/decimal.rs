//! Fixed-point decimal numbers: coordinates, lengths and speeds are held as
//! whole millionths in an `i64`, so "1.2" is `1_200_000`.
use vstd::prelude::*;

verus! {

/// Number of decimal places that a fixed-point value keeps.
pub const FRACTION_DIGITS: usize = 6;

/// `10` raised to `n`.
pub open spec fn pow10(n: nat) -> nat
    decreases n,
{
    if n == 0 {
        1
    } else {
        10 * pow10((n - 1) as nat)
    }
}

pub open spec fn is_digit(c: char) -> bool {
    '0' <= c && c <= '9'
}

pub open spec fn digit_value(c: char) -> nat {
    (c as u32 - '0' as u32) as nat
}

/// Reads the rest of an unsigned decimal: `acc` holds the digits read so far,
/// `frac` how many of them follow the point, `dot` whether the point was
/// seen, `any` whether a digit was seen. The result is in millionths: digits
/// after the sixth one behind the point are dropped, which truncates toward
/// zero. A second point or any other character makes it `None`.
pub open spec fn scan_unsigned(s: Seq<char>, acc: nat, frac: nat, dot: bool, any: bool) -> Option<
    nat,
>
    decreases s.len(),
{
    if s.len() == 0 {
        if any && frac <= FRACTION_DIGITS {
            Some(acc * pow10((FRACTION_DIGITS - frac) as nat))
        } else {
            None
        }
    } else if is_digit(s[0]) {
        if dot && frac >= FRACTION_DIGITS {
            scan_unsigned(s.drop_first(), acc, frac, dot, true)
        } else {
            scan_unsigned(
                s.drop_first(),
                acc * 10 + digit_value(s[0]),
                if dot {
                    frac + 1
                } else {
                    frac
                },
                dot,
                true,
            )
        }
    } else if s[0] == '.' && !dot {
        scan_unsigned(s.drop_first(), acc, frac, true, any)
    } else {
        None
    }
}

/// The millionths that a decimal text stands for: an optional sign, digits,
/// and digits after an optional point ("-1.5", "+2", ".25", "3."), of which
/// six count. `None` for any other text and for values whose magnitude exceeds
/// `i64::MAX`.
pub open spec fn decimal_value(s: Seq<char>) -> Option<int> {
    let neg = s.len() > 0 && s[0] == '-';
    let body = if s.len() > 0 && (s[0] == '-' || s[0] == '+') {
        s.drop_first()
    } else {
        s
    };
    match scan_unsigned(body, 0, 0, false, false) {
        Some(m) => if m <= i64::MAX {
            Some(
                if neg {
                    -m
                } else {
                    m as int
                },
            )
        } else {
            None
        },
        None => None,
    }
}

proof fn lemma_pow10_pos(n: nat)
    ensures
        pow10(n) >= 1,
    decreases n,
{
    if n > 0 {
        lemma_pow10_pos((n - 1) as nat);
    }
}

/// The scanned value never falls below what was already read.
proof fn lemma_scan_at_least(s: Seq<char>, acc: nat, frac: nat, dot: bool, any: bool)
    ensures
        scan_unsigned(s, acc, frac, dot, any) is Some ==> scan_unsigned(s, acc, frac, dot, any)->0
            >= acc,
    decreases s.len(),
{
    if s.len() == 0 {
        if any && frac <= FRACTION_DIGITS {
            lemma_pow10_pos((FRACTION_DIGITS - frac) as nat);
            assert(acc * pow10((FRACTION_DIGITS - frac) as nat) >= acc) by (nonlinear_arith)
                requires
                    pow10((FRACTION_DIGITS - frac) as nat) >= 1,
            ;
        }
    } else if is_digit(s[0]) {
        if dot && frac >= FRACTION_DIGITS {
            lemma_scan_at_least(s.drop_first(), acc, frac, dot, true);
        } else {
            lemma_scan_at_least(
                s.drop_first(),
                acc * 10 + digit_value(s[0]),
                if dot {
                    frac + 1
                } else {
                    frac
                },
                dot,
                true,
            );
        }
    } else if s[0] == '.' && !dot {
        lemma_scan_at_least(s.drop_first(), acc, frac, true, any);
    }
}

/// Reads the decimal text `s[from..to]` as millionths.
pub fn parse_decimal(s: &Vec<char>, from: usize, to: usize) -> (r: Option<i64>)
    requires
        from <= to <= s@.len(),
    ensures
        r is Some <==> decimal_value(s@.subrange(from as int, to as int)) is Some,
        r is Some ==> r->0 as int == decimal_value(s@.subrange(from as int, to as int))->0,
{
    let ghost text = s@.subrange(from as int, to as int);
    let mut i: usize = from;
    let mut neg = false;
    if from < to && (s[from] == '-' || s[from] == '+') {
        neg = s[from] == '-';
        i = from + 1;
    }
    let ghost body = s@.subrange(i as int, to as int);
    assert(body =~= if text.len() > 0 && (text[0] == '-' || text[0] == '+') {
        text.drop_first()
    } else {
        text
    });
    assert(decimal_value(text) == match scan_unsigned(body, 0, 0, false, false) {
        Some(m) => if m <= i64::MAX {
            Some(
                if neg {
                    -m
                } else {
                    m as int
                },
            )
        } else {
            None
        },
        None => None,
    });
    let mut acc: u64 = 0;
    let mut frac: usize = 0;
    let mut dot = false;
    let mut any = false;
    while i < to
        invariant
            from <= i <= to <= s@.len(),
            text == s@.subrange(from as int, to as int),
            acc <= i64::MAX,
            frac <= FRACTION_DIGITS,
            decimal_value(text) == match scan_unsigned(body, 0, 0, false, false) {
                Some(m) => if m <= i64::MAX {
                    Some(
                        if neg {
                            -m
                        } else {
                            m as int
                        },
                    )
                } else {
                    None
                },
                None => None,
            },
            scan_unsigned(body, 0, 0, false, false) == scan_unsigned(
                s@.subrange(i as int, to as int),
                acc as nat,
                frac as nat,
                dot,
                any,
            ),
        decreases to - i,
    {
        let ghost rest = s@.subrange(i as int, to as int);
        assert(rest.drop_first() =~= s@.subrange(i + 1, to as int));
        let c = s[i];
        if '0' <= c && c <= '9' {
            if dot && frac >= FRACTION_DIGITS {
                any = true;
                i = i + 1;
                continue;
            }
            let d: u64 = (c as u32 - '0' as u32) as u64;
            let next: u128 = (acc as u128) * 10 + (d as u128);
            if next > i64::MAX as u128 {
                proof {
                    lemma_scan_at_least(
                        rest.drop_first(),
                        (acc * 10 + d) as nat,
                        if dot {
                            (frac + 1) as nat
                        } else {
                            frac as nat
                        },
                        dot,
                        true,
                    );
                }
                return None;
            }
            acc = next as u64;
            if dot {
                frac = frac + 1;
            }
            any = true;
        } else if c == '.' && !dot {
            dot = true;
        } else {
            return None;
        }
        i = i + 1;
    }
    assert(s@.subrange(i as int, to as int) =~= Seq::<char>::empty());
    if !any {
        return None;
    }
    let mut k: usize = frac;
    let ghost start = acc;
    let ghost total = start as nat * pow10((FRACTION_DIGITS - frac) as nat);
    assert(scan_unsigned(body, 0, 0, false, false) == Some(total));
    while k < FRACTION_DIGITS
        invariant
            frac <= k <= FRACTION_DIGITS,
            text == s@.subrange(from as int, to as int),
            acc <= i64::MAX,
            scan_unsigned(body, 0, 0, false, false) == Some(total),
            decimal_value(text) == (if total <= i64::MAX {
                Some(
                    if neg {
                        -total
                    } else {
                        total as int
                    },
                )
            } else {
                None::<int>
            }),
            total == start as nat * pow10((FRACTION_DIGITS - frac) as nat),
            acc as nat * pow10((FRACTION_DIGITS - k) as nat) == start as nat * pow10(
                (FRACTION_DIGITS - frac) as nat,
            ),
        decreases FRACTION_DIGITS - k,
    {
        let next: u128 = (acc as u128) * 10;
        proof {
            assert(pow10((FRACTION_DIGITS - k) as nat) == 10 * pow10(
                (FRACTION_DIGITS - (k + 1)) as nat,
            ));
            lemma_pow10_pos((FRACTION_DIGITS - (k + 1)) as nat);
            assert(acc as nat * pow10((FRACTION_DIGITS - k) as nat) == (acc as nat * 10) * pow10(
                (FRACTION_DIGITS - (k + 1)) as nat,
            )) by (nonlinear_arith)
                requires
                    pow10((FRACTION_DIGITS - k) as nat) == 10 * pow10(
                        (FRACTION_DIGITS - (k + 1)) as nat,
                    ),
            ;
            assert((acc as nat * 10) * pow10((FRACTION_DIGITS - (k + 1)) as nat) >= acc as nat
                * 10) by (nonlinear_arith)
                requires
                    pow10((FRACTION_DIGITS - (k + 1)) as nat) >= 1,
            ;
        }
        if next > i64::MAX as u128 {
            return None;
        }
        acc = next as u64;
        k = k + 1;
    }
    assert(pow10(0) == 1);
    assert(acc as nat == total) by (nonlinear_arith)
        requires
            acc as nat * pow10(0) == total,
            pow10(0) == 1,
    ;
    if neg {
        Some(-(acc as i64))
    } else {
        Some(acc as i64)
    }
}

} // verus!
