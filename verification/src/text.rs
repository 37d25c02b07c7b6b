//! Rendering the recorded operation description as text.
//!
//! The description shown beside the canvas names the operation kind and
//! the three requested totals.  A fixed-point scalar prints as its whole
//! units and, when the fraction is not zero, a decimal point and the
//! fraction's six digits with trailing zeros dropped: one and a half
//! units print as `1.5`.

use crate::fixed::ONE;
use crate::operation::OpText;
use vstd::prelude::*;
use vstd::string::StringExecFns;

verus! {

/// The character of one decimal digit.
pub open spec fn digit_char(d: nat) -> char {
    if d == 0 {
        '0'
    } else if d == 1 {
        '1'
    } else if d == 2 {
        '2'
    } else if d == 3 {
        '3'
    } else if d == 4 {
        '4'
    } else if d == 5 {
        '5'
    } else if d == 6 {
        '6'
    } else if d == 7 {
        '7'
    } else if d == 8 {
        '8'
    } else {
        '9'
    }
}

/// The decimal digits of a natural number, most significant first.
pub open spec fn decimal_digits(n: nat) -> Seq<char>
    decreases n,
{
    if n < 10 {
        seq![digit_char(n)]
    } else {
        decimal_digits(n / 10).push(digit_char(n % 10))
    }
}

/// The last `k` decimal digits of a natural number, most significant
/// first, zero-padded at the front.
pub open spec fn padded_digits(n: nat, k: nat) -> Seq<char>
    decreases k,
{
    if k == 0 {
        Seq::empty()
    } else {
        padded_digits(n / 10, (k - 1) as nat).push(digit_char(n % 10))
    }
}

/// The sequence with its trailing zero characters dropped.
pub open spec fn trim_trailing_zeros(s: Seq<char>) -> Seq<char>
    decreases s.len(),
{
    if s.len() == 0 || s.last() != '0' {
        s
    } else {
        trim_trailing_zeros(s.drop_last())
    }
}

/// The text of a fixed-point scalar.
pub open spec fn fixed_text(v: int) -> Seq<char> {
    let mag = if v < 0 {
        -v
    } else {
        v
    };
    let sign = if v < 0 {
        seq!['-']
    } else {
        Seq::<char>::empty()
    };
    let units = decimal_digits((mag / (ONE as int)) as nat);
    if mag % (ONE as int) == 0 {
        sign + units
    } else {
        sign + units + seq!['.'] + trim_trailing_zeros(
            padded_digits((mag % (ONE as int)) as nat, 6),
        )
    }
}

/// The whole description line for a recorded operation.
pub open spec fn op_line(t: OpText) -> Seq<char> {
    match t {
        OpText::Empty => Seq::<char>::empty(),
        OpText::Complete => "Complete."@,
        OpText::Rotation { x, y, z } => "Rotation. X: "@ + fixed_text(x as int) + " Y: "@
            + fixed_text(y as int) + " Z: "@ + fixed_text(z as int),
        OpText::Scale { x, y, z } => "Scale. X: "@ + fixed_text(x as int) + " Y: "@ + fixed_text(
            y as int,
        ) + " Z: "@ + fixed_text(z as int),
        OpText::Translate { x, y, z } => "Translate. X: "@ + fixed_text(x as int) + " Y: "@
            + fixed_text(y as int) + " Z: "@ + fixed_text(z as int),
    }
}

/// Appends one decimal digit character.
fn push_digit(s: &mut String, d: u64)
    requires
        d < 10,
    ensures
        final(s)@ == old(s)@ + seq![digit_char(d as nat)],
{
    if d == 0 {
        s.append("0");
        proof {
            reveal_strlit("0");
            assert("0"@ =~= seq!['0']);
        }
    } else if d == 1 {
        s.append("1");
        proof {
            reveal_strlit("1");
            assert("1"@ =~= seq!['1']);
        }
    } else if d == 2 {
        s.append("2");
        proof {
            reveal_strlit("2");
            assert("2"@ =~= seq!['2']);
        }
    } else if d == 3 {
        s.append("3");
        proof {
            reveal_strlit("3");
            assert("3"@ =~= seq!['3']);
        }
    } else if d == 4 {
        s.append("4");
        proof {
            reveal_strlit("4");
            assert("4"@ =~= seq!['4']);
        }
    } else if d == 5 {
        s.append("5");
        proof {
            reveal_strlit("5");
            assert("5"@ =~= seq!['5']);
        }
    } else if d == 6 {
        s.append("6");
        proof {
            reveal_strlit("6");
            assert("6"@ =~= seq!['6']);
        }
    } else if d == 7 {
        s.append("7");
        proof {
            reveal_strlit("7");
            assert("7"@ =~= seq!['7']);
        }
    } else if d == 8 {
        s.append("8");
        proof {
            reveal_strlit("8");
            assert("8"@ =~= seq!['8']);
        }
    } else {
        s.append("9");
        proof {
            reveal_strlit("9");
            assert("9"@ =~= seq!['9']);
        }
    }
}

/// Appends the decimal digits of a natural number.
fn push_decimal(s: &mut String, n: u64)
    ensures
        final(s)@ == old(s)@ + decimal_digits(n as nat),
    decreases n,
{
    if n < 10 {
        push_digit(s, n);
    } else {
        push_decimal(s, n / 10);
        push_digit(s, n % 10);
        proof {
            assert(old(s)@ + decimal_digits((n / 10) as nat) + seq![digit_char((n % 10) as nat)]
                =~= old(s)@ + decimal_digits(n as nat));
        }
    }
}

/// Appends exactly `k` decimal digits of a natural number, zero-padded.
fn push_padded(s: &mut String, n: u64, k: u64)
    ensures
        final(s)@ == old(s)@ + padded_digits(n as nat, k as nat),
    decreases k,
{
    if k == 0 {
        proof {
            assert(old(s)@ + padded_digits(n as nat, 0) =~= old(s)@);
        }
    } else {
        push_padded(s, n / 10, k - 1);
        push_digit(s, n % 10);
        proof {
            assert(old(s)@ + padded_digits((n / 10) as nat, (k - 1) as nat) + seq![
                digit_char((n % 10) as nat),
            ] =~= old(s)@ + padded_digits(n as nat, k as nat));
        }
    }
}

/// Dropping a trailing zero digit: when the last of `k` digits is zero,
/// the trimmed text of `n` to `k` digits is the trimmed text of `n / 10`
/// to `k - 1` digits.
proof fn lemma_trim_step(n: nat, k: nat)
    requires
        k > 0,
        n % 10 == 0,
    ensures
        trim_trailing_zeros(padded_digits(n, k)) == trim_trailing_zeros(
            padded_digits(n / 10, (k - 1) as nat),
        ),
{
    assert(padded_digits(n, k).last() == digit_char(n % 10));
    assert(padded_digits(n, k).drop_last() =~= padded_digits(n / 10, (k - 1) as nat));
}

/// A digit run that does not end in a zero digit is already trimmed.
proof fn lemma_trim_done(n: nat, k: nat)
    requires
        k == 0 || n % 10 != 0,
    ensures
        trim_trailing_zeros(padded_digits(n, k)) == padded_digits(n, k),
{
    if k == 0 {
        assert(padded_digits(n, 0).len() == 0);
    } else {
        assert(padded_digits(n, k).last() == digit_char(n % 10));
        assert(digit_char(n % 10) != '0');
    }
}

/// Renders a fixed-point scalar: sign, whole units, and the non-zero
/// fraction with trailing zeros dropped.
pub fn fixed_point_string(v: i64) -> (r: String)
    ensures
        r@ == fixed_text(v as int),
{
    let mut s = String::new();
    let mag: u64 = if v >= 0 {
        v as u64
    } else {
        ((-(v + 1)) as u64) + 1
    };
    proof {
        assert(mag == (if (v as int) < 0 { -(v as int) } else { v as int }));
    }
    if v < 0 {
        s.append("-");
        proof {
            reveal_strlit("-");
            assert("-"@ =~= seq!['-']);
        }
    }
    let units: u64 = mag / 1_000_000;
    let frac: u64 = mag % 1_000_000;
    push_decimal(&mut s, units);
    if frac != 0 {
        s.append(".");
        proof {
            reveal_strlit(".");
            assert("."@ =~= seq!['.']);
        }
        // Drop the trailing zero digits of the six-digit fraction.
        let mut t: u64 = frac;
        let mut k: u64 = 6;
        while k > 0 && t % 10 == 0
            invariant
                k <= 6,
                trim_trailing_zeros(padded_digits(frac as nat, 6)) == trim_trailing_zeros(
                    padded_digits(t as nat, k as nat),
                ),
            decreases k,
        {
            proof {
                lemma_trim_step(t as nat, k as nat);
            }
            t = t / 10;
            k = k - 1;
        }
        proof {
            lemma_trim_done(t as nat, k as nat);
        }
        push_padded(&mut s, t, k);
    }
    proof {
        if (v as int) < 0 {
            if frac == 0 {
                assert(s@ =~= fixed_text(v as int));
            } else {
                assert(s@ =~= fixed_text(v as int));
            }
        } else {
            assert(Seq::<char>::empty() + s@ =~= s@);
            assert(s@ =~= fixed_text(v as int));
        }
    }
    s
}

/// Renders the recorded operation description, for display beside the
/// canvas.
pub fn render_op_text(t: &OpText) -> (r: String)
    ensures
        r@ == op_line(*t),
{
    match t {
        OpText::Empty => String::new(),
        OpText::Complete => {
            let mut s = String::new();
            s.append("Complete.");
            proof {
                assert(s@ =~= "Complete."@);
            }
            s
        }
        OpText::Rotation { x, y, z } => {
            let mut s = String::new();
            s.append("Rotation. X: ");
            append_totals(&mut s, *x, *y, *z);
            proof {
                assert(s@ =~= op_line(*t));
            }
            s
        }
        OpText::Scale { x, y, z } => {
            let mut s = String::new();
            s.append("Scale. X: ");
            append_totals(&mut s, *x, *y, *z);
            proof {
                assert(s@ =~= op_line(*t));
            }
            s
        }
        OpText::Translate { x, y, z } => {
            let mut s = String::new();
            s.append("Translate. X: ");
            append_totals(&mut s, *x, *y, *z);
            proof {
                assert(s@ =~= op_line(*t));
            }
            s
        }
    }
}

/// Appends the three totals of a request, separated by the axis labels.
fn append_totals(s: &mut String, x: i64, y: i64, z: i64)
    ensures
        final(s)@ == old(s)@ + fixed_text(x as int) + " Y: "@ + fixed_text(y as int) + " Z: "@
            + fixed_text(z as int),
{
    let xs = fixed_point_string(x);
    s.append(xs.as_str());
    s.append(" Y: ");
    let ys = fixed_point_string(y);
    s.append(ys.as_str());
    s.append(" Z: ");
    let zs = fixed_point_string(z);
    s.append(zs.as_str());
}

} // verus!
