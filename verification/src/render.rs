//! Human-readable rendering of units and quantities.
//!
//! A unit renders as its nonzero base-unit factors in the fixed order
//! metre, kilogram, second, ampere, kelvin, mole, candela, joined by
//! `" * "`. A factor with exponent 1 is the bare symbol; any other
//! exponent follows the symbol after a caret, so `m * s^-2` is an
//! acceleration. A dimensionless unit renders as the empty string. A
//! quantity renders as its payload text, `" * "`, and its unit.

use vstd::prelude::*;
use vstd::string::StringExecFns;
use crate::{Dims, Quantity, Unit};

verus! {

/// The text of a single decimal digit.
pub open spec fn digit_text(d: int) -> Seq<char> {
    if d == 0 {
        "0"@
    } else if d == 1 {
        "1"@
    } else if d == 2 {
        "2"@
    } else if d == 3 {
        "3"@
    } else if d == 4 {
        "4"@
    } else if d == 5 {
        "5"@
    } else if d == 6 {
        "6"@
    } else if d == 7 {
        "7"@
    } else if d == 8 {
        "8"@
    } else {
        "9"@
    }
}

/// The decimal digits of a nonnegative integer, most significant first.
pub open spec fn dec_digits(n: nat) -> Seq<char>
    decreases n,
{
    if n < 10 {
        digit_text(n as int)
    } else {
        dec_digits(n / 10) + digit_text((n % 10) as int)
    }
}

/// The decimal text of an integer: its digits, after a minus sign when
/// it is negative.
pub open spec fn dec_text(n: int) -> Seq<char> {
    if n < 0 {
        "-"@ + dec_digits((-n) as nat)
    } else {
        dec_digits(n as nat)
    }
}

/// The separator written between rendered factors, and between a
/// quantity's payload and its unit.
pub open spec fn sep() -> Seq<char> {
    " * "@
}

/// The text of one base-unit factor: the bare symbol for exponent 1,
/// otherwise the symbol, a caret and the exponent in decimal.
pub open spec fn factor_text(name: Seq<char>, e: int) -> Seq<char> {
    if e == 1 {
        name
    } else {
        name + "^"@ + dec_text(e)
    }
}

/// The factor of one base unit, as a list: empty for exponent 0, which
/// is omitted from the rendering.
pub open spec fn maybe_factor(name: Seq<char>, e: int) -> Seq<Seq<char>> {
    if e == 0 {
        seq![]
    } else {
        seq![factor_text(name, e)]
    }
}

/// The rendered factors of a dimension, in the fixed rendering order.
pub open spec fn factor_list(d: Dims) -> Seq<Seq<char>> {
    maybe_factor("m"@, d.m) + maybe_factor("kg"@, d.kg) + maybe_factor("s"@, d.s) + maybe_factor(
        "A"@,
        d.A,
    ) + maybe_factor("K"@, d.K) + maybe_factor("mol"@, d.mol) + maybe_factor("cd"@, d.cd)
}

/// Texts joined with the separator between consecutive parts.
pub open spec fn sep_join(parts: Seq<Seq<char>>) -> Seq<char>
    decreases parts.len(),
{
    if parts.len() == 0 {
        Seq::empty()
    } else if parts.len() == 1 {
        parts[0]
    } else {
        sep_join(parts.drop_last()) + sep() + parts.last()
    }
}

/// The full text of a dimension.
pub open spec fn unit_text(d: Dims) -> Seq<char> {
    sep_join(factor_list(d))
}

/// Joining one more part appends it, after a separator unless it is the
/// first.
proof fn lemma_sep_join_push(l: Seq<Seq<char>>, f: Seq<char>)
    ensures
        sep_join(l.push(f)) == if l.len() == 0 {
            f
        } else {
            sep_join(l) + sep() + f
        },
{
    let lp = l.push(f);
    assert(lp.drop_last() =~= l);
    assert(lp.last() == f);
    if l.len() == 0 {
        assert(sep_join(lp) == lp[0]);
    }
}

/// One step of the rendering loop keeps the joined text and the factor
/// count in line with the factor list seen so far.
proof fn lemma_join_step(
    parts: Seq<Seq<char>>,
    name: Seq<char>,
    e: int,
    pre: Seq<char>,
    post: Seq<char>,
    cnt_pre: int,
    cnt_post: int,
)
    requires
        pre == sep_join(parts),
        cnt_pre == parts.len(),
        e == 0 ==> post == pre && cnt_post == cnt_pre,
        e != 0 ==> cnt_post == cnt_pre + 1,
        e != 0 && cnt_pre == 0 ==> post == pre + factor_text(name, e),
        e != 0 && cnt_pre > 0 ==> post == pre + sep() + factor_text(name, e),
    ensures
        post == sep_join(parts + maybe_factor(name, e)),
        cnt_post == (parts + maybe_factor(name, e)).len(),
{
    let lp = parts + maybe_factor(name, e);
    if e == 0 {
        assert(lp =~= parts);
    } else {
        assert(lp =~= parts.push(factor_text(name, e)));
        lemma_sep_join_push(parts, factor_text(name, e));
        if cnt_pre == 0 {
            assert(pre =~= Seq::<char>::empty());
            assert(pre + factor_text(name, e) =~= factor_text(name, e));
        }
    }
}

/// The text of one decimal digit.
fn digit_str(d: u64) -> (r: &'static str)
    requires
        d < 10,
    ensures
        r@ == digit_text(d as int),
{
    if d == 0 {
        "0"
    } else if d == 1 {
        "1"
    } else if d == 2 {
        "2"
    } else if d == 3 {
        "3"
    } else if d == 4 {
        "4"
    } else if d == 5 {
        "5"
    } else if d == 6 {
        "6"
    } else if d == 7 {
        "7"
    } else if d == 8 {
        "8"
    } else {
        "9"
    }
}

/// Append the decimal digits of `n`, most significant first.
fn push_digits(out: &mut String, n: u64)
    ensures
        final(out)@ == old(out)@ + dec_digits(n as nat),
    decreases n,
{
    if n < 10 {
        out.append(digit_str(n));
    } else {
        push_digits(out, n / 10);
        out.append(digit_str(n % 10));
        proof {
            assert(out@ =~= old(out)@ + dec_digits(n as nat));
        }
    }
}

/// Append the decimal text of `x`, sign included.
fn push_int(out: &mut String, x: i32)
    ensures
        final(out)@ == old(out)@ + dec_text(x as int),
{
    if x < 0 {
        out.append("-");
        let mag: u64 = (-(x as i64)) as u64;
        push_digits(out, mag);
        proof {
            assert(out@ =~= old(out)@ + dec_text(x as int));
        }
    } else {
        push_digits(out, x as u64);
    }
}

/// Append one base-unit factor: nothing for exponent 0, otherwise a
/// separator when factors came before, the symbol, and the exponent
/// unless it is 1. `count` tallies the factors written so far.
fn push_factor(out: &mut String, count: &mut usize, name: &str, e: i32)
    requires
        *old(count) < usize::MAX,
    ensures
        e == 0 ==> final(out)@ == old(out)@ && *final(count) == *old(count),
        e != 0 ==> *final(count) == *old(count) + 1,
        e != 0 && *old(count) == 0 ==> final(out)@ == old(out)@ + factor_text(name@, e as int),
        e != 0 && *old(count) > 0 ==> final(out)@ == old(out)@ + sep() + factor_text(
            name@,
            e as int,
        ),
{
    if e != 0 {
        if *count > 0 {
            out.append(" * ");
        }
        out.append(name);
        if e != 1 {
            out.append("^");
            push_int(out, e);
        }
        *count = *count + 1;
        proof {
            if *old(count) == 0 {
                assert(out@ =~= old(out)@ + factor_text(name@, e as int));
            } else {
                assert(out@ =~= old(out)@ + sep() + factor_text(name@, e as int));
            }
        }
    }
}

impl Unit {
    /// Render this unit, nonzero exponents only, in the fixed order,
    /// e.g. `m * s^-2`. The dimensionless unit renders as the empty
    /// string.
    pub fn render(&self) -> (r: String)
        ensures
            r@ == unit_text(self.dims()),
    {
        let mut out = String::new();
        let mut count: usize = 0;
        let ghost mut parts: Seq<Seq<char>> = Seq::empty();

        let ghost pre = out@;
        let ghost cpre = count as int;
        push_factor(&mut out, &mut count, "m", self.m);
        proof {
            lemma_join_step(parts, "m"@, self.m as int, pre, out@, cpre, count as int);
            parts = parts + maybe_factor("m"@, self.m as int);
        }

        let ghost pre = out@;
        let ghost cpre = count as int;
        push_factor(&mut out, &mut count, "kg", self.kg);
        proof {
            lemma_join_step(parts, "kg"@, self.kg as int, pre, out@, cpre, count as int);
            parts = parts + maybe_factor("kg"@, self.kg as int);
        }

        let ghost pre = out@;
        let ghost cpre = count as int;
        push_factor(&mut out, &mut count, "s", self.s);
        proof {
            lemma_join_step(parts, "s"@, self.s as int, pre, out@, cpre, count as int);
            parts = parts + maybe_factor("s"@, self.s as int);
        }

        let ghost pre = out@;
        let ghost cpre = count as int;
        push_factor(&mut out, &mut count, "A", self.A);
        proof {
            lemma_join_step(parts, "A"@, self.A as int, pre, out@, cpre, count as int);
            parts = parts + maybe_factor("A"@, self.A as int);
        }

        let ghost pre = out@;
        let ghost cpre = count as int;
        push_factor(&mut out, &mut count, "K", self.K);
        proof {
            lemma_join_step(parts, "K"@, self.K as int, pre, out@, cpre, count as int);
            parts = parts + maybe_factor("K"@, self.K as int);
        }

        let ghost pre = out@;
        let ghost cpre = count as int;
        push_factor(&mut out, &mut count, "mol", self.mol);
        proof {
            lemma_join_step(parts, "mol"@, self.mol as int, pre, out@, cpre, count as int);
            parts = parts + maybe_factor("mol"@, self.mol as int);
        }

        let ghost pre = out@;
        let ghost cpre = count as int;
        push_factor(&mut out, &mut count, "cd", self.cd);
        proof {
            lemma_join_step(parts, "cd"@, self.cd as int, pre, out@, cpre, count as int);
            parts = parts + maybe_factor("cd"@, self.cd as int);
        }

        proof {
            assert(parts =~= factor_list(self.dims()));
        }
        out
    }
}

impl<V> Quantity<V> {
    /// Render this quantity as its payload text, a separator, and its
    /// unit, e.g. `5 * m * s^-2` for payload text `5`. The payload text
    /// is supplied by the caller, which owns the payload type.
    pub fn render(&self, value_text: &str) -> (r: String)
        ensures
            r@ == value_text@ + sep() + unit_text(self.unit.dims()),
    {
        let mut out = value_text.to_owned();
        out.append(" * ");
        let unit_part = self.unit.render();
        out.append(unit_part.as_str());
        proof {
            assert(out@ =~= value_text@ + sep() + unit_text(self.unit.dims()));
        }
        out
    }
}

} // verus!

