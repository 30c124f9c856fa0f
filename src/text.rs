//! Decimal and dotted-quad rendering of integers, as used in packet
//! descriptors and alert details.
use vstd::prelude::*;
use vstd::string::*;

verus! {

/// The ASCII digit for `d`, which is below ten.
pub open spec fn digit_char(d: nat) -> char {
    if d == 0 {
        '0'
    } else if d == 1 {
        '1'
    } else if d == 2 {
        '2'
    } else if d == 3 {
        '3'
    } else if d == 4 {
        '4'
    } else if d == 5 {
        '5'
    } else if d == 6 {
        '6'
    } else if d == 7 {
        '7'
    } else if d == 8 {
        '8'
    } else {
        '9'
    }
}

/// Base-ten rendering of `n`, without leading zeros.
pub open spec fn decimal(n: nat) -> Seq<char>
    decreases n,
{
    if n < 10 {
        seq![digit_char(n)]
    } else {
        decimal(n / 10).push(digit_char(n % 10))
    }
}

/// An IPv4 address in dotted-quad notation.
pub open spec fn dotted_quad(a: u8, b: u8, c: u8, d: u8) -> Seq<char> {
    decimal(a as nat) + "."@ + decimal(b as nat) + "."@ + decimal(c as nat) + "."@ + decimal(
        d as nat,
    )
}

/// Port numbers in decimal, separated by a comma and a space.
pub open spec fn joined_ports(s: Seq<u16>) -> Seq<char>
    decreases s.len(),
{
    if s.len() == 0 {
        Seq::empty()
    } else if s.len() == 1 {
        decimal(s[0] as nat)
    } else {
        joined_ports(s.drop_last()) + ", "@ + decimal(s.last() as nat)
    }
}

fn digit_text(d: u128) -> (r: &'static str)
    requires
        d < 10,
    ensures
        r@ == seq![digit_char(d as nat)],
{
    if d == 0 {
        proof {
            reveal_strlit("0");
        }
        "0"
    } else if d == 1 {
        proof {
            reveal_strlit("1");
        }
        "1"
    } else if d == 2 {
        proof {
            reveal_strlit("2");
        }
        "2"
    } else if d == 3 {
        proof {
            reveal_strlit("3");
        }
        "3"
    } else if d == 4 {
        proof {
            reveal_strlit("4");
        }
        "4"
    } else if d == 5 {
        proof {
            reveal_strlit("5");
        }
        "5"
    } else if d == 6 {
        proof {
            reveal_strlit("6");
        }
        "6"
    } else if d == 7 {
        proof {
            reveal_strlit("7");
        }
        "7"
    } else if d == 8 {
        proof {
            reveal_strlit("8");
        }
        "8"
    } else {
        proof {
            reveal_strlit("9");
        }
        "9"
    }
}

/// Appends the decimal rendering of `n` to `out`.
pub fn push_decimal(out: &mut String, n: u128)
    ensures
        final(out)@ == old(out)@ + decimal(n as nat),
    decreases n,
{
    if n >= 10 {
        push_decimal(out, n / 10);
    }
    out.append(digit_text(n % 10));
    assert(out@ =~= old(out)@ + decimal(n as nat));
}

/// The decimal rendering of `n`.
pub fn decimal_string(n: u128) -> (r: String)
    ensures
        r@ == decimal(n as nat),
{
    let mut out = String::new();
    push_decimal(&mut out, n);
    assert(out@ =~= decimal(n as nat));
    out
}

/// Dotted-quad text of the address with octets `a.b.c.d`.
pub fn dotted_quad_string(a: u8, b: u8, c: u8, d: u8) -> (r: String)
    ensures
        r@ == dotted_quad(a, b, c, d),
{
    let mut out = String::new();
    push_decimal(&mut out, a as u128);
    out.append(".");
    push_decimal(&mut out, b as u128);
    out.append(".");
    push_decimal(&mut out, c as u128);
    out.append(".");
    push_decimal(&mut out, d as u128);
    assert(out@ =~= dotted_quad(a, b, c, d));
    out
}

/// Appends the ports of `ports`, in order, separated by ", ".
pub fn push_joined_ports(out: &mut String, ports: &Vec<u16>)
    ensures
        final(out)@ == old(out)@ + joined_ports(ports@),
{
    let ghost start = out@;
    let mut i: usize = 0;
    while i < ports.len()
        invariant
            i <= ports.len(),
            out@ == start + joined_ports(ports@.take(i as int)),
        decreases ports.len() - i,
    {
        if i > 0 {
            out.append(", ");
        }
        push_decimal(out, ports[i] as u128);
        proof {
            let t = ports@.take(i as int + 1);
            assert(t.drop_last() =~= ports@.take(i as int));
            if i == 0 {
                assert(joined_ports(ports@.take(i as int)) =~= Seq::empty());
                assert(out@ =~= start + joined_ports(t));
            } else {
                assert(out@ =~= start + joined_ports(t));
            }
        }
        i = i + 1;
    }
    assert(ports@.take(ports.len() as int) =~= ports@);
}

} // verus!
