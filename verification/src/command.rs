//! Fixed command argument vectors for the launch strategies.
//!
//! Every candidate command a strategy runs is a fixed argument vector —
//! a binary name, a persistence-disabling flag, a port flag — with no
//! shell interpretation of anything.  The only computed piece is the
//! decimal rendering of the port number, so that is verified here
//! character by character.

use vstd::prelude::*;

verus! {

/// The decimal digit character for one digit value.
pub open spec fn spec_digit_char(d: nat) -> char {
    if d == 0 {
        '0'
    } else if d == 1 {
        '1'
    } else if d == 2 {
        '2'
    } else if d == 3 {
        '3'
    } else if d == 4 {
        '4'
    } else if d == 5 {
        '5'
    } else if d == 6 {
        '6'
    } else if d == 7 {
        '7'
    } else if d == 8 {
        '8'
    } else {
        '9'
    }
}

/// The usual decimal rendering of a number: most significant digit
/// first, no leading zeros except for the number zero itself.
pub open spec fn spec_decimal(n: nat) -> Seq<char>
    decreases n,
{
    if n < 10 {
        seq![spec_digit_char(n)]
    } else {
        spec_decimal(n / 10).push(spec_digit_char(n % 10))
    }
}

/// The one-character string for one decimal digit.
fn digit_str(d: u8) -> (r: &'static str)
    requires
        d < 10,
    ensures
        r@ =~= seq![spec_digit_char(d as nat)],
{
    proof {
        reveal_strlit("0");
        reveal_strlit("1");
        reveal_strlit("2");
        reveal_strlit("3");
        reveal_strlit("4");
        reveal_strlit("5");
        reveal_strlit("6");
        reveal_strlit("7");
        reveal_strlit("8");
        reveal_strlit("9");
    }
    match d {
        0 => "0",
        1 => "1",
        2 => "2",
        3 => "3",
        4 => "4",
        5 => "5",
        6 => "6",
        7 => "7",
        8 => "8",
        _ => "9",
    }
}

/// Render a port number in decimal, exactly as [`spec_decimal`] says.
pub fn u16_decimal(n: u16) -> (r: String)
    ensures
        r@ == spec_decimal(n as nat),
    decreases n,
{
    if n < 10 {
        let r = String::from_str(digit_str(n as u8));
        proof {
            assert(r@ =~= spec_decimal(n as nat));
        }
        r
    } else {
        let mut r = u16_decimal(n / 10);
        r.append(digit_str((n % 10) as u8));
        proof {
            assert(r@ =~= spec_decimal(n as nat));
        }
        r
    }
}

/// The fixed argument vector for running the dependency's native binary:
/// the port flag with the requested port, and the flags that switch off
/// both of its persistence mechanisms, so a test-scoped instance leaves
/// nothing on disk.
pub fn native_server_args(port: u16) -> (r: Vec<String>)
    ensures
        r@.len() == 6,
        r@[0]@ == "--port"@,
        r@[1]@ == spec_decimal(port as nat),
        r@[2]@ == "--save"@,
        r@[3]@ == Seq::<char>::empty(),
        r@[4]@ == "--appendonly"@,
        r@[5]@ == "no"@,
{
    let mut r: Vec<String> = Vec::new();
    r.push(String::from_str("--port"));
    r.push(u16_decimal(port));
    r.push(String::from_str("--save"));
    r.push(String::new());
    r.push(String::from_str("--appendonly"));
    r.push(String::from_str("no"));
    r
}

} // verus!
