//! Synthesis of the address string `{protocol}://{host}:{port}` that the
//! routing table holds for each discovered service.

use vstd::prelude::*;
use vstd::string::StringExecFns;

verus! {

/// The decimal digit character for `d` (0 through 9).
pub open spec fn spec_digit_char(d: int) -> char {
    if d == 0 {
        '0'
    } else if d == 1 {
        '1'
    } else if d == 2 {
        '2'
    } else if d == 3 {
        '3'
    } else if d == 4 {
        '4'
    } else if d == 5 {
        '5'
    } else if d == 6 {
        '6'
    } else if d == 7 {
        '7'
    } else if d == 8 {
        '8'
    } else {
        '9'
    }
}

/// The decimal digits of `n`, most significant first, no leading zeros
/// (a single `'0'` for zero itself).
pub open spec fn spec_udecimal(n: nat) -> Seq<char>
    decreases n,
{
    if n < 10 {
        seq![spec_digit_char(n as int)]
    } else {
        spec_udecimal(n / 10).push(spec_digit_char((n % 10) as int))
    }
}

/// The decimal rendering of `n`, with a leading `'-'` when `n` is negative.
pub open spec fn spec_decimal(n: int) -> Seq<char> {
    if n < 0 {
        seq!['-'] + spec_udecimal((-n) as nat)
    } else {
        spec_udecimal(n as nat)
    }
}

/// The address under which a service with protocol label `protocol`,
/// resource name `host` and declared port `port` is registered.
pub open spec fn spec_address(protocol: Seq<char>, host: Seq<char>, port: int) -> Seq<char> {
    protocol + "://"@ + host + ":"@ + spec_decimal(port)
}

/// A one-character string slice holding the decimal digit `d`.
fn digit_str(d: u64) -> (s: &'static str)
    requires
        d < 10,
    ensures
        s@ == seq![spec_digit_char(d as int)],
{
    proof {
        reveal_strlit("0");
        reveal_strlit("1");
        reveal_strlit("2");
        reveal_strlit("3");
        reveal_strlit("4");
        reveal_strlit("5");
        reveal_strlit("6");
        reveal_strlit("7");
        reveal_strlit("8");
        reveal_strlit("9");
    }
    let s = match d {
        0 => "0",
        1 => "1",
        2 => "2",
        3 => "3",
        4 => "4",
        5 => "5",
        6 => "6",
        7 => "7",
        8 => "8",
        _ => "9",
    };
    proof {
        assert(s@ =~= seq![spec_digit_char(d as int)]);
    }
    s
}

/// Renders `n` in decimal.
fn u64_to_string(n: u64) -> (s: String)
    ensures
        s@ == spec_udecimal(n as nat),
{
    // Digit characters of `n`, least significant first.
    let mut digits: Vec<&'static str> = Vec::new();
    let ghost mut suffix: Seq<char> = Seq::empty();
    let mut x = n;
    while x >= 10
        invariant
            spec_udecimal(n as nat) == spec_udecimal(x as nat) + suffix,
            digits@.len() == suffix.len(),
            forall|j: int|
                0 <= j < digits@.len() ==> (#[trigger] digits@[j])@ == seq![
                    suffix[suffix.len() - 1 - j],
                ],
        decreases x,
    {
        let d = x % 10;
        digits.push(digit_str(d));
        proof {
            assert(spec_udecimal(x as nat) == spec_udecimal(x as nat / 10).push(
                spec_digit_char((x as nat % 10) as int),
            ));
            assert(spec_udecimal(x as nat) + suffix =~= spec_udecimal(x as nat / 10) + (seq![
                spec_digit_char(d as int),
            ] + suffix));
            suffix = seq![spec_digit_char(d as int)] + suffix;
        }
        x = x / 10;
    }
    digits.push(digit_str(x));
    proof {
        suffix = seq![spec_digit_char(x as int)] + suffix;
        assert(spec_udecimal(n as nat) =~= suffix);
    }
    let k = digits.len();
    let mut s = String::new();
    let mut i: usize = 0;
    while i < k
        invariant
            k == digits@.len(),
            i <= k,
            suffix.len() == k,
            spec_udecimal(n as nat) == suffix,
            forall|j: int|
                0 <= j < k ==> (#[trigger] digits@[j])@ == seq![suffix[suffix.len() - 1 - j]],
            s@ == suffix.subrange(0, i as int),
        decreases k - i,
    {
        s.append(digits[k - 1 - i]);
        proof {
            assert(s@ =~= suffix.subrange(0, i as int + 1));
        }
        i = i + 1;
    }
    proof {
        assert(s@ =~= spec_udecimal(n as nat));
    }
    s
}

/// Renders a declared port in decimal, with its sign when negative.
fn port_to_string(port: i32) -> (s: String)
    ensures
        s@ == spec_decimal(port as int),
{
    if port >= 0 {
        u64_to_string(port as u64)
    } else {
        let magnitude: u64 = (-(port as i64)) as u64;
        let rendered = u64_to_string(magnitude);
        let mut s = String::new();
        s.append("-");
        s.append(rendered.as_str());
        proof {
            reveal_strlit("-");
            assert(s@ =~= spec_decimal(port as int));
        }
        s
    }
}

/// Builds the address `{protocol}://{host}:{port}`.
pub fn synthesize_address(protocol: &str, host: &str, port: i32) -> (address: String)
    ensures
        address@ == spec_address(protocol@, host@, port as int),
{
    let mut address: String = protocol.to_owned();
    address.append("://");
    address.append(host);
    address.append(":");
    let rendered = port_to_string(port);
    address.append(rendered.as_str());
    proof {
        assert(address@ =~= spec_address(protocol@, host@, port as int));
    }
    address
}

} // verus!
