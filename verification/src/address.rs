//! The address the server listens on, and the line it announces itself with.

use vstd::prelude::*;

verus! {

/// The port the server listens on.
pub const PORT: u16 = 8000;

/// An IPv4 address and a port.
#[derive(Clone, Copy, Debug, PartialEq, Eq)]
pub struct BindAddress {
    pub octets: [u8; 4],
    pub port: u16,
}

/// The character that stands for a digit.
pub open spec fn digit(d: nat) -> char {
    if d == 0 {
        '0'
    } else if d == 1 {
        '1'
    } else if d == 2 {
        '2'
    } else if d == 3 {
        '3'
    } else if d == 4 {
        '4'
    } else if d == 5 {
        '5'
    } else if d == 6 {
        '6'
    } else if d == 7 {
        '7'
    } else if d == 8 {
        '8'
    } else {
        '9'
    }
}

/// A number written in decimal, without leading zeros.
pub open spec fn decimal(n: nat) -> Seq<char>
    decreases n,
{
    if n < 10 {
        seq![digit(n)]
    } else {
        decimal(n / 10).push(digit(n % 10))
    }
}

/// An address in dotted decimal, a colon and the port: `0.0.0.0:8000`.
pub open spec fn socket_text(octets: Seq<u8>, port: u16) -> Seq<char> {
    decimal(octets[0] as nat) + seq!['.'] + decimal(octets[1] as nat) + seq!['.'] + decimal(
        octets[2] as nat,
    ) + seq!['.'] + decimal(octets[3] as nat) + seq![':'] + decimal(port as nat)
}

/// The start-up line for an address, without the line break.
pub open spec fn banner_text(octets: Seq<u8>, port: u16) -> Seq<char> {
    "Catalog service running on "@ + socket_text(octets, port)
}

/// The address the server binds: every interface, port 8000.
pub fn bind_address() -> (address: BindAddress)
    ensures
        address.octets@ == seq![0u8, 0u8, 0u8, 0u8],
        address.port == 8000,
{
    BindAddress { octets: [0, 0, 0, 0], port: PORT }
}

/// The one-character text of a digit.
fn digit_text(d: u8) -> (text: &'static str)
    requires
        d < 10,
    ensures
        text@ == seq![digit(d as nat)],
{
    proof {
        reveal_strlit("0");
        reveal_strlit("1");
        reveal_strlit("2");
        reveal_strlit("3");
        reveal_strlit("4");
        reveal_strlit("5");
        reveal_strlit("6");
        reveal_strlit("7");
        reveal_strlit("8");
        reveal_strlit("9");
    }
    match d {
        0 => "0",
        1 => "1",
        2 => "2",
        3 => "3",
        4 => "4",
        5 => "5",
        6 => "6",
        7 => "7",
        8 => "8",
        _ => "9",
    }
}

/// Appends a number in decimal to a string.
fn push_decimal(out: &mut String, n: u16)
    ensures
        final(out)@ == old(out)@ + decimal(n as nat),
    decreases n,
{
    if n >= 10 {
        push_decimal(out, n / 10);
    }
    let last: u8 = (n % 10) as u8;
    out.append(digit_text(last));
}

/// For every interface and port 8000 the start-up line reads
/// `Catalog service running on 0.0.0.0:8000`.
proof fn lemma_banner_of_bind_address()
    ensures
        banner_text(seq![0u8, 0u8, 0u8, 0u8], 8000) == "Catalog service running on 0.0.0.0:8000"@,
{
    reveal_strlit("Catalog service running on ");
    reveal_strlit("Catalog service running on 0.0.0.0:8000");
    reveal_with_fuel(decimal, 4);
    assert(socket_text(seq![0u8, 0u8, 0u8, 0u8], 8000) =~= seq![
        '0',
        '.',
        '0',
        '.',
        '0',
        '.',
        '0',
        ':',
        '8',
        '0',
        '0',
        '0',
    ]);
    assert(banner_text(seq![0u8, 0u8, 0u8, 0u8], 8000)
        =~= "Catalog service running on 0.0.0.0:8000"@);
}

/// Writes the start-up line for an address: `Catalog service running on `,
/// then the address in dotted decimal, a colon and the port.
pub fn banner(address: &BindAddress) -> (line: String)
    ensures
        line@ == banner_text(address.octets@, address.port),
        address.octets@ == seq![0u8, 0u8, 0u8, 0u8] && address.port == 8000 ==> line@
            == "Catalog service running on 0.0.0.0:8000"@,
{
    proof {
        lemma_banner_of_bind_address();
        reveal_strlit(".");
        reveal_strlit(":");
    }
    let mut line = String::new();
    line.append("Catalog service running on ");
    push_decimal(&mut line, address.octets[0] as u16);
    line.append(".");
    push_decimal(&mut line, address.octets[1] as u16);
    line.append(".");
    push_decimal(&mut line, address.octets[2] as u16);
    line.append(".");
    push_decimal(&mut line, address.octets[3] as u16);
    line.append(":");
    push_decimal(&mut line, address.port);
    line
}

} // verus!
