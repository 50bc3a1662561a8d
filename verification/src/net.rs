//! The connection to the remote server: its address, the commands and answers exchanged with
//! it, and the text form of an IP address.
use vstd::prelude::*;
use crate::pwm::PwmNumber;
use crate::text::{spec_decimal, decimal_u8, ascii_chars, is_ascii_bytes, ascii_string, append_bytes, lemma_decimal_ascii};

verus! {

/// An IP address, by its octets in network order.
#[derive(Debug, Clone, Copy, PartialEq, Eq)]
pub enum IpAddress {
    Ipv4([u8; 4]),
    Ipv6([u8; 16]),
}

/// What the socket task is asked to do.
#[derive(Debug, Clone, Copy, PartialEq, Eq)]
pub enum ServerCommand {
    Connect(IpAddress, u16),
    Disconnect,
    Listen,
}

/// A request from the server.
#[derive(Debug, Clone, Copy, PartialEq, Eq, Structural)]
pub enum ServerResponse {
    /// Block the buttons and the encoder for this many centiseconds.
    BlockHid(u16),
    BlockHidRelative(i16),
    ToggleChannel(PwmNumber),
    ChannelOff(PwmNumber),
    ChannelOn(PwmNumber),
    /// Set the PWM value of the channel.
    SetPwmValue(u16, PwmNumber),
    SetPwmValueRelative(i16, PwmNumber),
    GetState(PwmNumber),
    Empty,
}

/// The server that the board talks to.
#[derive(Debug, Clone, Copy, PartialEq, Eq)]
pub struct ServerConnection {
    pub server_ip: IpAddress,
    pub server_port: u16,
}

impl ServerConnection {
    /// No server yet: `0.0.0.0`, port 0.
    pub fn new() -> (c: ServerConnection)
        ensures
            c.server_ip == IpAddress::Ipv4([0u8, 0u8, 0u8, 0u8]),
            c.server_port == 0,
    {
        ServerConnection { server_ip: IpAddress::Ipv4([0, 0, 0, 0]), server_port: 0 }
    }

    /// The command that connects to the configured server.
    pub fn connect_command(&self) -> (c: ServerCommand)
        ensures
            c == ServerCommand::Connect(self.server_ip, self.server_port),
    {
        ServerCommand::Connect(self.server_ip, self.server_port)
    }
}

/// The lowercase hexadecimal digit of `d < 16`.
pub open spec fn hex_digit(d: int) -> u8 {
    if d < 10 { (48 + d) as u8 } else { (87 + d) as u8 }
}

/// The lowercase hexadecimal digits of `v`, without leading zeros.
pub open spec fn spec_hex(v: nat) -> Seq<u8>
    decreases v,
{
    if v < 16 {
        seq![hex_digit(v as int)]
    } else {
        spec_hex(v / 16).push(hex_digit((v % 16) as int))
    }
}

/// The pieces joined with `sep` between each two.
pub open spec fn join_with(parts: Seq<Seq<u8>>, sep: u8) -> Seq<u8>
    decreases parts.len(),
{
    if parts.len() == 0 {
        Seq::empty()
    } else if parts.len() == 1 {
        parts[0]
    } else {
        join_with(parts.drop_last(), sep).push(sep) + parts.last()
    }
}

/// The text of an IPv4 address: its octets in decimal, joined by dots.
pub open spec fn ipv4_text(o: Seq<u8>) -> Seq<u8> {
    join_with(Seq::new(4, |i: int| spec_decimal(o[i] as nat)), 46)
}

/// The `k`-th 16-bit group of an IPv6 address.
pub open spec fn hextet(o: Seq<u8>, k: int) -> nat {
    (o[2 * k] * 256 + o[2 * k + 1]) as nat
}

/// The text of an IPv6 address: its eight groups in hexadecimal without leading zeros, joined
/// by colons (no `::` shortening).
pub open spec fn ipv6_text(o: Seq<u8>) -> Seq<u8> {
    join_with(Seq::new(8, |i: int| spec_hex(hextet(o, i))), 58)
}

/// The text of an address.
pub open spec fn ip_text(ip: IpAddress) -> Seq<u8> {
    match ip {
        IpAddress::Ipv4(o) => ipv4_text(o@),
        IpAddress::Ipv6(o) => ipv6_text(o@),
    }
}

proof fn lemma_hex_ascii(v: nat)
    ensures
        is_ascii_bytes(spec_hex(v)),
        spec_hex(v).len() >= 1,
    decreases v,
{
    if v >= 16 {
        lemma_hex_ascii(v / 16);
    }
}

proof fn lemma_join_ascii(parts: Seq<Seq<u8>>, sep: u8)
    requires
        sep < 128,
        forall|i: int| 0 <= i < parts.len() ==> is_ascii_bytes(#[trigger] parts[i]),
    ensures
        is_ascii_bytes(join_with(parts, sep)),
    decreases parts.len(),
{
    if parts.len() > 1 {
        lemma_join_ascii(parts.drop_last(), sep);
        let a = join_with(parts.drop_last(), sep).push(sep);
        let b = parts.last();
        assert(is_ascii_bytes(b));
        assert forall|i: int| 0 <= i < (a + b).len() implies #[trigger] (a + b)[i] < 128 by {
            if i < a.len() {
                assert((a + b)[i] == a[i]);
            } else {
                assert((a + b)[i] == b[i - a.len()]);
            }
        }
    }
}

/// The hexadecimal digit of `d`.
fn hex_char(d: u16) -> (c: u8)
    requires
        d < 16,
    ensures
        c == hex_digit(d as int),
{
    if d < 10 { 48 + d as u8 } else { 87 + d as u8 }
}

/// The hexadecimal digits of a 16-bit group, without leading zeros.
pub fn hex_u16(v: u16) -> (d: Vec<u8>)
    ensures
        d@ == spec_hex(v as nat),
{
    let mut d: Vec<u8> = Vec::new();
    let ghost n: nat = v as nat;
    if v >= 4096 {
        d.push(hex_char(v / 4096));
        d.push(hex_char((v / 256) % 16));
        d.push(hex_char((v / 16) % 16));
        d.push(hex_char(v % 16));
        proof {
            let a = n / 16;
            let b = a / 16;
            let c = b / 16;
            assert(c == v / 4096 && c < 16);
            assert(b == v / 256 && b % 16 == (v / 256) % 16 && b >= 16);
            assert(a == v / 16 && a % 16 == (v / 16) % 16 && a >= 16);
            assert(spec_hex(c) =~= seq![hex_digit((v / 4096) as int)]);
            assert(spec_hex(b) =~= spec_hex(c).push(hex_digit(((v / 256) % 16) as int)));
            assert(spec_hex(a) =~= spec_hex(b).push(hex_digit(((v / 16) % 16) as int)));
            assert(d@ =~= spec_hex(n));
        }
    } else if v >= 256 {
        d.push(hex_char(v / 256));
        d.push(hex_char((v / 16) % 16));
        d.push(hex_char(v % 16));
        proof {
            let a = n / 16;
            let b = a / 16;
            assert(b == v / 256 && b < 16);
            assert(a == v / 16 && a % 16 == (v / 16) % 16 && a >= 16);
            assert(spec_hex(b) =~= seq![hex_digit((v / 256) as int)]);
            assert(spec_hex(a) =~= spec_hex(b).push(hex_digit(((v / 16) % 16) as int)));
            assert(d@ =~= spec_hex(n));
        }
    } else if v >= 16 {
        d.push(hex_char(v / 16));
        d.push(hex_char(v % 16));
        proof {
            let a = n / 16;
            assert(a == v / 16 && a < 16);
            assert(spec_hex(a) =~= seq![hex_digit((v / 16) as int)]);
            assert(d@ =~= spec_hex(n));
        }
    } else {
        d.push(hex_char(v));
        assert(d@ =~= spec_hex(n));
    }
    d
}

/// The text of an IP address: dotted decimal for IPv4, colon-separated hexadecimal groups
/// (every group written, without leading zeros) for IPv6.
pub fn string_from_ip(ip: &IpAddress) -> (s: String)
    ensures
        s@ == ascii_chars(ip_text(*ip)),
{
    let mut out: Vec<u8> = Vec::new();
    match ip {
        IpAddress::Ipv4(o) => {
            let ghost parts = Seq::new(4, |i: int| spec_decimal(o@[i] as nat));
            let mut i: usize = 0;
            while i < 4
                invariant
                    i <= 4,
                    parts == Seq::new(4, |i: int| spec_decimal(o@[i] as nat)),
                    out@ == join_with(parts.take(i as int), 46),
                decreases 4 - i,
            {
                proof {
                    assert(parts.take(i + 1).drop_last() =~= parts.take(i as int));
                }
                if i > 0 {
                    out.push(46);
                }
                let d = decimal_u8(o[i]);
                append_bytes(&mut out, d.as_slice());
                i = i + 1;
            }
            proof {
                assert(parts.take(4) =~= parts);
                assert forall|k: int| 0 <= k < parts.len() implies is_ascii_bytes(#[trigger] parts[k]) by {
                    lemma_decimal_ascii(o@[k] as nat);
                }
                lemma_join_ascii(parts, 46);
            }
        },
        IpAddress::Ipv6(o) => {
            let ghost parts = Seq::new(8, |i: int| spec_hex(hextet(o@, i)));
            let mut i: usize = 0;
            while i < 8
                invariant
                    i <= 8,
                    parts == Seq::new(8, |i: int| spec_hex(hextet(o@, i))),
                    out@ == join_with(parts.take(i as int), 58),
                decreases 8 - i,
            {
                proof {
                    assert(parts.take(i + 1).drop_last() =~= parts.take(i as int));
                }
                if i > 0 {
                    out.push(58);
                }
                let g: u16 = (o[2 * i] as u16) * 256 + o[2 * i + 1] as u16;
                let d = hex_u16(g);
                append_bytes(&mut out, d.as_slice());
                i = i + 1;
            }
            proof {
                assert(parts.take(8) =~= parts);
                assert forall|k: int| 0 <= k < parts.len() implies is_ascii_bytes(#[trigger] parts[k]) by {
                    lemma_hex_ascii(hextet(o@, k));
                }
                lemma_join_ascii(parts, 58);
            }
        },
    }
    ascii_string(out)
}

} // verus!
