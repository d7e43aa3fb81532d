//! Peer addresses as plain values, with their canonical textual form.

use vstd::prelude::*;

verus! {

/// A peer's IPv4 network address: the four address octets and the port, in
/// the order they stand in the textual `a.b.c.d:port` form. Produced by a
/// successful receive or by parsing a textual address; equal addresses
/// compare equal; never mutated after construction.
#[derive(Clone, Copy, Debug, Hash, PartialEq, Eq, Structural)]
pub struct Endpoint {
    /// first address octet
    pub a: u8,
    /// second address octet
    pub b: u8,
    /// third address octet
    pub c: u8,
    /// fourth address octet
    pub d: u8,
    /// port, in native endianness
    pub port: u16,
}

/// The ASCII byte standing for the decimal digit `d`.
pub open spec fn spec_digit_byte(d: nat) -> u8
    recommends
        d < 10,
{
    (0x30 + d) as u8
}

/// The shortest decimal rendering of `n`, as ASCII bytes.
pub open spec fn spec_decimal_bytes(n: nat) -> Seq<u8>
    decreases n,
{
    if n < 10 {
        seq![spec_digit_byte(n)]
    } else {
        spec_decimal_bytes(n / 10).push(spec_digit_byte(n % 10))
    }
}

/// Every byte of a decimal rendering is an ASCII digit.
pub proof fn lemma_decimal_bytes_ascii(n: nat)
    ensures
        forall|i: int|
            0 <= i < spec_decimal_bytes(n).len() ==> 0x30 <= #[trigger] spec_decimal_bytes(
                n,
            )[i] <= 0x39,
    decreases n,
{
    if n < 10 {
        assert(spec_decimal_bytes(n)[0] == spec_digit_byte(n));
    } else {
        lemma_decimal_bytes_ascii(n / 10);
        let rec = spec_decimal_bytes(n / 10);
        assert forall|i: int| 0 <= i < spec_decimal_bytes(n).len() implies 0x30
            <= #[trigger] spec_decimal_bytes(n)[i] <= 0x39 by {
            if i < rec.len() {
                assert(spec_decimal_bytes(n)[i] == rec[i]);
            } else {
                assert(spec_decimal_bytes(n)[i] == spec_digit_byte(n % 10));
            }
        }
    }
}

/// Appends the decimal rendering of `n` to `out`.
fn push_decimal(out: &mut Vec<u8>, n: u32)
    ensures
        final(out)@ == old(out)@ + spec_decimal_bytes(n as nat),
    decreases n,
{
    if n >= 10 {
        push_decimal(out, n / 10);
    }
    let d: u8 = 0x30 + (n % 10) as u8;
    out.push(d);
    proof {
        assert(out@ =~= old(out)@ + spec_decimal_bytes(n as nat));
    }
}

/// Relies on String::from_utf8: a sequence of ASCII bytes decodes to the
/// string of exactly those characters.
#[verifier::external_body]
fn ascii_to_string(v: Vec<u8>) -> (s: String)
    requires
        forall|i: int| 0 <= i < v@.len() ==> v@[i] < 128,
    ensures
        s@ == v@.map_values(|x: u8| x as char),
{
    String::from_utf8(v).unwrap_or_default()
}

/// What the platform's textual-address parser yields on `s`: the four
/// address octets and the port of a well-formed `a.b.c.d:port` IPv4 socket
/// address, or nothing when `s` is not one.
pub uninterp spec fn parsed_socket_v4(s: Seq<char>) -> Option<(u8, u8, u8, u8, u16)>;

/// Relies on nix::sys::socket::SockaddrIn: its FromStr impl parses the
/// standard textual IPv4 socket-address form `a.b.c.d:port` (delegating to
/// the platform's socket-address grammar), and its ip/port accessors return
/// the parsed octets and the port in native endianness. The grammar accepts
/// the canonical dotted-decimal form — each number in shortest decimal, no
/// leading zeros — and maps it back to the same octets and port.
#[verifier::external_body]
pub(crate) fn parse_socket_v4(s: &str) -> (r: Option<Endpoint>)
    ensures
        r matches Some(e) ==> parsed_socket_v4(s@) == Some((e.a, e.b, e.c, e.d, e.port)),
        r is None <==> parsed_socket_v4(s@) is None,
        forall|e: Endpoint| s@ == e.spec_text() ==> r == Some(e),
{
    match s.parse::<nix::sys::socket::SockaddrIn>() {
        Ok(sa) => {
            let o = sa.ip().octets();
            Some(Endpoint { a: o[0], b: o[1], c: o[2], d: o[3], port: sa.port() })
        },
        Err(_) => None,
    }
}

impl Endpoint {
    /// The canonical `a.b.c.d:port` text, as ASCII bytes.
    pub open spec fn spec_text_bytes(self) -> Seq<u8> {
        spec_decimal_bytes(self.a as nat) + seq![0x2eu8] + spec_decimal_bytes(self.b as nat)
            + seq![0x2eu8] + spec_decimal_bytes(self.c as nat) + seq![0x2eu8] + spec_decimal_bytes(
            self.d as nat,
        ) + seq![0x3au8] + spec_decimal_bytes(self.port as nat)
    }

    /// The canonical `a.b.c.d:port` text.
    pub open spec fn spec_text(self) -> Seq<char> {
        self.spec_text_bytes().map_values(|x: u8| x as char)
    }

    /// An endpoint from its four address octets and its port.
    pub fn new(a: u8, b: u8, c: u8, d: u8, port: u16) -> (e: Endpoint)
        ensures
            e == (Endpoint { a, b, c, d, port }),
    {
        Endpoint { a, b, c, d, port }
    }

    /// The canonical `a.b.c.d:port` textual form of this endpoint.
    pub fn to_text(&self) -> (s: String)
        ensures
            s@ == self.spec_text(),
    {
        let mut out: Vec<u8> = Vec::new();
        push_decimal(&mut out, self.a as u32);
        out.push(0x2e);
        push_decimal(&mut out, self.b as u32);
        out.push(0x2e);
        push_decimal(&mut out, self.c as u32);
        out.push(0x2e);
        push_decimal(&mut out, self.d as u32);
        out.push(0x3a);
        push_decimal(&mut out, self.port as u32);
        proof {
            assert(out@ =~= self.spec_text_bytes());
            lemma_decimal_bytes_ascii(self.a as nat);
            lemma_decimal_bytes_ascii(self.b as nat);
            lemma_decimal_bytes_ascii(self.c as nat);
            lemma_decimal_bytes_ascii(self.d as nat);
            lemma_decimal_bytes_ascii(self.port as nat);
        }
        ascii_to_string(out)
    }
}

} // verus!
