use vstd::prelude::*;
use vstd::utf8::{decode_utf8, encode_utf8, encode_utf8_decode_utf8, encode_utf8_valid_utf8, valid_utf8};

use crate::consts;
use crate::SocksError;

verus! {

/// An IP endpoint: the address as raw octets (IPv4) or segments (IPv6), and a port.
#[derive(Debug, Clone, Copy, PartialEq, Eq, Hash)]
pub enum SocketAddr {
    V4 { ip: [u8; 4], port: u16 },
    V6 { ip: [u16; 8], port: u16 },
}

/// A description of a connection target.
#[derive(Debug, Clone, PartialEq, Eq, Hash)]
pub enum TargetAddr {
    /// Connect to an IP address.
    Ip(SocketAddr),
    /// Connect to a fully qualified domain name; the proxy resolves it.
    Domain(String, u16),
}

/// The mathematical value of a `TargetAddr`.
pub enum AddrView {
    V4(Seq<u8>, u16),
    V6(Seq<u16>, u16),
    Domain(Seq<char>, u16),
}

impl View for TargetAddr {
    type V = AddrView;

    open spec fn view(&self) -> AddrView {
        match self {
            TargetAddr::Ip(SocketAddr::V4 { ip, port }) => AddrView::V4(ip@, *port),
            TargetAddr::Ip(SocketAddr::V6 { ip, port }) => AddrView::V6(ip@, *port),
            TargetAddr::Domain(name, port) => AddrView::Domain(name@, *port),
        }
    }
}

/// A port as two big-endian bytes.
pub open spec fn be16(p: u16) -> Seq<u8> {
    seq![(p / 256) as u8, (p % 256) as u8]
}

/// The port that two big-endian bytes stand for.
pub open spec fn be16_value(hi: u8, lo: u8) -> u16 {
    (hi as int * 256 + lo as int) as u16
}

/// The address field of a frame, from the address-type byte to the port.
pub open spec fn addr_field(a: AddrView) -> Seq<u8> {
    match a {
        AddrView::V4(ip, port) => seq![consts::SOCKS5_ADDR_TYPE_IPV4] + ip + be16(port),
        AddrView::Domain(name, port) => seq![
            consts::SOCKS5_ADDR_TYPE_DOMAIN_NAME,
            encode_utf8(name).len() as u8,
        ] + encode_utf8(name) + be16(port),
        AddrView::V6(_, _) => Seq::empty(),
    }
}

/// What encoding an address gives: IPv6 and over-long names are refused.
pub open spec fn encode_addr_spec(a: AddrView) -> Result<Seq<u8>, SocksError> {
    match a {
        AddrView::V6(_, _) => Err(SocksError::UnsupportedIpv6),
        AddrView::Domain(name, _) => if encode_utf8(name).len() > 255 {
            Err(SocksError::ExceededMaxDomainLen(encode_utf8(name).len() as usize))
        } else {
            Ok(addr_field(a))
        },
        AddrView::V4(_, _) => Ok(addr_field(a)),
    }
}

/// Where decoding an address field stands, given the bytes read so far.
pub enum AddrDecode {
    /// This many more bytes are needed.
    NeedMore(nat),
    Done(AddrView),
    Fail(SocksError),
}

/// Decodes an address field that starts at its address-type byte.
pub open spec fn decode_addr_spec(b: Seq<u8>) -> AddrDecode {
    if b.len() < 1 {
        AddrDecode::NeedMore(1)
    } else if b[0] == consts::SOCKS5_ADDR_TYPE_IPV4 {
        if b.len() < 7 {
            AddrDecode::NeedMore((7 - b.len()) as nat)
        } else {
            AddrDecode::Done(AddrView::V4(b.subrange(1, 5), be16_value(b[5], b[6])))
        }
    } else if b[0] == consts::SOCKS5_ADDR_TYPE_DOMAIN_NAME {
        if b.len() < 2 {
            AddrDecode::NeedMore((2 - b.len()) as nat)
        } else if b.len() < 4 + b[1] {
            AddrDecode::NeedMore((4 + b[1] - b.len()) as nat)
        } else {
            let n = b[1] as int;
            let name = b.subrange(2, 2 + n);
            if valid_utf8(name) {
                AddrDecode::Done(
                    AddrView::Domain(decode_utf8(name), be16_value(b[2 + n], b[3 + n])),
                )
            } else {
                AddrDecode::Fail(SocksError::InvalidDomainName)
            }
        }
    } else if b[0] == consts::SOCKS5_ADDR_TYPE_IPV6 {
        AddrDecode::Fail(SocksError::UnsupportedIpv6)
    } else {
        AddrDecode::Fail(SocksError::UnknownAddressType(b[0]))
    }
}

/// What a decoder hands back while a frame is being read.
#[derive(Debug, Clone, PartialEq, Eq)]
pub enum Decoded {
    /// Read this many more bytes, then decode again.
    NeedMore(usize),
    /// The frame is complete and holds this address.
    Complete(TargetAddr),
}

/// `r` is the executable form of the decoding outcome `d`.
pub open spec fn decoded_as(r: Result<Decoded, SocksError>, d: AddrDecode) -> bool {
    match d {
        AddrDecode::NeedMore(n) => r == Ok::<Decoded, SocksError>(Decoded::NeedMore(n as usize)),
        AddrDecode::Done(a) => match r {
            Ok(Decoded::Complete(t)) => t@ == a,
            _ => false,
        },
        AddrDecode::Fail(e) => r == Err::<Decoded, SocksError>(e),
    }
}

/// Encoding a domain name and port as an address field and decoding the field
/// gives back the same name and port, whenever the name fits in 255 bytes.
pub proof fn lemma_domain_round_trip(name: Seq<char>, port: u16)
    requires
        encode_utf8(name).len() <= 255,
    ensures
        decode_addr_spec(addr_field(AddrView::Domain(name, port))) == AddrDecode::Done(
            AddrView::Domain(name, port),
        ),
{
    let enc = encode_utf8(name);
    let n = enc.len() as int;
    let b = addr_field(AddrView::Domain(name, port));
    assert(b[0] == consts::SOCKS5_ADDR_TYPE_DOMAIN_NAME);
    assert(b[1] == n as u8);
    assert(b.subrange(2, 2 + n) =~= enc);
    encode_utf8_valid_utf8(name);
    encode_utf8_decode_utf8(name);
    assert(b[2 + n] == (port / 256) as u8);
    assert(b[3 + n] == (port % 256) as u8);
    assert(be16_value(b[2 + n], b[3 + n]) == port);
}

/// Encoding an IPv4 endpoint as an address field and decoding the field gives
/// back the same octets and port.
pub proof fn lemma_ipv4_round_trip(ip: Seq<u8>, port: u16)
    requires
        ip.len() == 4,
    ensures
        decode_addr_spec(addr_field(AddrView::V4(ip, port))) == AddrDecode::Done(
            AddrView::V4(ip, port),
        ),
{
    let b = addr_field(AddrView::V4(ip, port));
    assert(b.subrange(1, 5) =~= ip);
    assert(be16_value(b[5], b[6]) == port);
}

/// Relies on std's `String::from_utf8`: it succeeds exactly on valid UTF-8, and
/// the string then holds the characters that those bytes encode.
#[verifier::external_body]
fn string_from_utf8(bytes: Vec<u8>) -> (r: Option<String>)
    ensures
        r is Some <==> valid_utf8(bytes@),
        r is Some ==> r->Some_0@ == decode_utf8(bytes@),
{
    String::from_utf8(bytes).ok()
}

/// Appends two big-endian port bytes.
fn push_port(out: &mut Vec<u8>, port: u16)
    ensures
        final(out)@ == old(out)@ + be16(port),
{
    out.push((port / 256) as u8);
    out.push((port % 256) as u8);
    assert(final(out)@ =~= old(out)@ + be16(port));
}

impl TargetAddr {
    /// Appends the address field of this target to `out`; on failure `out`
    /// is left as it was.
    pub fn encode(&self, out: &mut Vec<u8>) -> (r: Result<(), SocksError>)
        ensures
            match encode_addr_spec(self@) {
                Ok(f) => r is Ok && final(out)@ == old(out)@ + f,
                Err(e) => r == Err::<(), SocksError>(e) && final(out)@ == old(out)@,
            },
    {
        match self {
            TargetAddr::Ip(SocketAddr::V4 { ip, port }) => {
                out.push(consts::SOCKS5_ADDR_TYPE_IPV4);
                out.push(ip[0]);
                out.push(ip[1]);
                out.push(ip[2]);
                out.push(ip[3]);
                push_port(out, *port);
                assert(final(out)@ =~= old(out)@ + addr_field(self@));
                Ok(())
            },
            TargetAddr::Ip(SocketAddr::V6 { .. }) => Err(SocksError::UnsupportedIpv6),
            TargetAddr::Domain(name, port) => {
                let bytes: &[u8] = name.as_str().as_bytes();
                let n = bytes.len();
                if n > 255 {
                    return Err(SocksError::ExceededMaxDomainLen(n));
                }
                let ghost start = out@;
                out.push(consts::SOCKS5_ADDR_TYPE_DOMAIN_NAME);
                out.push(n as u8);
                let mut i: usize = 0;
                while i < n
                    invariant
                        n == bytes@.len(),
                        i <= n,
                        out@ == start + seq![consts::SOCKS5_ADDR_TYPE_DOMAIN_NAME, n as u8]
                            + bytes@.subrange(0, i as int),
                    decreases n - i,
                {
                    out.push(bytes[i]);
                    i += 1;
                    assert(bytes@.subrange(0, i as int) =~= bytes@.subrange(0, i - 1) + seq![
                        bytes@[i - 1],
                    ]);
                }
                assert(bytes@.subrange(0, n as int) =~= bytes@);
                push_port(out, *port);
                assert(final(out)@ =~= old(out)@ + addr_field(self@));
                Ok(())
            },
        }
    }

    /// Decodes an address field that starts at `buf[start]`, the address-type
    /// byte, from the bytes read so far.
    pub fn decode(buf: &[u8], start: usize) -> (r: Result<Decoded, SocksError>)
        requires
            start <= buf@.len(),
        ensures
            decoded_as(r, decode_addr_spec(buf@.skip(start as int))),
    {
        let ghost b = buf@.skip(start as int);
        let len = buf.len() - start;
        if len < 1 {
            return Ok(Decoded::NeedMore(1));
        }
        let atyp = buf[start];
        if atyp == consts::SOCKS5_ADDR_TYPE_IPV4 {
            if len < 7 {
                return Ok(Decoded::NeedMore(7 - len));
            }
            let ip: [u8; 4] = [buf[start + 1], buf[start + 2], buf[start + 3], buf[start + 4]];
            let port = read_port(buf[start + 5], buf[start + 6]);
            assert(ip@ =~= b.subrange(1, 5));
            Ok(Decoded::Complete(TargetAddr::Ip(SocketAddr::V4 { ip, port })))
        } else if atyp == consts::SOCKS5_ADDR_TYPE_DOMAIN_NAME {
            if len < 2 {
                return Ok(Decoded::NeedMore(2 - len));
            }
            let n = buf[start + 1] as usize;
            if len < 4 + n {
                return Ok(Decoded::NeedMore(4 + n - len));
            }
            let mut name_bytes: Vec<u8> = Vec::new();
            let mut i: usize = 0;
            while i < n
                invariant
                    n == b[1],
                    4 + n <= len,
                    len == b.len(),
                    start + len == buf@.len(),
                    buf@.len() <= usize::MAX,
                    b == buf@.skip(start as int),
                    i <= n,
                    name_bytes@ == b.subrange(2, 2 + i),
                decreases n - i,
            {
                name_bytes.push(buf[start + 2 + i]);
                i += 1;
                assert(name_bytes@ =~= b.subrange(2, 2 + i));
            }
            let port = read_port(buf[start + 2 + n], buf[start + 3 + n]);
            match string_from_utf8(name_bytes) {
                Some(name) => Ok(Decoded::Complete(TargetAddr::Domain(name, port))),
                None => Err(SocksError::InvalidDomainName),
            }
        } else if atyp == consts::SOCKS5_ADDR_TYPE_IPV6 {
            Err(SocksError::UnsupportedIpv6)
        } else {
            Err(SocksError::UnknownAddressType(atyp))
        }
    }
}

/// The port that two big-endian bytes stand for.
fn read_port(hi: u8, lo: u8) -> (r: u16)
    ensures
        r == be16_value(hi, lo),
{
    (hi as u16) * 256 + (lo as u16)
}

} // verus!
