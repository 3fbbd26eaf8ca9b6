//! The VLESS request parser: a binary header with fixed and variable-length
//! fields read from the front of the WebSocket byte stream. The parser is a
//! pure function of the bytes buffered so far; when too few have arrived it
//! reports that and is run again on a longer prefix.

use crate::hex::{uid_match, user_id_matches};
use crate::text::{format_ipv4, format_ipv6, ipv4_text, ipv6_host};
use crate::TunnelError;
use vstd::prelude::*;
use vstd::slice::{slice_subrange, slice_to_vec};
use vstd::utf8::valid_utf8;

verus! {

/// A parsed request: the target the client asked for and how many bytes of
/// the stream the header occupied. Everything after `consumed` is payload.
#[derive(Debug)]
pub struct VlessRequest {
    /// Target port, big-endian on the wire.
    pub port: u16,
    /// Host text for the dialer: dotted quad, domain, or bracketed IPv6.
    pub host: Vec<u8>,
    /// Exact length of the request header in bytes.
    pub consumed: usize,
}

/// What one run of the parser yields on the bytes buffered so far.
pub enum ParseResult {
    /// Too few bytes have arrived; parse again on a longer prefix.
    Incomplete,
    /// The header is complete and valid.
    Done(VlessRequest),
    /// The header is complete enough to be known invalid.
    Reject(TunnelError),
}

/// The specification counterpart of [`ParseResult`].
pub enum SpecOutcome {
    Incomplete,
    Done { port: u16, host: Seq<u8>, consumed: int },
    Reject(TunnelError),
}

/// A big-endian 16-bit value from two bytes.
pub open spec fn be16(hi: u8, lo: u8) -> u16 {
    ((hi as int) * 256 + (lo as int)) as u16
}

/// The eight big-endian groups of an IPv6 address starting at offset `o`.
pub open spec fn ipv6_words(d: Seq<u8>, o: int) -> Seq<u16> {
    Seq::new(8, |i: int| be16(d[o + 2 * i], d[o + 2 * i + 1]))
}

/// The length of the address field once the address type is known: 4 for
/// IPv4, one length byte plus that many bytes for a domain, 16 for IPv6.
pub open spec fn addr_len(d: Seq<u8>) -> int {
    let a = d[17] as int;
    if d[21 + a] == 1 {
        4
    } else if d[21 + a] == 2 {
        1 + d[22 + a] as int
    } else if d[21 + a] == 3 {
        16
    } else {
        0
    }
}

/// What parsing the byte prefix `d` against the configured user id `uid`
/// yields. Field order and validation order follow the wire format: version,
/// user id, addon skip, command, port, address type, address.
pub open spec fn parse_vless(d: Seq<u8>, uid: Seq<u8>) -> SpecOutcome {
    if d.len() < 18 {
        SpecOutcome::Incomplete
    } else if d[0] != 0 {
        SpecOutcome::Reject(TunnelError::InvalidVersion(d[0]))
    } else if !uid_match(uid, d.subrange(1, 17)) {
        SpecOutcome::Reject(TunnelError::UnknownUserId)
    } else {
        let a = d[17] as int;
        if d.len() < 22 + a {
            SpecOutcome::Incomplete
        } else {
            let cmd = d[18 + a];
            if cmd == 2 {
                SpecOutcome::Reject(TunnelError::UdpRequested)
            } else if cmd != 1 {
                SpecOutcome::Reject(TunnelError::UnknownProtocol(cmd))
            } else {
                let port = be16(d[19 + a], d[20 + a]);
                let at = d[21 + a];
                if at == 1 {
                    if d.len() < 26 + a {
                        SpecOutcome::Incomplete
                    } else {
                        SpecOutcome::Done {
                            port,
                            host: ipv4_text(d[22 + a], d[23 + a], d[24 + a], d[25 + a]),
                            consumed: 26 + a,
                        }
                    }
                } else if at == 2 {
                    if d.len() < 23 + a {
                        SpecOutcome::Incomplete
                    } else {
                        let n = d[22 + a] as int;
                        if d.len() < 23 + a + n {
                            SpecOutcome::Incomplete
                        } else {
                            let dom = d.subrange(23 + a, 23 + a + n);
                            if valid_utf8(dom) {
                                SpecOutcome::Done { port, host: dom, consumed: 23 + a + n }
                            } else {
                                SpecOutcome::Reject(TunnelError::InvalidDomain)
                            }
                        }
                    }
                } else if at == 3 {
                    if d.len() < 38 + a {
                        SpecOutcome::Incomplete
                    } else {
                        SpecOutcome::Done {
                            port,
                            host: ipv6_host(ipv6_words(d, 22 + a)),
                            consumed: 38 + a,
                        }
                    }
                } else {
                    SpecOutcome::Reject(TunnelError::InvalidAddressType(at))
                }
            }
        }
    }
}

/// Relies on core::str::from_utf8: it returns Ok exactly when the bytes are
/// valid UTF-8.
#[verifier::external_body]
fn utf8_check(b: &Vec<u8>) -> (r: bool)
    ensures
        r == valid_utf8(b@),
{
    core::str::from_utf8(b.as_slice()).is_ok()
}

/// Parse the buffered prefix of the stream against the configured user id.
/// The result is exactly what [`parse_vless`] says of the bytes: the same
/// target, the same error, or the need for more bytes.
pub fn parse_request(data: &Vec<u8>, uid: &Vec<u8>) -> (r: ParseResult)
    ensures
        match r {
            ParseResult::Incomplete => parse_vless(data@, uid@) is Incomplete,
            ParseResult::Done(q) => parse_vless(data@, uid@) == (SpecOutcome::Done {
                port: q.port,
                host: q.host@,
                consumed: q.consumed as int,
            }),
            ParseResult::Reject(e) => parse_vless(data@, uid@) == SpecOutcome::Reject(e),
        },
{
    let dlen = data.len();
    if dlen < 18 {
        return ParseResult::Incomplete;
    }
    if data[0] != 0 {
        return ParseResult::Reject(TunnelError::InvalidVersion(data[0]));
    }
    let candidate: &[u8] = slice_subrange(data.as_slice(), 1, 17);
    if !user_id_matches(uid, candidate) {
        return ParseResult::Reject(TunnelError::UnknownUserId);
    }
    let a = data[17] as usize;
    if dlen < 22 + a {
        return ParseResult::Incomplete;
    }
    let cmd = data[18 + a];
    if cmd == 2 {
        return ParseResult::Reject(TunnelError::UdpRequested);
    }
    if cmd != 1 {
        return ParseResult::Reject(TunnelError::UnknownProtocol(cmd));
    }
    let port: u16 = (data[19 + a] as u16) * 256 + (data[20 + a] as u16);
    let at = data[21 + a];
    if at == 1 {
        if dlen < 26 + a {
            return ParseResult::Incomplete;
        }
        let host = format_ipv4(data[22 + a], data[23 + a], data[24 + a], data[25 + a]);
        ParseResult::Done(VlessRequest { port, host, consumed: 26 + a })
    } else if at == 2 {
        if dlen < 23 + a {
            return ParseResult::Incomplete;
        }
        let n = data[22 + a] as usize;
        if dlen < 23 + a + n {
            return ParseResult::Incomplete;
        }
        let dom = slice_to_vec(slice_subrange(data.as_slice(), 23 + a, 23 + a + n));
        if !utf8_check(&dom) {
            return ParseResult::Reject(TunnelError::InvalidDomain);
        }
        ParseResult::Done(VlessRequest { port, host: dom, consumed: 23 + a + n })
    } else if at == 3 {
        if dlen < 38 + a {
            return ParseResult::Incomplete;
        }
        let mut words: Vec<u16> = Vec::new();
        let mut i: usize = 0;
        while i < 8
            invariant
                i <= 8,
                data@.len() >= 38 + a,
                a == data@[17] as int,
                words@ == ipv6_words(data@, 22 + a).take(i as int),
            decreases 8 - i,
        {
            let hi = data[22 + a + 2 * i];
            let lo = data[22 + a + 2 * i + 1];
            words.push((hi as u16) * 256 + (lo as u16));
            proof {
                assert(words@ =~= ipv6_words(data@, 22 + a).take(i + 1));
            }
            i = i + 1;
        }
        proof {
            assert(words@ =~= ipv6_words(data@, 22 + a as int));
        }
        let host = format_ipv6(&words);
        ParseResult::Done(VlessRequest { port, host, consumed: 38 + a })
    } else {
        ParseResult::Reject(TunnelError::InvalidAddressType(at))
    }
}

/// A request whose first byte is not the version 0 is rejected as invalid
/// data as soon as the fixed prefix has arrived; it never parses to a
/// target, so no dial happens.
pub proof fn law_nonzero_version_rejected(d: Seq<u8>, uid: Seq<u8>)
    requires
        d.len() >= 18,
        d[0] != 0,
    ensures
        parse_vless(d, uid) == SpecOutcome::Reject(TunnelError::InvalidVersion(d[0])),
{
}

/// A request whose 16 user-id bytes do not match the configured user id is
/// rejected as invalid data, whatever follows them.
pub proof fn law_wrong_user_rejected(d: Seq<u8>, uid: Seq<u8>)
    requires
        d.len() >= 18,
        d[0] == 0,
        !uid_match(uid, d.subrange(1, 17)),
    ensures
        parse_vless(d, uid) == SpecOutcome::Reject(TunnelError::UnknownUserId),
{
}

/// A request whose command byte is not TCP is rejected as invalid data once
/// the command has arrived: UDP by name, anything else as unknown.
pub proof fn law_non_tcp_rejected(d: Seq<u8>, uid: Seq<u8>)
    requires
        d.len() >= 22 + d[17],
        d[0] == 0,
        uid_match(uid, d.subrange(1, 17)),
        d[18 + d[17] as int] != 1,
    ensures
        parse_vless(d, uid) matches SpecOutcome::Reject(e) && e.kind_spec()
            == crate::ErrorKind::InvalidData,
{
}

/// A request whose address-type byte names no known family is rejected as
/// invalid data.
pub proof fn law_bad_address_type_rejected(d: Seq<u8>, uid: Seq<u8>)
    requires
        d.len() >= 22 + d[17],
        d[0] == 0,
        uid_match(uid, d.subrange(1, 17)),
        d[18 + d[17] as int] == 1,
        d[21 + d[17] as int] != 1,
        d[21 + d[17] as int] != 2,
        d[21 + d[17] as int] != 3,
    ensures
        parse_vless(d, uid) == SpecOutcome::Reject(
            TunnelError::InvalidAddressType(d[21 + d[17] as int]),
        ),
{
}

/// Every rejection the parser can produce is invalid client data — a bad
/// version, an unknown user, a non-TCP command, a bad address — so a session
/// that ends in one always closes with code 1003.
pub proof fn law_parser_rejections_are_invalid_data(d: Seq<u8>, uid: Seq<u8>)
    ensures
        parse_vless(d, uid) matches SpecOutcome::Reject(e) ==> e.kind_spec()
            == crate::ErrorKind::InvalidData,
{
}

/// Once the parser has decided — a target or a rejection — further bytes
/// arriving behind the header cannot change the decision: parsing a buffer
/// that has grown by any extension yields the same outcome. The payload may
/// therefore share the buffer with the header, and the relay takes exactly
/// the bytes behind `consumed`.
pub proof fn law_more_bytes_keep_the_outcome(d: Seq<u8>, e: Seq<u8>, uid: Seq<u8>)
    requires
        !(parse_vless(d, uid) is Incomplete),
    ensures
        parse_vless(d + e, uid) == parse_vless(d, uid),
{
    let c = d + e;
    assert forall|i: int| 0 <= i < d.len() implies c[i] == d[i] by {}
    if d.len() >= 18 {
        assert(c.subrange(1, 17) =~= d.subrange(1, 17));
        let a = d[17] as int;
        if d.len() >= 22 + a && d[18 + a] == 1 {
            let at = d[21 + a];
            if at == 2 && d.len() >= 23 + a && d.len() >= 23 + a + d[22 + a] {
                let n = d[22 + a] as int;
                assert(c.subrange(23 + a, 23 + a + n) =~= d.subrange(23 + a, 23 + a + n));
            }
            if at == 3 && d.len() >= 38 + a {
                assert(ipv6_words(c, 22 + a) =~= ipv6_words(d, 22 + a));
            }
        }
    }
}

/// A completed parse consumes exactly `22 + addon_len + addr_len` bytes:
/// the 18-byte prefix, the addons, the 4-byte address prefix, and the
/// address itself. Everything after that is payload.
pub proof fn law_exact_consumption(d: Seq<u8>, uid: Seq<u8>)
    ensures
        parse_vless(d, uid) matches SpecOutcome::Done { consumed, .. } ==> consumed == 22 + d[17]
            + addr_len(d),
{
}

} // verus!
