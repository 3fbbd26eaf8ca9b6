//! Decoding the early data a client piggybacks on the WebSocket upgrade in
//! the `Sec-WebSocket-Protocol` header: a URL-safe base64 value, possibly
//! written with the standard alphabet or with padding, either of which is
//! normalized away before decoding.

use crate::TunnelError;
use vstd::prelude::*;

verus! {

/// What URL-safe base64 decoding without padding yields on given bytes:
/// `Some` with the decoded bytes exactly when the input decodes, `None`
/// when the decoder rejects it. The decoding itself is the outside
/// decoder's; this names its result.
pub uninterp spec fn b64_decoded(s: Seq<u8>) -> Option<Seq<u8>>;

/// Relies on base64_url::decode: URL-safe base64 without padding, a pure
/// function of the input bytes.
#[verifier::external_body]
fn decode_base64_url(b: &Vec<u8>) -> (r: Option<Vec<u8>>)
    ensures
        match r {
            Some(v) => b64_decoded(b@) == Some(v@),
            None => b64_decoded(b@) is None,
        },
{
    base64_url::decode(b.as_slice()).ok()
}

/// One header byte translated to the URL-safe alphabet: `+` becomes `-`,
/// `/` becomes `_`, everything else stays.
pub open spec fn url_safe_byte(b: u8) -> u8 {
    if b == 43 {
        45u8
    } else if b == 47 {
        95u8
    } else {
        b
    }
}

/// The header value translated to the URL-safe alphabet, with every `=`
/// padding byte dropped.
pub open spec fn normalized(s: Seq<u8>) -> Seq<u8>
    decreases s.len(),
{
    if s.len() == 0 {
        Seq::empty()
    } else {
        normalized(s.drop_last()) + if s.last() == 61 {
            Seq::empty()
        } else {
            seq![url_safe_byte(s.last())]
        }
    }
}

/// Translate a header value to the URL-safe alphabet and strip `=` padding.
fn normalize(s: &Vec<u8>) -> (r: Vec<u8>)
    ensures
        r@ == normalized(s@),
{
    let mut out: Vec<u8> = Vec::new();
    let mut i: usize = 0;
    while i < s.len()
        invariant
            i <= s@.len(),
            out@ == normalized(s@.take(i as int)),
        decreases s@.len() - i,
    {
        let b = s[i];
        proof {
            assert(s@.take(i + 1).drop_last() =~= s@.take(i as int));
            assert(s@.take(i + 1).last() == b);
        }
        if b == 43 {
            out.push(45);
        } else if b == 47 {
            out.push(95);
        } else if b != 61 {
            out.push(b);
        }
        proof {
            assert(out@ =~= normalized(s@.take(i + 1)));
        }
        i = i + 1;
    }
    proof {
        assert(s@.take(s@.len() as int) =~= s@);
    }
    out
}

/// Extract the early data bytes from the optional header value. An absent
/// or empty header means no early data. Otherwise the value is normalized
/// to the URL-safe alphabet without padding and decoded; a value that does
/// not decode is invalid data.
pub fn parse_early_data(data: Option<Vec<u8>>) -> (r: Result<Option<Vec<u8>>, TunnelError>)
    ensures
        ({
            let h = match data {
                Some(v) => v@,
                None => Seq::<u8>::empty(),
            };
            if h.len() == 0 {
                r matches Ok(o) && o is None
            } else {
                match b64_decoded(normalized(h)) {
                    Some(d) => r matches Ok(o) && (o matches Some(v) && v@ == d),
                    None => r == Err::<Option<Vec<u8>>, TunnelError>(
                        TunnelError::UnsupportedEarlyData,
                    ),
                }
            }
        }),
{
    match data {
        None => Ok(None),
        Some(v) => {
            if v.len() == 0 {
                Ok(None)
            } else {
                let norm = normalize(&v);
                match decode_base64_url(&norm) {
                    Some(d) => Ok(Some(d)),
                    None => Err(TunnelError::UnsupportedEarlyData),
                }
            }
        },
    }
}

} // verus!
