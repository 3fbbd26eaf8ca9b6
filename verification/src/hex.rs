//! Parsing a configured user id out of its hex representation, and comparing
//! it against the 16 user-id bytes of a request.

use vstd::prelude::*;
use vstd::string::StringSliceAdditionalSpecFns;

verus! {

/// Whether a byte is the ASCII code of a hex digit.
pub open spec fn is_hex_digit(b: u8) -> bool {
    (48 <= b && b <= 57)  // '0'..='9'
    || (97 <= b && b <= 102)  // 'a'..='f'
    || (65 <= b && b <= 70)  // 'A'..='F'
}

/// The nibble a hex digit stands for.
pub open spec fn hex_digit_value(b: u8) -> u8 {
    if 48 <= b && b <= 57 {
        (b - 48) as u8
    } else if 97 <= b && b <= 102 {
        (b - 97 + 10) as u8
    } else {
        (b - 65 + 10) as u8
    }
}

/// The nibbles contributed by the hex digits of `s`, in order; every other
/// byte is skipped.
pub open spec fn nibbles_of(s: Seq<u8>) -> Seq<u8>
    decreases s.len(),
{
    if s.len() == 0 {
        Seq::empty()
    } else {
        nibbles_of(s.drop_last()) + if is_hex_digit(s.last()) {
            seq![hex_digit_value(s.last())]
        } else {
            Seq::empty()
        }
    }
}

/// Consecutive nibbles paired high-then-low into bytes; a trailing unpaired
/// nibble contributes nothing.
pub open spec fn pair_nibbles(ns: Seq<u8>) -> Seq<u8> {
    Seq::new((ns.len() / 2) as nat, |i: int| ((ns[2 * i] as int) * 16 + (ns[2 * i + 1] as int)) as u8)
}

/// The bytes encoded by the hex digits of `s`.
pub open spec fn hex_bytes_of(s: Seq<u8>) -> Seq<u8> {
    pair_nibbles(nibbles_of(s))
}

proof fn lemma_nibbles_bounded(s: Seq<u8>)
    ensures
        forall|i: int| 0 <= i < nibbles_of(s).len() ==> nibbles_of(s)[i] < 16,
    decreases s.len(),
{
    if s.len() > 0 {
        lemma_nibbles_bounded(s.drop_last());
        assert forall|i: int| 0 <= i < nibbles_of(s).len() implies nibbles_of(s)[i] < 16 by {
            if i < nibbles_of(s.drop_last()).len() {
                assert(nibbles_of(s)[i] == nibbles_of(s.drop_last())[i]);
            }
        }
    }
}

/// Read the hex digits of a configuration string into bytes: every non-hex
/// character is skipped, each hex digit is one nibble, and consecutive
/// nibbles pair high-then-low into one byte each.
pub fn parse_hex(hex_asm: &str) -> (r: Vec<u8>)
    ensures
        r@ == hex_bytes_of(hex_asm.spec_bytes()),
{
    let bytes: &[u8] = hex_asm.as_bytes();
    let mut nibbles: Vec<u8> = Vec::new();
    let mut i: usize = 0;
    while i < bytes.len()
        invariant
            i <= bytes@.len(),
            nibbles@ == nibbles_of(bytes@.take(i as int)),
        decreases bytes@.len() - i,
    {
        let b = bytes[i];
        proof {
            assert(bytes@.take(i + 1).drop_last() =~= bytes@.take(i as int));
            assert(bytes@.take(i + 1).last() == b);
        }
        if (48 <= b && b <= 57) {
            nibbles.push(b - 48);
        } else if (97 <= b && b <= 102) {
            nibbles.push(b - 97 + 10);
        } else if (65 <= b && b <= 70) {
            nibbles.push(b - 65 + 10);
        }
        proof {
            assert(nibbles@ =~= nibbles_of(bytes@.take(i + 1)));
        }
        i = i + 1;
    }
    proof {
        assert(bytes@.take(bytes@.len() as int) =~= bytes@);
        lemma_nibbles_bounded(bytes@);
    }
    let ghost ns = nibbles@;
    let half: usize = nibbles.len() / 2;
    let mut out: Vec<u8> = Vec::new();
    let mut j: usize = 0;
    let mut idx: usize = 0;
    while j < half
        invariant
            j <= half,
            idx == 2 * j,
            half == ns.len() / 2,
            ns.len() <= usize::MAX,
            nibbles@ == ns,
            forall|k: int| 0 <= k < ns.len() ==> ns[k] < 16,
            out@ == pair_nibbles(ns).take(j as int),
        decreases half - j,
    {
        proof {
            assert(idx + 1 < ns.len());
        }
        let hi = nibbles[idx];
        let lo = nibbles[idx + 1];
        out.push(hi * 16 + lo);
        proof {
            assert(out@ =~= pair_nibbles(ns).take(j + 1));
        }
        j = j + 1;
        idx = idx + 2;
    }
    proof {
        assert(pair_nibbles(ns).take(half as int) =~= pair_nibbles(ns));
    }
    out
}

/// Whether the parsed user id agrees with the candidate bytes wherever both
/// are defined: the comparison stops at the shorter of the two.
pub open spec fn uid_match(uid: Seq<u8>, candidate: Seq<u8>) -> bool {
    forall|i: int| 0 <= i < uid.len() && i < candidate.len() ==> uid[i] == candidate[i]
}

/// Compare a parsed user id element-wise against the candidate bytes of a
/// request, stopping at the shorter length.
pub fn user_id_matches(uid: &Vec<u8>, candidate: &[u8]) -> (r: bool)
    ensures
        r == uid_match(uid@, candidate@),
{
    let n: usize = if uid.len() < candidate.len() {
        uid.len()
    } else {
        candidate.len()
    };
    let mut i: usize = 0;
    while i < n
        invariant
            i <= n,
            n == if uid@.len() < candidate@.len() {
                uid@.len()
            } else {
                candidate@.len()
            },
            forall|k: int| 0 <= k < i ==> uid@[k] == candidate@[k],
        decreases n - i,
    {
        if uid[i] != candidate[i] {
            return false;
        }
        i = i + 1;
    }
    true
}

} // verus!
