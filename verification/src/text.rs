//! Textual host representations handed to the outbound dialer: dotted-quad
//! IPv4, and bracketed colon-hex IPv6 with the longest zero run compressed,
//! as the host formats addresses.

use vstd::prelude::*;

verus! {

/// The ASCII decimal digits of a byte value, without leading zeros.
pub open spec fn dec_u8(n: u8) -> Seq<u8> {
    if n < 10 {
        seq![(48 + n) as u8]
    } else if n < 100 {
        seq![(48 + n / 10) as u8, (48 + n % 10) as u8]
    } else {
        seq![(48 + n / 100) as u8, (48 + (n / 10) % 10) as u8, (48 + n % 10) as u8]
    }
}

/// The dotted-quad text of an IPv4 address.
pub open spec fn ipv4_text(a: u8, b: u8, c: u8, d: u8) -> Seq<u8> {
    dec_u8(a) + seq![46u8] + dec_u8(b) + seq![46u8] + dec_u8(c) + seq![46u8] + dec_u8(d)
}

/// The ASCII code of one lowercase hex digit.
pub open spec fn hex_digit_ascii(v: u16) -> u8 {
    if v < 10 {
        (48 + v) as u8
    } else {
        (87 + v) as u8
    }
}

/// The lowercase hex digits of a 16-bit group, without leading zeros.
pub open spec fn hex_u16(n: u16) -> Seq<u8> {
    if n < 0x10 {
        seq![hex_digit_ascii(n)]
    } else if n < 0x100 {
        seq![hex_digit_ascii(n / 16), hex_digit_ascii(n % 16)]
    } else if n < 0x1000 {
        seq![hex_digit_ascii(n / 256), hex_digit_ascii((n / 16) % 16), hex_digit_ascii(n % 16)]
    } else {
        seq![
            hex_digit_ascii(n / 4096),
            hex_digit_ascii((n / 256) % 16),
            hex_digit_ascii((n / 16) % 16),
            hex_digit_ascii(n % 16),
        ]
    }
}

/// How many consecutive groups are zero, starting at `i`.
pub open spec fn zero_run_len(w: Seq<u16>, i: int) -> int
    decreases w.len() - i when 0 <= i <= w.len()
{
    if i >= w.len() || w[i] != 0 {
        0
    } else {
        1 + zero_run_len(w, i + 1)
    }
}

/// The start of the leftmost longest zero run at or after `i`; `w.len()`
/// when every group from `i` on is nonzero.
pub open spec fn best_zero_run_from(w: Seq<u16>, i: int) -> int
    decreases w.len() - i when 0 <= i <= w.len()
{
    if i >= w.len() {
        i
    } else {
        let rest = best_zero_run_from(w, i + 1);
        if zero_run_len(w, i) >= zero_run_len(w, rest) {
            i
        } else {
            rest
        }
    }
}

/// The hex groups `lo..hi` joined with `:`.
pub open spec fn hex_groups(w: Seq<u16>, lo: int, hi: int) -> Seq<u8>
    decreases hi - lo when lo <= hi
{
    if hi <= lo {
        Seq::empty()
    } else if hi == lo + 1 {
        hex_u16(w[lo])
    } else {
        hex_groups(w, lo, hi - 1) + seq![58u8] + hex_u16(w[hi - 1])
    }
}

/// Whether the eight groups encode an IPv4-mapped address, which is printed
/// in its mixed form.
pub open spec fn is_ipv4_mapped(w: Seq<u16>) -> bool {
    w.len() == 8 && w[0] == 0 && w[1] == 0 && w[2] == 0 && w[3] == 0 && w[4] == 0 && w[5]
        == 0xffff
}

/// The text of eight 16-bit groups: the mixed form for IPv4-mapped
/// addresses; otherwise colon-hex with the leftmost longest zero run of two
/// or more groups compressed to `::`.
pub open spec fn ipv6_text(w: Seq<u16>) -> Seq<u8> {
    if is_ipv4_mapped(w) {
        seq![58u8, 58u8, 102u8, 102u8, 102u8, 102u8, 58u8] + ipv4_text(
            (w[6] / 256) as u8,
            (w[6] % 256) as u8,
            (w[7] / 256) as u8,
            (w[7] % 256) as u8,
        )
    } else {
        let s = best_zero_run_from(w, 0);
        if zero_run_len(w, s) > 1 {
            hex_groups(w, 0, s) + seq![58u8, 58u8] + hex_groups(w, s + zero_run_len(w, s), 8)
        } else {
            hex_groups(w, 0, 8)
        }
    }
}

/// The bracketed host string of an IPv6 address, as the dialer expects it.
pub open spec fn ipv6_host(w: Seq<u16>) -> Seq<u8> {
    seq![91u8] + ipv6_text(w) + seq![93u8]
}

proof fn lemma_zero_run_le(w: Seq<u16>, i: int)
    requires
        0 <= i <= w.len(),
    ensures
        0 <= zero_run_len(w, i) <= w.len() - i,
    decreases w.len() - i,
{
    if i < w.len() && w[i] == 0 {
        lemma_zero_run_le(w, i + 1);
    }
}

/// Append the decimal text of one byte.
fn push_dec_u8(out: &mut Vec<u8>, n: u8)
    ensures
        final(out)@ == old(out)@ + dec_u8(n),
{
    if n < 10 {
        out.push(48 + n);
    } else if n < 100 {
        out.push(48 + n / 10);
        out.push(48 + n % 10);
    } else {
        out.push(48 + n / 100);
        out.push(48 + (n / 10) % 10);
        out.push(48 + n % 10);
    }
    proof {
        assert(out@ =~= old(out)@ + dec_u8(n));
    }
}

/// The dotted-quad text of an IPv4 address, one decimal byte per part.
pub fn format_ipv4(a: u8, b: u8, c: u8, d: u8) -> (r: Vec<u8>)
    ensures
        r@ == ipv4_text(a, b, c, d),
{
    let mut out: Vec<u8> = Vec::new();
    push_dec_u8(&mut out, a);
    out.push(46);
    push_dec_u8(&mut out, b);
    out.push(46);
    push_dec_u8(&mut out, c);
    out.push(46);
    push_dec_u8(&mut out, d);
    proof {
        assert(out@ =~= ipv4_text(a, b, c, d));
    }
    out
}

/// Append the lowercase hex text of one group.
fn push_hex_u16(out: &mut Vec<u8>, n: u16)
    ensures
        final(out)@ == old(out)@ + hex_u16(n),
{
    if n < 0x10 {
        out.push(hex_digit(n));
    } else if n < 0x100 {
        out.push(hex_digit(n / 16));
        out.push(hex_digit(n % 16));
    } else if n < 0x1000 {
        out.push(hex_digit(n / 256));
        out.push(hex_digit((n / 16) % 16));
        out.push(hex_digit(n % 16));
    } else {
        out.push(hex_digit(n / 4096));
        out.push(hex_digit((n / 256) % 16));
        out.push(hex_digit((n / 16) % 16));
        out.push(hex_digit(n % 16));
    }
    proof {
        assert(out@ =~= old(out)@ + hex_u16(n));
    }
}

/// One lowercase hex digit.
fn hex_digit(v: u16) -> (r: u8)
    requires
        v < 16,
    ensures
        r == hex_digit_ascii(v),
{
    if v < 10 {
        48 + (v as u8)
    } else {
        87 + (v as u8)
    }
}

/// Append the hex groups `lo..hi` joined with `:`.
fn push_groups(out: &mut Vec<u8>, w: &Vec<u16>, lo: usize, hi: usize)
    requires
        lo <= hi <= w@.len(),
    ensures
        final(out)@ == old(out)@ + hex_groups(w@, lo as int, hi as int),
{
    let mut i: usize = lo;
    proof {
        assert(out@ =~= old(out)@ + hex_groups(w@, lo as int, lo as int));
    }
    while i < hi
        invariant
            lo <= i <= hi <= w@.len(),
            out@ == old(out)@ + hex_groups(w@, lo as int, i as int),
        decreases hi - i,
    {
        if i > lo {
            out.push(58);
        }
        push_hex_u16(out, w[i]);
        i = i + 1;
    }
}

/// The bracketed colon-hex host text of an IPv6 address given as eight
/// big-endian groups, with the longest zero run compressed.
pub fn format_ipv6(w: &Vec<u16>) -> (r: Vec<u8>)
    requires
        w@.len() == 8,
    ensures
        r@ == ipv6_host(w@),
{
    let mut out: Vec<u8> = Vec::new();
    out.push(91);
    if w[0] == 0 && w[1] == 0 && w[2] == 0 && w[3] == 0 && w[4] == 0 && w[5] == 0xffff {
        out.push(58);
        out.push(58);
        out.push(102);
        out.push(102);
        out.push(102);
        out.push(102);
        out.push(58);
        let quad = format_ipv4(
            (w[6] / 256) as u8,
            (w[6] % 256) as u8,
            (w[7] / 256) as u8,
            (w[7] % 256) as u8,
        );
        let mut k: usize = 0;
        proof {
            assert(out@ =~= seq![91u8, 58u8, 58u8, 102u8, 102u8, 102u8, 102u8, 58u8]
                + quad@.take(0));
        }
        while k < quad.len()
            invariant
                k <= quad@.len(),
                out@ == seq![91u8, 58u8, 58u8, 102u8, 102u8, 102u8, 102u8, 58u8] + quad@.take(
                    k as int,
                ),
            decreases quad@.len() - k,
        {
            out.push(quad[k]);
            proof {
                assert(quad@.take(k + 1) =~= quad@.take(k as int).push(quad@[k as int]));
            }
            k = k + 1;
        }
        proof {
            assert(quad@.take(quad@.len() as int) =~= quad@);
            assert(out@ =~= seq![91u8] + ipv6_text(w@));
        }
    } else {
        // run lengths of zero groups, computed right to left
        let mut runs: Vec<usize> = Vec::new();
        let mut v: usize = 9;
        while v > 0
            invariant
                v <= 9,
                runs@.len() == 9 - v,
                forall|k: int| 0 <= k < runs@.len() ==> runs@[k] as int == zero_run_len(
                    w@,
                    8 - k,
                ),
                w@.len() == 8,
            decreases v,
        {
            let i = v - 1;
            if i == 8 || w[i] != 0 {
                runs.push(0);
            } else {
                let prev = runs[8 - (i + 1)];
                proof {
                    lemma_zero_run_le(w@, i + 1);
                }
                runs.push(1 + prev);
            }
            v = i;
        }
        // runs[8 - i] == zero_run_len(w, i); now the leftmost longest run
        let mut best: usize = 8;
        let mut i: usize = 8;
        while i > 0
            invariant
                i <= 8,
                best <= 8,
                w@.len() == 8,
                runs@.len() == 9,
                forall|k: int| 0 <= k < 9 ==> runs@[k] as int == zero_run_len(w@, 8 - k),
                best as int == best_zero_run_from(w@, i as int),
            decreases i,
        {
            let j = i - 1;
            if runs[8 - j] >= runs[8 - best] {
                best = j;
            }
            i = j;
        }
        let run = runs[8 - best];
        proof {
            lemma_zero_run_le(w@, best as int);
        }
        if run > 1 {
            push_groups(&mut out, w, 0, best);
            out.push(58);
            out.push(58);
            push_groups(&mut out, w, best + run, 8);
        } else {
            push_groups(&mut out, w, 0, 8);
        }
        proof {
            assert(out@ =~= seq![91u8] + ipv6_text(w@));
        }
    }
    out.push(93);
    proof {
        assert(out@ =~= ipv6_host(w@));
    }
    out
}

} // verus!
