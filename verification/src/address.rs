//! Network addresses of cast devices and their textual form.

use vstd::prelude::*;
use vstd::string::StringExecFns;
use crate::text::{decimal_text, hex_text, push_decimal, push_hex};

verus! {

/// The address of a device: four octets, or eight sixteen-bit segments.
#[derive(Clone, Copy, Debug, PartialEq, Eq, Structural)]
pub enum DeviceAddr {
    V4 { a: u8, b: u8, c: u8, d: u8 },
    V6 { s0: u16, s1: u16, s2: u16, s3: u16, s4: u16, s5: u16, s6: u16, s7: u16 },
}

/// Dotted decimal: the four octets in base ten, separated by full stops.
pub open spec fn v4_text(a: u8, b: u8, c: u8, d: u8) -> Seq<char> {
    decimal_text(a as nat) + seq!['.'] + decimal_text(b as nat) + seq!['.'] + decimal_text(
        c as nat,
    ) + seq!['.'] + decimal_text(d as nat)
}

/// The segments in base sixteen, separated by colons.
pub open spec fn join_hex(segs: Seq<u16>) -> Seq<char>
    decreases segs.len(),
{
    if segs.len() == 0 {
        Seq::empty()
    } else if segs.len() == 1 {
        hex_text(segs[0] as nat)
    } else {
        join_hex(segs.drop_last()) + seq![':'] + hex_text(segs.last() as nat)
    }
}

/// How many zero segments follow one another from index `i` on.
pub open spec fn zero_run_at(segs: Seq<u16>, i: int) -> nat
    decreases segs.len() - i,
{
    if 0 <= i < segs.len() && segs[i] == 0 {
        1 + zero_run_at(segs, i + 1)
    } else {
        0
    }
}

/// The leftmost index below `upto` at which the longest run of zero segments
/// starts.
pub open spec fn longest_run_start(segs: Seq<u16>, upto: int) -> int
    decreases upto,
{
    if upto <= 0 {
        0
    } else {
        let before = longest_run_start(segs, upto - 1);
        if zero_run_at(segs, upto - 1) > zero_run_at(segs, before) {
            upto - 1
        } else {
            before
        }
    }
}

/// Whether the segments spell an IPv4 address mapped into IPv6: five zero
/// segments, then `ffff`.
pub open spec fn is_v4_mapped(segs: Seq<u16>) -> bool {
    &&& segs.len() == 8
    &&& segs[0] == 0
    &&& segs[1] == 0
    &&& segs[2] == 0
    &&& segs[3] == 0
    &&& segs[4] == 0
    &&& segs[5] == 0xffff
}

/// The canonical text of eight segments.
///
/// A mapped IPv4 address is written as `::ffff:` and the dotted decimal of
/// its last four octets. Otherwise the leftmost longest run of two or more
/// zero segments is replaced by `::`, and the other segments are written in
/// base sixteen between colons.
pub open spec fn v6_text(segs: Seq<u16>) -> Seq<char>
    recommends
        segs.len() == 8,
{
    if is_v4_mapped(segs) {
        seq![':', ':', 'f', 'f', 'f', 'f', ':'] + v4_text(
            (segs[6] / 256) as u8,
            (segs[6] % 256) as u8,
            (segs[7] / 256) as u8,
            (segs[7] % 256) as u8,
        )
    } else {
        let start = longest_run_start(segs, 8);
        let len = zero_run_at(segs, start);
        if len > 1 {
            join_hex(segs.subrange(0, start)) + seq![':', ':'] + join_hex(
                segs.subrange(start + len, 8),
            )
        } else {
            join_hex(segs)
        }
    }
}

impl DeviceAddr {
    /// The eight segments of an IPv6 address; empty for IPv4.
    pub open spec fn segments(self) -> Seq<u16> {
        match self {
            DeviceAddr::V4 { .. } => Seq::empty(),
            DeviceAddr::V6 { s0, s1, s2, s3, s4, s5, s6, s7 } => seq![
                s0,
                s1,
                s2,
                s3,
                s4,
                s5,
                s6,
                s7,
            ],
        }
    }

    /// The address as text, as it appears in a URL's host and in replies.
    pub open spec fn text(self) -> Seq<char> {
        match self {
            DeviceAddr::V4 { a, b, c, d } => v4_text(a, b, c, d),
            DeviceAddr::V6 { .. } => v6_text(self.segments()),
        }
    }

    /// Renders the address.
    pub fn to_text(&self) -> (s: String)
        ensures
            s@ == self.text(),
    {
        let mut out = String::new();
        match *self {
            DeviceAddr::V4 { a, b, c, d } => {
                push_v4(&mut out, a, b, c, d);
            },
            DeviceAddr::V6 { s0, s1, s2, s3, s4, s5, s6, s7 } => {
                let segs: [u16; 8] = [s0, s1, s2, s3, s4, s5, s6, s7];
                push_v6(&mut out, &segs);
            },
        }
        out
    }
}

/// Appends the dotted decimal of four octets.
fn push_v4(out: &mut String, a: u8, b: u8, c: u8, d: u8)
    ensures
        final(out)@ == old(out)@ + v4_text(a, b, c, d),
{
    proof {
        reveal_strlit(".");
    }
    push_decimal(out, a as u64);
    out.append(".");
    push_decimal(out, b as u64);
    out.append(".");
    push_decimal(out, c as u64);
    out.append(".");
    push_decimal(out, d as u64);
}

/// Appends the segments from `from` up to `to` in base sixteen, separated by
/// colons.
fn push_joined(out: &mut String, segs: &[u16; 8], from: usize, to: usize)
    requires
        from <= to <= 8,
    ensures
        final(out)@ == old(out)@ + join_hex(segs@.subrange(from as int, to as int)),
{
    proof {
        reveal_strlit(":");
    }
    let mut k: usize = from;
    while k < to
        invariant
            from <= k <= to <= 8,
            out@ == old(out)@ + join_hex(segs@.subrange(from as int, k as int)),
            ":"@ == seq![':'],
        decreases to - k,
    {
        assert(segs@.subrange(from as int, k as int + 1).drop_last() =~= segs@.subrange(
            from as int,
            k as int,
        ));
        if k > from {
            out.append(":");
        }
        push_hex(out, segs[k] as u64);
        k = k + 1;
    }
}

/// The length of the run of zero segments that starts at `i`.
fn zero_run_len(segs: &[u16; 8], i: usize) -> (n: usize)
    requires
        i <= 8,
    ensures
        n == zero_run_at(segs@, i as int),
        i + n <= 8,
{
    let mut j: usize = i;
    while j < 8 && segs[j] == 0
        invariant
            i <= j <= 8,
            zero_run_at(segs@, i as int) == (j - i) + zero_run_at(segs@, j as int),
        decreases 8 - j,
    {
        j = j + 1;
    }
    j - i
}

/// Where the leftmost longest run of zero segments starts, and its length.
fn longest_zero_run(segs: &[u16; 8]) -> (run: (usize, usize))
    ensures
        run.0 == longest_run_start(segs@, 8),
        run.1 == zero_run_at(segs@, run.0 as int),
        run.0 + run.1 <= 8,
{
    let mut best: usize = 0;
    let mut best_len: usize = zero_run_len(segs, 0);
    let mut k: usize = 0;
    while k < 8
        invariant
            k <= 8,
            best <= 8,
            best == longest_run_start(segs@, k as int),
            best_len == zero_run_at(segs@, best as int),
            best + best_len <= 8,
        decreases 8 - k,
    {
        let here: usize = zero_run_len(segs, k);
        if here > best_len {
            best = k;
            best_len = here;
        }
        k = k + 1;
    }
    (best, best_len)
}

/// Appends the canonical text of eight segments.
fn push_v6(out: &mut String, segs: &[u16; 8])
    ensures
        final(out)@ == old(out)@ + v6_text(segs@),
{
    let mapped: bool = segs[0] == 0 && segs[1] == 0 && segs[2] == 0 && segs[3] == 0 && segs[4]
        == 0 && segs[5] == 0xffff;
    if mapped {
        proof {
            reveal_strlit("::ffff:");
        }
        out.append("::ffff:");
        let hi: u16 = segs[6];
        let lo: u16 = segs[7];
        push_v4(out, (hi / 256) as u8, (hi % 256) as u8, (lo / 256) as u8, (lo % 256) as u8);
    } else {
        let (start, len) = longest_zero_run(segs);
        if len > 1 {
            proof {
                reveal_strlit("::");
            }
            push_joined(out, segs, 0, start);
            out.append("::");
            push_joined(out, segs, start + len, 8);
        } else {
            push_joined(out, segs, 0, 8);
            assert(segs@.subrange(0, 8) =~= segs@);
        }
    }
}

} // verus!
