//! Calibration records: how raw integer readings of a sensor map to physical units.
use vstd::prelude::*;
use crate::sensor_id::SensorId;
use crate::wire::{lemma_field, lemma_skip_skip, lemma_spliced_twice, Codec, DecodeError};

verus! {

/// Value interpretation information for linear value readings with uniform behavior across all
/// axes.
///
/// A raw reading `r` stands for `r / (scale * 10^-scale_decimals)`, plus
/// `offset * 10^-offset_decimals` where the offset is not zero. Scale and offset travel as
/// decimal-scaled integers so that the encoding stays exact.
#[derive(Clone, Copy, Debug, Default, PartialEq, Eq, Hash, PartialOrd, Ord)]
pub struct LinearRanges {
    /// Which sensor does this describe?
    pub target: SensorId,
    /// Number of bits per axis.
    ///
    /// A value could be represented using 16 bits, but only have 12 bit range.
    pub resolution_bits: u16,
    /// The type of scale operation. Currently, it always implies a division.
    pub scale_op: u8,
    /// The amount by which to scale the value.
    pub scale: i32,
    /// The number of decimal places of `scale`.
    pub scale_decimals: u8,
    /// The amount by which to offset the value.
    pub offset: i32,
    /// The number of decimal places of `offset`.
    pub offset_decimals: u8,
}

/// `10` to the power `n`.
pub open spec fn pow10(n: nat) -> int
    decreases n,
{
    if n == 0 {
        1
    } else {
        10 * pow10((n - 1) as nat)
    }
}

proof fn lemma_pow10_bounds(n: nat)
    ensures
        1 <= pow10(n),
        n <= 24 ==> pow10(n) <= pow10(24),
    decreases n,
{
    if n > 0 {
        lemma_pow10_bounds((n - 1) as nat);
    }
    if n < 24 {
        lemma_pow10_monotone(n, 24);
    }
}

proof fn lemma_pow10_24()
    ensures
        pow10(24) == 1_000_000_000_000_000_000_000_000int,
{
    reveal_with_fuel(pow10, 25);
}

proof fn lemma_pow10_monotone(a: nat, b: nat)
    requires
        a <= b,
    ensures
        pow10(a) <= pow10(b),
    decreases b - a,
{
    if a < b {
        lemma_pow10_monotone(a, (b - 1) as nat);
        lemma_pow10_positive((b - 1) as nat);
    }
}

proof fn lemma_pow10_positive(n: nat)
    ensures
        pow10(n) >= 1,
    decreases n,
{
    if n > 0 {
        lemma_pow10_positive((n - 1) as nat);
    }
}

/// `10^n` for `n` up to 24.
fn pow10_exec(n: u8) -> (r: i128)
    requires
        n <= 24,
    ensures
        r == pow10(n as nat),
{
    let mut r: i128 = 1;
    let mut i: u8 = 0;
    while i < n
        invariant
            i <= n <= 24,
            r == pow10(i as nat),
        decreases n - i,
    {
        proof {
            lemma_pow10_bounds(i as nat);
            lemma_pow10_monotone((i + 1) as nat, 24);
            lemma_pow10_24();
        }
        r = r * 10;
        i = i + 1;
    }
    r
}

/// A calibrated value: the fraction `numerator / denominator`.
#[derive(Clone, Copy, Debug, PartialEq, Eq, Structural)]
pub struct Calibrated {
    /// The numerator.
    pub numerator: i128,
    /// The denominator; never zero.
    pub denominator: i128,
}

impl LinearRanges {
    /// The numerator of the calibrated value of `raw` over [`Self::spec_denominator`]:
    /// `raw / (scale / 10^scale_decimals) + offset / 10^offset_decimals` is
    /// `(raw * 10^(scale_decimals + offset_decimals) + offset * scale) / (scale * 10^offset_decimals)`.
    pub open spec fn spec_numerator(&self, raw: int) -> int {
        raw * pow10((self.scale_decimals + self.offset_decimals) as nat) + self.offset * self.scale
    }

    /// The denominator of the calibrated value.
    pub open spec fn spec_denominator(&self) -> int {
        self.scale * pow10(self.offset_decimals as nat)
    }

    /// Calibrates a raw reading exactly: divides it by the scale and adds the offset, each taken
    /// with its number of decimal places, and returns the result as a fraction.
    ///
    /// There is none when the scale is zero, or when the decimal places of scale and offset
    /// add up to more than 24.
    pub fn calibrate(&self, raw: i32) -> (r: Option<Calibrated>)
        ensures
            r is Some <==> self.scale != 0 && self.scale_decimals + self.offset_decimals <= 24,
            r matches Some(c) ==> c.numerator == self.spec_numerator(raw as int) && c.denominator
                == self.spec_denominator() && c.denominator != 0,
    {
        if self.scale == 0 || self.scale_decimals as u16 + self.offset_decimals as u16 > 24 {
            return None;
        }
        let decimals = self.scale_decimals + self.offset_decimals;
        let p = pow10_exec(decimals);
        let q = pow10_exec(self.offset_decimals);
        proof {
            lemma_pow10_bounds(decimals as nat);
            lemma_pow10_bounds(self.offset_decimals as nat);
            lemma_pow10_24();
            let (raw_i, p_i, off, sc, q_i) = (raw as int, p as int, self.offset as int, self.scale as int, q as int);
            assert(-0x8000_0000 * 1_000_000_000_000_000_000_000_000int <= raw_i * p_i <= 0x8000_0000 * 1_000_000_000_000_000_000_000_000int) by (nonlinear_arith)
                requires
                    -0x8000_0000 <= raw_i < 0x8000_0000,
                    1 <= p_i <= 1_000_000_000_000_000_000_000_000int,
            ;
            assert(-0x4000_0000_0000_0000int <= off * sc <= 0x4000_0000_0000_0000int) by (nonlinear_arith)
                requires
                    -0x8000_0000 <= off < 0x8000_0000,
                    -0x8000_0000 <= sc < 0x8000_0000,
            ;
            assert(-0x8000_0000 * 1_000_000_000_000_000_000_000_000int <= sc * q_i <= 0x8000_0000 * 1_000_000_000_000_000_000_000_000int) by (nonlinear_arith)
                requires
                    -0x8000_0000 <= sc < 0x8000_0000,
                    1 <= q_i <= 1_000_000_000_000_000_000_000_000int,
            ;
            assert(sc * q_i != 0) by (nonlinear_arith)
                requires
                    sc != 0,
                    q_i >= 1,
            ;
        }
        let numerator = raw as i128 * p + self.offset as i128 * self.scale as i128;
        let denominator = self.scale as i128 * q;
        Some(Calibrated { numerator, denominator })
    }
}

impl Codec for LinearRanges {
    open spec fn spec_encode(&self) -> Seq<u8> {
        self.target.spec_encode() + self.resolution_bits.spec_encode() + self.scale_op.spec_encode()
            + self.scale.spec_encode() + self.scale_decimals.spec_encode()
            + self.offset.spec_encode() + self.offset_decimals.spec_encode()
    }

    open spec fn spec_decode(s: Seq<u8>) -> Result<(LinearRanges, nat), DecodeError> {
        match SensorId::spec_decode(s) {
            Err(e) => Err(e),
            Ok((target, n0)) => {
                let s1 = s.skip(n0 as int);
                match u16::spec_decode(s1) {
                    Err(e) => Err(e),
                    Ok((resolution_bits, n1)) => {
                        let s2 = s1.skip(n1 as int);
                        match u8::spec_decode(s2) {
                            Err(e) => Err(e),
                            Ok((scale_op, n2)) => {
                                let s3 = s2.skip(n2 as int);
                                match i32::spec_decode(s3) {
                                    Err(e) => Err(e),
                                    Ok((scale, n3)) => {
                                        let s4 = s3.skip(n3 as int);
                                        match u8::spec_decode(s4) {
                                            Err(e) => Err(e),
                                            Ok((scale_decimals, n4)) => {
                                                let s5 = s4.skip(n4 as int);
                                                match i32::spec_decode(s5) {
                                                    Err(e) => Err(e),
                                                    Ok((offset, n5)) => {
                                                        let s6 = s5.skip(n5 as int);
                                                        match u8::spec_decode(s6) {
                                                            Err(e) => Err(e),
                                                            Ok((offset_decimals, n6)) => Ok(
                                                                (
                                                                    LinearRanges {
                                                                        target,
                                                                        resolution_bits,
                                                                        scale_op,
                                                                        scale,
                                                                        scale_decimals,
                                                                        offset,
                                                                        offset_decimals,
                                                                    },
                                                                    n0 + n1 + n2 + n3 + n4 + n5
                                                                        + n6,
                                                                ),
                                                            ),
                                                        }
                                                    },
                                                }
                                            },
                                        }
                                    },
                                }
                            },
                        }
                    },
                }
            },
        }
    }

    proof fn lemma_round_trip(&self, rest: Seq<u8>) {
        let e0 = self.target.spec_encode();
        let e1 = self.resolution_bits.spec_encode();
        let e2 = self.scale_op.spec_encode();
        let e3 = self.scale.spec_encode();
        let e4 = self.scale_decimals.spec_encode();
        let e5 = self.offset.spec_encode();
        let e6 = self.offset_decimals.spec_encode();
        assert(e0 + e1 + e2 + e3 + e4 + e5 + e6 + rest =~= e0 + (e1 + (e2 + (e3 + (e4 + (e5 + (
        e6 + rest)))))));
        lemma_field(self.target, e1 + (e2 + (e3 + (e4 + (e5 + (e6 + rest))))));
        lemma_field(self.resolution_bits, e2 + (e3 + (e4 + (e5 + (e6 + rest)))));
        lemma_field(self.scale_op, e3 + (e4 + (e5 + (e6 + rest))));
        lemma_field(self.scale, e4 + (e5 + (e6 + rest)));
        lemma_field(self.scale_decimals, e5 + (e6 + rest));
        lemma_field(self.offset, e6 + rest);
        lemma_field(self.offset_decimals, rest);
    }

    proof fn lemma_decode_within(s: Seq<u8>) {
        SensorId::lemma_decode_within(s);
    }

    fn encoded_len(&self) -> (n: usize) {
        17
    }

    fn encode_to(&self, buf: &mut [u8], pos: usize) -> (end: usize) {
        let ghost s0 = buf@;
        let ghost e0 = self.target.spec_encode();
        let ghost e1 = self.resolution_bits.spec_encode();
        let ghost e2 = self.scale_op.spec_encode();
        let ghost e3 = self.scale.spec_encode();
        let ghost e4 = self.scale_decimals.spec_encode();
        let ghost e5 = self.offset.spec_encode();
        let ghost e6 = self.offset_decimals.spec_encode();
        let p = self.target.encode_to(buf, pos);
        let p = self.resolution_bits.encode_to(buf, p);
        proof {
            lemma_spliced_twice(s0, pos as int, e0, e1);
        }
        let p = self.scale_op.encode_to(buf, p);
        proof {
            lemma_spliced_twice(s0, pos as int, e0 + e1, e2);
        }
        let p = self.scale.encode_to(buf, p);
        proof {
            lemma_spliced_twice(s0, pos as int, e0 + e1 + e2, e3);
        }
        let p = self.scale_decimals.encode_to(buf, p);
        proof {
            lemma_spliced_twice(s0, pos as int, e0 + e1 + e2 + e3, e4);
        }
        let p = self.offset.encode_to(buf, p);
        proof {
            lemma_spliced_twice(s0, pos as int, e0 + e1 + e2 + e3 + e4, e5);
        }
        let p = self.offset_decimals.encode_to(buf, p);
        proof {
            lemma_spliced_twice(s0, pos as int, e0 + e1 + e2 + e3 + e4 + e5, e6);
        }
        p
    }

    #[verifier::rlimit(60)]
    fn decode_from(buf: &[u8], pos: usize) -> (r: Result<(LinearRanges, usize), DecodeError>) {
        assert(buf@.len() == buf.len());
        let (target, p1) = match SensorId::decode_from(buf, pos) {
            Ok(v) => v,
            Err(e) => return Err(e),
        };
        proof {
            lemma_skip_skip(buf@, pos as int, p1 - pos);
        }
        let (resolution_bits, p2) = match u16::decode_from(buf, p1) {
            Ok(v) => v,
            Err(e) => return Err(e),
        };
        proof {
            lemma_skip_skip(buf@, p1 as int, p2 - p1);
        }
        let (scale_op, p3) = match u8::decode_from(buf, p2) {
            Ok(v) => v,
            Err(e) => return Err(e),
        };
        proof {
            lemma_skip_skip(buf@, p2 as int, p3 - p2);
        }
        let (scale, p4) = match i32::decode_from(buf, p3) {
            Ok(v) => v,
            Err(e) => return Err(e),
        };
        proof {
            lemma_skip_skip(buf@, p3 as int, p4 - p3);
        }
        let (scale_decimals, p5) = match u8::decode_from(buf, p4) {
            Ok(v) => v,
            Err(e) => return Err(e),
        };
        proof {
            lemma_skip_skip(buf@, p4 as int, p5 - p4);
        }
        let (offset, p6) = match i32::decode_from(buf, p5) {
            Ok(v) => v,
            Err(e) => return Err(e),
        };
        proof {
            lemma_skip_skip(buf@, p5 as int, p6 - p5);
        }
        let (offset_decimals, p7) = match u8::decode_from(buf, p6) {
            Ok(v) => v,
            Err(e) => return Err(e),
        };
        Ok(
            (
                LinearRanges {
                    target,
                    resolution_bits,
                    scale_op,
                    scale,
                    scale_decimals,
                    offset,
                    offset_decimals,
                },
                p7,
            ),
        )
    }
}

} // verus!
