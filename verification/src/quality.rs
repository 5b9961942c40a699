//! Negotiation of the picture quality that all viewers share.
//!
//! A quality is a packed pair: the bitrate fraction (a percentage) above the
//! low eight bits, the quantizer in the low eight bits. Every viewer may ask
//! for one; the weakest request governs the encoder, since frames are shared.

use std::collections::HashMap;
use vstd::prelude::*;

verus! {

broadcast use vstd::std_specs::hash::group_hash_axioms;

/// The named quality levels a viewer can ask for.
#[derive(Clone, Copy, Debug, PartialEq, Eq, Structural)]
pub enum ImageQuality {
    NotSet,
    Low,
    Balanced,
    Best,
}

impl ImageQuality {
    /// The number that stands for the level in a request.
    pub open spec fn spec_value(self) -> i32 {
        match self {
            ImageQuality::NotSet => 0,
            ImageQuality::Low => 2,
            ImageQuality::Balanced => 3,
            ImageQuality::Best => 4,
        }
    }

    /// The number that stands for the level in a request.
    #[verifier::when_used_as_spec(spec_value)]
    pub fn value(self) -> (v: i32)
        ensures
            v == self.spec_value(),
    {
        match self {
            ImageQuality::NotSet => 0,
            ImageQuality::Low => 2,
            ImageQuality::Balanced => 3,
            ImageQuality::Best => 4,
        }
    }

    /// Whether the level is one of the three presets.
    pub open spec fn is_preset(self) -> bool {
        self != ImageQuality::NotSet
    }
}

/// The bitrate fraction packed into a quality value: bits 8 to 15.
pub open spec fn bitrate_fraction(q: i32) -> int {
    (q as int / 256) % 256
}

/// The quantizer packed into a quality value: bits 0 to 7.
pub open spec fn quantizer(q: i32) -> int {
    q as int % 256
}

/// A quantizer request of 0..=100 turned round onto 36..=0. Beyond 100 the
/// result is negative, rounded toward zero.
pub open spec fn rescaled_quantizer(z: int) -> int {
    if z <= 100 {
        (100 - z) * 36 / 100
    } else {
        -(((z - 100) * 36) / 100)
    }
}

/// The packed value of a bitrate fraction and a quantizer. A negative
/// quantizer swallows the bitrate: every bit above the low eight is set.
pub open spec fn packed(bitrate: int, quant: int) -> int {
    if quant >= 0 {
        bitrate * 256 + quant
    } else {
        quant
    }
}

/// The packed (bitrate fraction, quantizer) pair that a preset stands for.
pub open spec fn preset_quality(level: ImageQuality) -> i32 {
    match level {
        ImageQuality::Balanced => 16908,
        ImageQuality::Low => 12818,
        ImageQuality::Best => 25612,
        ImageQuality::NotSet => 0,
    }
}

/// What a requested quality is stored as: a preset's fixed pair, or the raw
/// pair with the bitrate doubled and the quantizer turned round; 0 where the
/// bitrate fraction comes out as nothing.
pub open spec fn spec_convert_quality(q: i32) -> i32 {
    if q == ImageQuality::Balanced.spec_value() {
        preset_quality(ImageQuality::Balanced)
    } else if q == ImageQuality::Low.spec_value() {
        preset_quality(ImageQuality::Low)
    } else if q == ImageQuality::Best.spec_value() {
        preset_quality(ImageQuality::Best)
    } else if bitrate_fraction(q) * 2 <= 0 {
        0
    } else {
        packed(bitrate_fraction(q) * 2, rescaled_quantizer(quantizer(q))) as i32
    }
}

/// The quality used while no viewer has asked for one.
pub open spec fn default_quality() -> i32 {
    spec_convert_quality(ImageQuality::Balanced.spec_value())
}

proof fn lemma_unpack(q: i32)
    ensures
        (q >> 8) & 0xFF == bitrate_fraction(q),
        q & 0xFF == quantizer(q),
        0 <= bitrate_fraction(q) < 256,
        0 <= quantizer(q) < 256,
{
    assert((q >> 8) & 0xFF == (q as int / 256) % 256) by (bit_vector);
    assert(q & 0xFF == q as int % 256) by (bit_vector);
}

proof fn lemma_pack(b: i32, z: i32)
    requires
        0 <= b <= 510,
        -256 <= z < 256,
    ensures
        (b << 8) | z == packed(b as int, z as int),
{
    if z >= 0 {
        assert((b << 8) | z == b * 256 + z) by (bit_vector)
            requires
                0 <= b <= 510,
                0 <= z < 256,
        ;
    } else {
        assert((b << 8) | z == z) by (bit_vector)
            requires
                0 <= b <= 510,
                -256 <= z < 0,
        ;
    }
}

/// Turns a requested quality into the packed pair that is stored for it.
pub fn convert_quality(q: i32) -> (r: i32)
    ensures
        r == spec_convert_quality(q),
{
    proof {
        lemma_unpack(q);
    }
    if q == ImageQuality::Balanced.value() {
        let bitrate: i32 = 100 * 2 / 3;
        proof {
            lemma_pack(bitrate, 12);
        }
        bitrate << 8 | 12
    } else if q == ImageQuality::Low.value() {
        let bitrate: i32 = 100 / 2;
        proof {
            lemma_pack(bitrate, 18);
        }
        bitrate << 8 | 18
    } else if q == ImageQuality::Best.value() {
        let bitrate: i32 = 100;
        proof {
            lemma_pack(bitrate, 12);
        }
        bitrate << 8 | 12
    } else {
        let bitrate: i32 = q >> 8 & 0xFF;
        let quant: i32 = q & 0xFF;
        let doubled: i32 = bitrate * 2;
        let turned: i32 = if quant <= 100 {
            (100 - quant) * 36 / 100
        } else {
            -((quant - 100) * 36 / 100)
        };
        if doubled <= 0 {
            0
        } else {
            proof {
                lemma_pack(doubled, turned);
            }
            doubled << 8 | turned
        }
    }
}

/// The requested quality of each connection, by connection id.
pub struct QualityTable {
    pub entries: HashMap<i32, i32>,
}

impl View for QualityTable {
    type V = Map<i32, i32>;

    open spec fn view(&self) -> Map<i32, i32> {
        self.entries@
    }
}

/// The table after a connection asked for a quality, or withdrew its request.
pub open spec fn spec_update_image_quality(
    table: Map<i32, i32>,
    id: i32,
    q: Option<i32>,
) -> Map<i32, i32> {
    match q {
        Some(q) if spec_convert_quality(q) > 0 => table.insert(id, spec_convert_quality(q)),
        _ => table.remove(id),
    }
}

/// Whether `q` is the smallest value in the table.
pub open spec fn is_weakest_entry(table: Map<i32, i32>, q: i32) -> bool {
    &&& exists|id: i32| table.contains_key(id) && table[id] == q
    &&& forall|id: i32| table.contains_key(id) ==> q <= #[trigger] table[id]
}

/// Whether `q` is the quality that governs encoding: the weakest entry, or
/// the balanced preset while the table is empty.
pub open spec fn is_effective_quality(table: Map<i32, i32>, q: i32) -> bool {
    if table.dom().is_empty() {
        q == default_quality()
    } else {
        is_weakest_entry(table, q)
    }
}

impl QualityTable {
    /// A table without entries.
    pub fn new() -> (t: QualityTable)
        ensures
            t@ == Map::<i32, i32>::empty(),
    {
        QualityTable { entries: HashMap::new() }
    }
}

/// Stores what connection `id` asked for. `None`, and a request that
/// converts to no positive value, remove the connection's entry.
pub fn update_image_quality(table: &mut QualityTable, id: i32, q: Option<i32>)
    ensures
        final(table)@ == spec_update_image_quality(old(table)@, id, q),
{
    match q {
        Some(q) => {
            let q = convert_quality(q);
            if q > 0 {
                table.entries.insert(id, q);
            } else {
                table.entries.remove(&id);
            }
        },
        None => {
            table.entries.remove(&id);
        },
    }
}

/// The quality that governs encoding: the weakest entry of the table, or
/// the balanced preset while the table is empty.
pub fn get_image_quality(this: &QualityTable) -> (q: i32)
    ensures
        q == effective_quality(this@),
        is_effective_quality(this@, q),
{
    let mut best: Option<i32> = None;
    let ghost table = this.entries@;
    let ghost mut seen: Seq<i32> = Seq::empty();
    for v in it: this.entries.values()
        invariant
            table == this.entries@,
            it.seq().unref().to_set() == table.values(),
            it.seq().len() == table.dom().len(),
            seen.len() == it.index(),
            0 < seen.len() == it.seq().len() ==> seen.to_set() == table.values(),
            forall|j: int| 0 <= j < seen.len() ==> seen[j] == *#[trigger] it.seq()[j],
            match best {
                None => seen.len() == 0,
                Some(b) => {
                    &&& exists|j: int| 0 <= j < seen.len() && seen[j] == b
                    &&& forall|j: int| 0 <= j < seen.len() ==> b <= #[trigger] seen[j]
                },
            },
    {
        let ghost earlier = seen;
        proof {
            seen = seen.push(*v);
        }
        assert(seen.len() == it.seq().len() ==> seen =~= it.seq().unref());
        assert(seen[seen.len() - 1] == *v);
        best = match best {
            None => Some(*v),
            Some(b) => {
                proof {
                    let j = choose|j: int| 0 <= j < earlier.len() && earlier[j] == b;
                    assert(seen[j] == b);
                }
                if *v < b {
                    Some(*v)
                } else {
                    Some(b)
                }
            },
        };
    }
    match best {
        Some(b) => {
            proof {
                lemma_weakest_of_all(table, seen, b);
                lemma_effective_quality_unique(table, b);
            }
            b
        },
        None => {
            proof {
                table.dom().lemma_len0_is_empty();
                lemma_effective_quality_unique(table, default_quality());
            }
            convert_quality(ImageQuality::Balanced.value())
        },
    }
}

/// The quality that governs encoding under table `table`.
pub open spec fn effective_quality(table: Map<i32, i32>) -> i32 {
    choose|q: i32| is_effective_quality(table, q)
}

/// Only one value is the effective quality of a table.
pub proof fn lemma_effective_quality_unique(table: Map<i32, i32>, q: i32)
    requires
        is_effective_quality(table, q),
    ensures
        effective_quality(table) == q,
{
    let c = effective_quality(table);
    assert(is_effective_quality(table, c));
    if !table.dom().is_empty() {
        let i = choose|id: i32| table.contains_key(id) && table[id] == q;
        let j = choose|id: i32| table.contains_key(id) && table[id] == c;
        assert(c <= table[i]);
        assert(q <= table[j]);
    }
}

proof fn lemma_weakest_of_all(table: Map<i32, i32>, vals: Seq<i32>, b: i32)
    requires
        vals.to_set() == table.values(),
        exists|j: int| 0 <= j < vals.len() && vals[j] == b,
        forall|j: int| 0 <= j < vals.len() ==> b <= #[trigger] vals[j],
    ensures
        !table.dom().is_empty(),
        is_weakest_entry(table, b),
{
    assert(vals.contains(b));
    assert(vals.to_set().contains(b));
    assert(table.contains_value(b));
    let k = choose|k: i32| #[trigger] table.dom().contains(k) && table[k] == b;
    assert(table.contains_key(k) && table[k] == b);
    assert forall|id: i32| table.contains_key(id) implies b <= #[trigger] table[id] by {
        assert(table.contains_value(table[id]));
        assert(table.values().contains(table[id]));
        assert(vals.to_set().contains(table[id]));
        assert(vals.contains(table[id]));
    }
}

/// The latency table after a test result for connection `id`: a latency of
/// zero or less clears the entry.
pub open spec fn spec_update_latency(table: Map<i32, i64>, id: i32, latency: i64) -> Map<
    i32,
    i64,
> {
    if latency <= 0 {
        table.remove(id)
    } else {
        table.insert(id, latency)
    }
}

/// Records the latency that a test measured for connection `id`.
pub fn update_test_latency(latencies: &mut HashMap<i32, i64>, id: i32, latency: i64)
    ensures
        final(latencies)@ == spec_update_latency(old(latencies)@, id, latency),
{
    update_latency(id, latency, latencies);
}

/// Records the latency measured for connection `id`.
pub fn update_latency(id: i32, latency: i64, latencies: &mut HashMap<i32, i64>)
    ensures
        final(latencies)@ == spec_update_latency(old(latencies)@, id, latency),
{
    if latency <= 0 {
        latencies.remove(&id);
    } else {
        latencies.insert(id, latency);
    }
}

/// The quantizer ceiling handed to the encoder.
pub const MAX_QUANTIZER: u32 = 56;

/// The encoder speed setting.
pub const ENCODER_SPEED: i32 = 7;

/// The encoder bitrate for a picture of `pixels` pixels at a bitrate
/// fraction of `fraction` percent: thousands of pixels times the fraction.
pub open spec fn spec_bitrate(pixels: int, fraction: int) -> int {
    (pixels / 1000) * fraction / 100
}

/// Whether the bitrate of a `w` by `h` picture at quality `q` fits the
/// encoder's 32-bit field.
pub open spec fn bitrate_fits(w: usize, h: usize, q: i32) -> bool {
    spec_bitrate(w * h, bitrate_fraction(q)) <= u32::MAX
}

/// The encoder parameters for a `w` by `h` picture at quality `q`:
/// bitrate, lower and upper quantizer bound, speed.
pub open spec fn spec_get_quality(w: usize, h: usize, q: i32) -> (u32, u32, u32, i32) {
    (
        spec_bitrate(w * h, bitrate_fraction(q)) as u32,
        quantizer(q) as u32,
        MAX_QUANTIZER,
        ENCODER_SPEED,
    )
}

/// The encoder parameters for a `w` by `h` picture at quality `q`, or
/// `None` where the bitrate does not fit 32 bits.
pub fn checked_get_quality(w: usize, h: usize, q: i32) -> (r: Option<(u32, u32, u32, i32)>)
    ensures
        bitrate_fits(w, h, q) ==> r == Some(spec_get_quality(w, h, q)),
        !bitrate_fits(w, h, q) ==> r.is_none(),
{
    proof {
        lemma_unpack(q);
    }
    let bitrate: i32 = q >> 8 & 0xFF;
    let quant: i32 = q & 0xFF;
    assert(w * h <= 0xFFFF_FFFF_FFFF_FFFF * 0xFFFF_FFFF_FFFF_FFFF) by (nonlinear_arith)
        requires
            0 <= w <= 0xFFFF_FFFF_FFFF_FFFF,
            0 <= h <= 0xFFFF_FFFF_FFFF_FFFF,
    ;
    let thousands: u128 = (w as u128 * h as u128) / 1000;
    assert(thousands * bitrate <= 0xFFFF_FFFF_FFFF_FFFF_FFFF_FFFF_FFFF_FFFF) by (nonlinear_arith)
        requires
            0 <= thousands <= 0xFFFF_FFFF_FFFF_FFFF * 0xFFFF_FFFF_FFFF_FFFF / 1000,
            0 <= bitrate < 256,
    ;
    let scaled: u128 = bitrate as u128 * thousands / 100;
    assert(bitrate * thousands == thousands * bitrate) by (nonlinear_arith);
    if scaled > 0xFFFF_FFFF {
        None
    } else {
        Some((scaled as u32, quant as u32, MAX_QUANTIZER, ENCODER_SPEED))
    }
}

/// The encoder parameters for a `w` by `h` picture at quality `q`:
/// bitrate, lower and upper quantizer bound, speed.
pub fn get_quality(w: usize, h: usize, q: i32) -> (r: (u32, u32, u32, i32))
    requires
        bitrate_fits(w, h, q),
    ensures
        r == spec_get_quality(w, h, q),
{
    match checked_get_quality(w, h, q) {
        Some(r) => r,
        None => (0, 0, MAX_QUANTIZER, ENCODER_SPEED),
    }
}

/// A preset always converts to its own fixed pair, a positive value, so
/// converting the same preset again gives the same packed value.
pub proof fn lemma_preset_conversion_is_fixed(level: ImageQuality)
    requires
        level.is_preset(),
    ensures
        spec_convert_quality(level.spec_value()) == preset_quality(level),
        preset_quality(level) > 0,
{
}

/// The effective quality of a table that is not empty is no greater than
/// any entry, as a packed value and in what stands above the quantizer.
pub proof fn lemma_effective_quality_is_weakest(table: Map<i32, i32>, q: i32, id: i32)
    requires
        is_effective_quality(table, q),
        table.contains_key(id),
    ensures
        q <= table[id],
        q as int / 256 <= table[id] as int / 256,
{
    assert(table.dom().contains(id));
}

/// Where the effective quality and an entry are packed pairs of two bytes,
/// the effective bitrate fraction is no greater than the entry's.
pub proof fn lemma_effective_bitrate_fraction_is_weakest(table: Map<i32, i32>, q: i32, id: i32)
    requires
        is_effective_quality(table, q),
        table.contains_key(id),
        0 <= q,
        table[id] < 65536,
    ensures
        bitrate_fraction(q) <= bitrate_fraction(table[id]),
{
    lemma_effective_quality_is_weakest(table, q, id);
}

/// For a fixed bitrate fraction the bitrate never falls as the picture grows.
pub proof fn lemma_bitrate_monotonic(pixels: int, larger: int, fraction: int)
    requires
        0 <= pixels <= larger,
        0 <= fraction,
    ensures
        0 <= spec_bitrate(pixels, fraction) <= spec_bitrate(larger, fraction),
{
    let a = pixels / 1000;
    let b = larger / 1000;
    assert(0 <= a * fraction <= b * fraction) by (nonlinear_arith)
        requires
            0 <= a <= b,
            0 <= fraction,
    ;
}

/// Where the picture is a whole number of thousands of pixels and its
/// bitrate comes out without a remainder, a picture `k` times as large has
/// `k` times the bitrate.
pub proof fn lemma_bitrate_linear(pixels: int, fraction: int, k: int)
    requires
        0 <= pixels,
        0 <= fraction,
        0 <= k,
        pixels % 1000 == 0,
        ((pixels / 1000) * fraction) % 100 == 0,
    ensures
        spec_bitrate(k * pixels, fraction) == k * spec_bitrate(pixels, fraction),
{
    let a = pixels / 1000;
    let c = (a * fraction) / 100;
    assert(pixels == 1000 * a);
    assert(a * fraction == 100 * c);
    assert(k * pixels == 1000 * (k * a)) by (nonlinear_arith)
        requires
            pixels == 1000 * a,
    ;
    assert((k * pixels) / 1000 == k * a);
    assert((k * a) * fraction == 100 * (k * c)) by (nonlinear_arith)
        requires
            a * fraction == 100 * c,
    ;
    assert(((k * a) * fraction) / 100 == k * c);
}

/// The bitrate is zero exactly where thousands of pixels times the bitrate
/// fraction stay under one hundred; so a picture without pixels has none.
pub proof fn lemma_bitrate_zero(pixels: int, fraction: int)
    requires
        0 <= pixels,
        0 <= fraction,
    ensures
        spec_bitrate(pixels, fraction) == 0 <==> (pixels / 1000) * fraction < 100,
        pixels == 0 ==> spec_bitrate(pixels, fraction) == 0,
        fraction >= 100 && spec_bitrate(pixels, fraction) == 0 ==> pixels < 1000,
{
    let a = pixels / 1000;
    assert(0 <= a * fraction) by (nonlinear_arith)
        requires
            0 <= a,
            0 <= fraction,
    ;
    if a == 0 {
        assert(a * fraction == 0) by (nonlinear_arith)
            requires
                a == 0,
        ;
    }
    if fraction >= 100 && a >= 1 {
        assert(a * fraction >= 100) by (nonlinear_arith)
            requires
                a >= 1,
                fraction >= 100,
        ;
    }
}

} // verus!
