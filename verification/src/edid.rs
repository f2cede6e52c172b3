//! EDID, the data block by which a display describes itself.

use crate::domain::{MonitorResolution, ResolutionSource};
use vstd::prelude::*;
use vstd::slice::slice_subrange;

verus! {

/// Bytes in the base block and in each extension block.
pub const EDID_BLOCK_SIZE: usize = 128;

/// The eight bytes that every EDID begins with: six `0xff` between two zeros.
pub open spec fn has_header(edid: Seq<u8>) -> bool {
    &&& edid.len() >= 8
    &&& edid[0] == 0
    &&& forall|i: int| 1 <= i < 7 ==> edid[i] == 0xff
    &&& edid[7] == 0
}

/// The sum of some bytes.
pub open spec fn byte_sum(bytes: Seq<u8>) -> nat
    decreases bytes.len(),
{
    if bytes.len() == 0 {
        0
    } else {
        byte_sum(bytes.drop_last()) + bytes.last() as nat
    }
}

/// Block `k` of an EDID, the base block being number 0.
pub open spec fn edid_block(edid: Seq<u8>, k: int) -> Seq<u8> {
    edid.subrange(k * EDID_BLOCK_SIZE, (k + 1) * EDID_BLOCK_SIZE)
}

/// A well-formed EDID: the header is right, every block that byte 126 announces is there,
/// and the bytes of each of them add up to a multiple of 256.
pub open spec fn well_formed(edid: Seq<u8>) -> bool {
    &&& edid.len() >= EDID_BLOCK_SIZE
    &&& has_header(edid)
    &&& (edid[126] + 1) * EDID_BLOCK_SIZE <= edid.len()
    &&& forall|k: int| 0 <= k <= edid[126] ==> byte_sum(#[trigger] edid_block(edid, k)) % 256 == 0
}

fn header_matches(edid: &[u8]) -> (matches: bool)
    requires
        edid@.len() >= 8,
    ensures
        matches == has_header(edid@),
{
    edid[0] == 0 && edid[1] == 0xff && edid[2] == 0xff && edid[3] == 0xff && edid[4] == 0xff
        && edid[5] == 0xff && edid[6] == 0xff && edid[7] == 0
}

/// The sum of some bytes modulo 256.
fn checksum(bytes: &[u8]) -> (sum: u8)
    ensures
        sum == byte_sum(bytes@) % 256,
{
    let mut sum: u8 = 0;
    let mut i: usize = 0;
    while i < bytes.len()
        invariant
            i <= bytes@.len(),
            sum == byte_sum(bytes@.take(i as int)) % 256,
        decreases bytes@.len() - i,
    {
        assert(bytes@.take(i + 1).drop_last() == bytes@.take(i as int));
        sum = sum.wrapping_add(bytes[i]);
        i += 1;
    }
    assert(bytes@.take(i as int) == bytes@);
    sum
}

/// Whether an EDID can be relied on.
pub fn is_valid(edid: &[u8]) -> (valid: bool)
    ensures
        valid == well_formed(edid@),
{
    if edid.len() < EDID_BLOCK_SIZE || !header_matches(edid) {
        return false;
    }
    let block_count: usize = edid[126] as usize + 1;
    if block_count * EDID_BLOCK_SIZE > edid.len() {
        return false;
    }
    let mut k: usize = 0;
    while k < block_count
        invariant
            k <= block_count,
            block_count == edid@[126] + 1,
            block_count <= 256,
            edid@.len() >= block_count * EDID_BLOCK_SIZE,
            forall|b: int| 0 <= b < k ==> byte_sum(#[trigger] edid_block(edid@, b)) % 256 == 0,
        decreases block_count - k,
    {
        let block = slice_subrange(edid, k * EDID_BLOCK_SIZE, (k + 1) * EDID_BLOCK_SIZE);
        assert(block@ == edid_block(edid@, k as int));
        if checksum(block) != 0 {
            return false;
        }
        k += 1;
    }
    true
}

// ---------------------------------------------------------------------------
// Detailed timings

/// The resolution of the detailed timing descriptor at `offset`, if there is one: the
/// eighteen bytes lie within `bytes`, the pixel clock is not zero, and neither is the size.
pub open spec fn timing_at(bytes: Seq<u8>, offset: int) -> Option<MonitorResolution> {
    if offset < 0 || offset + 18 > bytes.len() || (bytes[offset] == 0 && bytes[offset + 1] == 0) {
        None
    } else {
        let width = bytes[offset + 2] + 256 * (bytes[offset + 4] / 16);
        let height = bytes[offset + 5] + 256 * (bytes[offset + 7] / 16);
        if width == 0 || height == 0 {
            None
        } else {
            Some(MonitorResolution { width: width as u32, height: height as u32 })
        }
    }
}

/// Whether `a` has more pixels than `b`, or as many and is wider.
pub open spec fn larger(a: MonitorResolution, b: MonitorResolution) -> bool {
    ||| a.width * a.height > b.width * b.height
    ||| a.width * a.height == b.width * b.height && a.width > b.width
}

/// The larger of two resolutions either of which may be missing; the first if they tie.
pub open spec fn larger_of(
    first: Option<MonitorResolution>,
    second: Option<MonitorResolution>,
) -> Option<MonitorResolution> {
    match (first, second) {
        (Some(a), Some(b)) => if larger(b, a) {
            second
        } else {
            first
        },
        (None, _) => second,
        (_, None) => first,
    }
}

/// Where the detailed timings of an extension block begin.
pub open spec fn timings_start(block: Seq<u8>) -> int {
    block[2] as int
}

/// Whether an extension block is of the kind that holds detailed timings.
pub open spec fn has_timings(block: Seq<u8>) -> bool {
    block[0] == 0x02 && 4 <= timings_start(block) <= 109
}

/// Timing number `j` of block `k`. The base block has four, from byte 54 on; an extension
/// block has as many as fit from where it says that they start.
pub open spec fn timing_slot(edid: Seq<u8>, k: int, j: int) -> Option<MonitorResolution> {
    if k < 0 || j < 0 {
        None
    } else if k == 0 {
        if j < 4 {
            timing_at(edid, 54 + 18 * j)
        } else {
            None
        }
    } else if (k + 1) * EDID_BLOCK_SIZE > edid.len() {
        None
    } else {
        let block = edid_block(edid, k);
        if has_timings(block) && timings_start(block) + 18 * j < 127 {
            timing_at(block, timings_start(block) + 18 * j)
        } else {
            None
        }
    }
}

/// The largest resolution among the detailed timings of an EDID; `None` if it has none.
pub open spec fn is_largest_timing(edid: Seq<u8>, resolution: Option<MonitorResolution>) -> bool {
    match resolution {
        None => forall|k: int, j: int| (#[trigger] timing_slot(edid, k, j)) is None,
        Some(largest) => {
            &&& exists|k: int, j: int| #[trigger] timing_slot(edid, k, j) == Some(largest)
            &&& forall|k: int, j: int|
                (#[trigger] timing_slot(edid, k, j)) matches Some(other) ==> !larger(other, largest)
        },
    }
}

spec fn precedes(k2: int, j2: int, k: int, j: int) -> bool {
    k2 < k || (k2 == k && j2 < j)
}

/// `resolution` is the largest among the timings before number `j` of block `k`.
spec fn is_largest_before(edid: Seq<u8>, k: int, j: int, resolution: Option<MonitorResolution>) -> bool {
    match resolution {
        None => forall|k2: int, j2: int|
            precedes(k2, j2, k, j) ==> (#[trigger] timing_slot(edid, k2, j2)) is None,
        Some(largest) => {
            &&& exists|k2: int, j2: int|
                precedes(k2, j2, k, j) && #[trigger] timing_slot(edid, k2, j2) == Some(largest)
            &&& forall|k2: int, j2: int|
                precedes(k2, j2, k, j) ==> ((#[trigger] timing_slot(edid, k2, j2)) matches Some(other)
                    ==> !larger(other, largest))
        },
    }
}

proof fn lemma_next_slot(edid: Seq<u8>, k: int, j: int, resolution: Option<MonitorResolution>)
    requires
        is_largest_before(edid, k, j, resolution),
    ensures
        is_largest_before(edid, k, j + 1, larger_of(resolution, timing_slot(edid, k, j))),
{
    let slot = timing_slot(edid, k, j);
    assert forall|k2: int, j2: int| precedes(k2, j2, k, j + 1) implies precedes(k2, j2, k, j) || (k2
        == k && j2 == j) by {}
    if let Some(current) = resolution {
        let (k1, j1) = choose|k2: int, j2: int|
            precedes(k2, j2, k, j) && #[trigger] timing_slot(edid, k2, j2) == Some(current);
        assert(precedes(k1, j1, k, j + 1));
    }
}

proof fn lemma_next_block(edid: Seq<u8>, k: int, j: int, resolution: Option<MonitorResolution>)
    requires
        is_largest_before(edid, k, j, resolution),
        forall|j2: int| j2 >= j ==> (#[trigger] timing_slot(edid, k, j2)) is None,
    ensures
        is_largest_before(edid, k + 1, 0, resolution),
{
    assert forall|k2: int, j2: int|
        precedes(k2, j2, k + 1, 0) && (#[trigger] timing_slot(edid, k2, j2)) is Some implies precedes(
        k2,
        j2,
        k,
        j,
    ) by {}
    if let Some(current) = resolution {
        let (k1, j1) = choose|k2: int, j2: int|
            precedes(k2, j2, k, j) && #[trigger] timing_slot(edid, k2, j2) == Some(current);
        assert(precedes(k1, j1, k + 1, 0));
    }
}

/// Replaces `maximum` by the timing at `offset` if that is larger.
pub fn consider_detailed_timing(
    block: &[u8],
    offset: usize,
    maximum: &mut Option<MonitorResolution>,
)
    requires
        offset + 18 <= usize::MAX,
    ensures
        *final(maximum) == larger_of(*old(maximum), timing_at(block@, offset as int)),
{
    if offset + 18 > block.len() {
        return ;
    }
    if block[offset] == 0 && block[offset + 1] == 0 {
        return ;
    }
    let width_low: u8 = block[offset + 2];
    let width_high: u8 = block[offset + 4];
    let height_low: u8 = block[offset + 5];
    let height_high: u8 = block[offset + 7];
    proof {
        lemma_twelve_bits(width_low, width_high);
        lemma_twelve_bits(height_low, height_high);
    }
    let width: u32 = (width_low as u32) | (((width_high & 0xf0) as u32) << 4u32);
    let height: u32 = (height_low as u32) | (((height_high & 0xf0) as u32) << 4u32);
    if width == 0 || height == 0 {
        return ;
    }
    let candidate = MonitorResolution::new(width, height);
    let replace: bool = match *maximum {
        None => true,
        Some(current) => {
            proof {
                lemma_pixels_fit(candidate);
                lemma_pixels_fit(current);
            }
            let candidate_pixels: u64 = width as u64 * height as u64;
            let current_pixels: u64 = current.width as u64 * current.height as u64;
            candidate_pixels > current_pixels || (candidate_pixels == current_pixels && width
                > current.width)
        },
    };
    if replace {
        *maximum = Some(candidate);
    }
}

/// A size is the low byte and, above it, the upper half of another byte.
proof fn lemma_twelve_bits(low: u8, high: u8)
    by (bit_vector)
    ensures
        (low as u32) | (((high & 0xf0) as u32) << 4u32) == low + 256 * (high / 16),
{
}

proof fn lemma_pixels_fit(resolution: MonitorResolution)
    ensures
        0 <= resolution.width * resolution.height <= u64::MAX,
{
    let w = resolution.width as int;
    let h = resolution.height as int;
    assert(0 <= w * h <= 0xffff_ffff * 0xffff_ffff) by (nonlinear_arith)
        requires
            0 <= w <= 0xffff_ffff,
            0 <= h <= 0xffff_ffff,
    ;
}

/// The largest resolution among the detailed timings of an EDID.
pub fn max_resolution(edid: &[u8]) -> (resolution: Option<MonitorResolution>)
    requires
        edid@.len() >= EDID_BLOCK_SIZE,
    ensures
        is_largest_timing(edid@, resolution),
{
    let mut maximum: Option<MonitorResolution> = None;
    let mut j: usize = 0;
    assert(is_largest_before(edid@, 0, 0, maximum));
    while j < 4
        invariant
            j <= 4,
            is_largest_before(edid@, 0, j as int, maximum),
        decreases 4 - j,
    {
        proof {
            lemma_next_slot(edid@, 0, j as int, maximum);
        }
        consider_detailed_timing(edid, 54 + 18 * j, &mut maximum);
        j += 1;
    }
    proof {
        lemma_next_block(edid@, 0, 4, maximum);
    }
    let block_count: usize = edid.len() / EDID_BLOCK_SIZE;
    let mut k: usize = 1;
    while k < block_count
        invariant
            1 <= k <= block_count,
            block_count == edid@.len() / EDID_BLOCK_SIZE as nat,
            edid@.len() <= usize::MAX,
            is_largest_before(edid@, k as int, 0, maximum),
        decreases block_count - k,
    {
        assert((k + 1) * EDID_BLOCK_SIZE <= edid@.len());
        let block = slice_subrange(edid, k * EDID_BLOCK_SIZE, (k + 1) * EDID_BLOCK_SIZE);
        assert(block@ == edid_block(edid@, k as int));
        let start: usize = block[2] as usize;
        if block[0] == 0x02 && 4 <= start && start <= 109 {
            let mut offset: usize = start;
            let ghost mut slot: int = 0;
            while offset < 127
                invariant
                    0 <= slot,
                    1 <= k,
                    offset == start + 18 * slot,
                    offset < 127 + 18,
                    (k + 1) * EDID_BLOCK_SIZE <= edid@.len(),
                    block@ == edid_block(edid@, k as int),
                    block@.len() == EDID_BLOCK_SIZE,
                    has_timings(block@),
                    start == timings_start(block@),
                    is_largest_before(edid@, k as int, slot, maximum),
                decreases 127 + 18 - offset,
            {
                proof {
                    lemma_next_slot(edid@, k as int, slot, maximum);
                }
                consider_detailed_timing(block, offset, &mut maximum);
                offset += 18;
                proof {
                    slot = slot + 1;
                }
            }
            proof {
                lemma_next_block(edid@, k as int, slot, maximum);
            }
        } else {
            proof {
                lemma_next_block(edid@, k as int, 0, maximum);
            }
        }
        k += 1;
    }
    proof {
        assert forall|k2: int, j2: int| (#[trigger] timing_slot(edid@, k2, j2)) is Some implies precedes(
            k2,
            j2,
            k as int,
            0,
        ) by {
            if k2 >= k {
                assert((k2 + 1) * EDID_BLOCK_SIZE > edid@.len());
            }
        }
    }
    maximum
}

/// The resolution to show for a display: that of a reliable EDID with a detailed timing,
/// else that of the current display mode.
pub fn preferred_resolution(
    edid: Option<&[u8]>,
    core_graphics_mode: Option<MonitorResolution>,
) -> (preferred: (Option<MonitorResolution>, Option<ResolutionSource>))
    ensures
        ({
            let usable = edid matches Some(bytes) && well_formed(bytes@) && !is_largest_timing(
                bytes@,
                None,
            );
            if usable {
                &&& preferred.0 is Some
                &&& is_largest_timing(edid->0@, preferred.0)
                &&& preferred.1 == Some(ResolutionSource::Edid)
            } else {
                &&& preferred.0 == core_graphics_mode
                &&& preferred.1 == match core_graphics_mode {
                    Some(_) => Some(ResolutionSource::CoreGraphicsDisplayMode),
                    None => None,
                }
            }
        }),
{
    if let Some(bytes) = edid {
        if is_valid(bytes) {
            let largest = max_resolution(bytes);
            if largest.is_some() {
                assert(!is_largest_timing(bytes@, None));
                return (largest, Some(ResolutionSource::Edid));
            }
        }
    }
    match core_graphics_mode {
        Some(_) => (core_graphics_mode, Some(ResolutionSource::CoreGraphicsDisplayMode)),
        None => (None, None),
    }
}

/// The largest timing of an EDID is the only one: no two resolutions are both the largest.
pub proof fn largest_timing_is_unique(
    edid: Seq<u8>,
    a: Option<MonitorResolution>,
    b: Option<MonitorResolution>,
)
    requires
        is_largest_timing(edid, a),
        is_largest_timing(edid, b),
    ensures
        a == b,
{
    if let (Some(x), Some(y)) = (a, b) {
        let (k1, j1) = choose|k: int, j: int| #[trigger] timing_slot(edid, k, j) == Some(x);
        let (k2, j2) = choose|k: int, j: int| #[trigger] timing_slot(edid, k, j) == Some(y);
        assert(!larger(x, y) && !larger(y, x));
        let w = x.width as int;
        let g = x.height as int;
        let h = y.height as int;
        assert(g == h) by (nonlinear_arith)
            requires
                w > 0,
                w * g == w * h,
        ;
    }
}

} // verus!
