//! Laws of EDID: when it can be relied on, and which resolution it gives.

use crate::domain::{MonitorResolution, ResolutionSource};
use crate::edid::{
    byte_sum, consider_detailed_timing, edid_block, has_timings, is_largest_timing, is_valid,
    largest_timing_is_unique, max_resolution, preferred_resolution, timing_at, timing_slot,
    timings_start, well_formed,
};
use vstd::prelude::*;

verus! {

// ---------------------------------------------------------------------------
// Resolutions

/// Whether the eighteen bytes at `offset` are a detailed timing of a given size: the pixel clock is
/// not zero; of the width, the third byte is the low part and the upper half of the fifth the high
/// part; of the height, the sixth and the eighth.
pub open spec fn has_timing(bytes: Seq<u8>, offset: int, width: int, height: int) -> bool {
    &&& 0 <= offset
    &&& offset + 18 <= bytes.len()
    &&& bytes[offset] != 0 || bytes[offset + 1] != 0
    &&& width > 0
    &&& width % 256 == bytes[offset + 2]
    &&& width / 256 == bytes[offset + 4] / 16
    &&& height > 0
    &&& height % 256 == bytes[offset + 5]
    &&& height / 256 == bytes[offset + 7] / 16
}

/// Whether a detailed timing may stand at `offset` of the base block.
pub open spec fn in_base_block(offset: int) -> bool {
    offset == 54 || offset == 72 || offset == 90 || offset == 108
}

/// Whether a detailed timing may stand at `offset` of an EDID as timing number `j` of extension
/// block `k`: the block is there, its kind is that of timings, and it says where they start, behind
/// its four-byte head and with room for one.
pub open spec fn in_extension(edid: Seq<u8>, k: int, j: int, offset: int) -> bool {
    let first = 128 * k;
    &&& k >= 1
    &&& first + 128 <= edid.len()
    &&& edid[first] == 2
    &&& 4 <= edid[first + 2] <= 109
    &&& j >= 0
    &&& edid[first + 2] + 18 * j + 18 <= 128
    &&& offset == first + edid[first + 2] + 18 * j
}

/// Whether one size is at least as large as another: by the number of pixels, then by the width.
pub open spec fn at_least(a: MonitorResolution, width: int, height: int) -> bool {
    ||| a.width * a.height > width * height
    ||| a.width * a.height == width * height && a.width >= width
}

proof fn lemma_timing_at(bytes: Seq<u8>, offset: int, width: int, height: int)
    requires
        has_timing(bytes, offset, width, height),
    ensures
        timing_at(bytes, offset) matches Some(size) && size.width == width && size.height == height,
{
}

proof fn lemma_block_timing(edid: Seq<u8>, k: int, j: int)
    requires
        k >= 1,
        128 * k + 128 <= edid.len(),
        edid[128 * k] == 2,
        4 <= edid[128 * k + 2] <= 109,
        j >= 0,
        edid[128 * k + 2] + 18 * j + 18 <= 128,
    ensures
        timing_slot(edid, k, j) == timing_at(edid, 128 * k + edid[128 * k + 2] + 18 * j),
{
    let block = edid_block(edid, k);
    assert(block.len() == 128);
    assert forall|x: int| 0 <= x < 128 implies block[x] == #[trigger] edid[128 * k + x] by {}
    assert(block[0] == edid[128 * k + 0]);
    assert(block[2] == edid[128 * k + 2]);
    assert(has_timings(block));
    let offset = timings_start(block) + 18 * j;
    let place = 128 * k + offset;
    assert(offset + 18 <= 128);
    assert(block[offset] == edid[128 * k + offset]);
    assert(block[offset + 1] == edid[128 * k + (offset + 1)]);
    assert(block[offset + 2] == edid[128 * k + (offset + 2)]);
    assert(block[offset + 4] == edid[128 * k + (offset + 4)]);
    assert(block[offset + 5] == edid[128 * k + (offset + 5)]);
    assert(block[offset + 7] == edid[128 * k + (offset + 7)]);
    assert(timing_at(block, offset) == timing_at(edid, place));
}

/// The resolution is at least as large as every detailed timing in the base block.
pub proof fn base_timings_count(
    edid: &[u8],
    resolution: Option<MonitorResolution>,
    offset: int,
    width: int,
    height: int,
)
    requires
        call_ensures(max_resolution, (edid,), resolution),
        edid@.len() >= 128,
        in_base_block(offset),
        has_timing(edid@, offset, width, height),
    ensures
        resolution matches Some(size) && at_least(size, width, height),
{
    lemma_timing_at(edid@, offset, width, height);
    let j = (offset - 54) / 18;
    assert(timing_slot(edid@, 0, j) == timing_at(edid@, offset));
}

/// The resolution is at least as large as every detailed timing in an extension block, wherever in
/// the block the timings start.
pub proof fn extension_timings_count(
    edid: &[u8],
    resolution: Option<MonitorResolution>,
    k: int,
    j: int,
    offset: int,
    width: int,
    height: int,
)
    requires
        call_ensures(max_resolution, (edid,), resolution),
        in_extension(edid@, k, j, offset),
        has_timing(edid@, offset, width, height),
    ensures
        resolution matches Some(size) && at_least(size, width, height),
{
    lemma_timing_at(edid@, offset, width, height);
    lemma_block_timing(edid@, k, j);
    assert(timing_slot(edid@, k, j) is Some);
}

/// The resolution is that of a detailed timing in the EDID.
pub proof fn resolution_is_a_timing(edid: &[u8], resolution: MonitorResolution)
    requires
        call_ensures(max_resolution, (edid,), Some(resolution)),
        edid@.len() >= 128,
    ensures
        exists|offset: int|
            {
                &&& in_base_block(offset) || exists|k: int, j: int|
                    #[trigger] in_extension(edid@, k, j, offset)
                &&& #[trigger] has_timing(
                    edid@,
                    offset,
                    resolution.width as int,
                    resolution.height as int,
                )
            },
{
    let (k, j) = choose|k: int, j: int| #[trigger] timing_slot(edid@, k, j) == Some(resolution);
    if k == 0 {
        let offset = 54 + 18 * j;
        assert(timing_at(edid@, offset) == Some(resolution));
        assert(in_base_block(offset));
        assert(has_timing(edid@, offset, resolution.width as int, resolution.height as int));
    } else {
        let block = edid_block(edid@, k);
        assert(block[0] == edid@[128 * k]);
        assert(block[2] == edid@[128 * k + 2]);
        lemma_block_timing(edid@, k, j);
        let offset = 128 * k + edid@[128 * k + 2] + 18 * j;
        assert(in_extension(edid@, k, j, offset));
        assert(has_timing(edid@, offset, resolution.width as int, resolution.height as int));
    }
}

/// Looking at one timing leaves the larger of it and what was known: the result is at least as
/// large as either, and is one of the two.
pub proof fn larger_timing_is_kept(
    block: &[u8],
    offset: usize,
    maximum: &mut Option<MonitorResolution>,
    width: int,
    height: int,
)
    requires
        call_ensures(consider_detailed_timing, (block, offset, maximum), ()),
        has_timing(block@, offset as int, width, height),
    ensures
        *final(maximum) matches Some(size) && {
            &&& at_least(size, width, height)
            &&& *old(maximum) matches Some(known) ==> at_least(
                size,
                known.width as int,
                known.height as int,
            )
            &&& *final(maximum) == *old(maximum) || (size.width == width && size.height == height)
        },
{
    lemma_timing_at(block@, offset as int, width, height);
}

/// The resolution of an EDID that can be relied on and holds a timing goes before that of the
/// current mode; otherwise the current mode counts, if there is one. The source says which.
pub proof fn edid_goes_before_the_current_mode(
    edid: &[u8],
    mode: Option<MonitorResolution>,
    valid: bool,
    largest: Option<MonitorResolution>,
    preferred: (Option<MonitorResolution>, Option<ResolutionSource>),
    without: (Option<MonitorResolution>, Option<ResolutionSource>),
)
    requires
        call_ensures(is_valid, (edid,), valid),
        valid ==> call_ensures(max_resolution, (edid,), largest),
        call_ensures(preferred_resolution, (Some(edid), mode), preferred),
        call_ensures(preferred_resolution, (None::<&[u8]>, mode), without),
    ensures
        valid && largest is Some ==> preferred.0 == largest && preferred.1 == Some(
            ResolutionSource::Edid,
        ),
        !valid || largest is None ==> preferred == without,
        without.0 == mode,
        mode is Some ==> without.1 == Some(ResolutionSource::CoreGraphicsDisplayMode),
        mode is None ==> without.1 is None,
{
    if valid {
        if largest is Some {
            if is_largest_timing(edid@, None) {
                largest_timing_is_unique(edid@, None, largest);
            }
            largest_timing_is_unique(edid@, largest, preferred.0);
        }
    }
}

// ---------------------------------------------------------------------------
// Reliability

/// An EDID that can be relied on begins with the header and holds every block that it announces.
pub proof fn valid_edid_is_complete(edid: &[u8])
    requires
        call_ensures(is_valid, (edid,), true),
    ensures
        edid@.len() >= 128,
        edid@[0] == 0x00,
        forall|i: int| 1 <= i <= 6 ==> #[trigger] edid@[i] == 0xff,
        edid@[7] == 0x00,
        edid@.len() >= 128 * (edid@[126] + 1),
{
}

proof fn lemma_sum_of_update(bytes: Seq<u8>, i: int, byte: u8)
    requires
        0 <= i < bytes.len(),
    ensures
        byte_sum(bytes.update(i, byte)) == byte_sum(bytes) - bytes[i] + byte,
    decreases bytes.len(),
{
    let changed = bytes.update(i, byte);
    if i == bytes.len() - 1 {
        assert(changed.drop_last() == bytes.drop_last());
    } else {
        assert(changed.drop_last() == bytes.drop_last().update(i, byte));
        assert(changed.last() == bytes.last());
        lemma_sum_of_update(bytes.drop_last(), i, byte);
    }
}

proof fn lemma_block_of_update(edid: Seq<u8>, i: int, byte: u8, k: int)
    requires
        0 <= i < edid.len(),
        0 <= k,
        128 * (k + 1) <= edid.len(),
    ensures
        k != i / 128 ==> edid_block(edid.update(i, byte), k) == edid_block(edid, k),
        k == i / 128 ==> edid_block(edid.update(i, byte), k) == edid_block(edid, k).update(
            i % 128,
            byte,
        ),
{
    let changed = edid_block(edid.update(i, byte), k);
    if k != i / 128 {
        assert(changed =~= edid_block(edid, k));
    } else {
        assert(changed =~= edid_block(edid, k).update(i % 128, byte));
    }
}

/// A single byte that was misread is noticed: of two EDIDs that differ in one byte of the announced
/// blocks, other than the one that announces them, at most one can be relied on.
pub proof fn one_wrong_byte_is_noticed(a: &[u8], b: &[u8], i: int, byte: u8)
    requires
        call_ensures(is_valid, (a,), true),
        call_ensures(is_valid, (b,), true),
        0 <= i < 128 * (a@[126] + 1),
        i != 126,
        b@ == a@.update(i, byte),
    ensures
        byte == a@[i],
{
    let k = i / 128;
    assert(b@[126] == a@[126]);
    assert(0 <= k <= a@[126]);
    lemma_block_of_update(a@, i, byte, k);
    lemma_sum_of_update(edid_block(a@, k), i % 128, byte);
    assert(byte_sum(edid_block(a@, k)) % 256 == 0);
    assert(byte_sum(edid_block(b@, k)) % 256 == 0);
    assert(edid_block(a@, k)[i % 128] == a@[i]);
}

/// Only the sum of a block counts: what is added to one byte and taken from another of the same
/// block, outside the header and the number of blocks, leaves an EDID that can be relied on.
pub proof fn only_the_sum_of_a_block_counts(a: &[u8], b: &[u8], i: int, j: int, amount: int, valid: bool)
    requires
        call_ensures(is_valid, (a,), true),
        call_ensures(is_valid, (b,), valid),
        8 <= i < a@.len(),
        8 <= j < a@.len(),
        i != j,
        i != 126,
        j != 126,
        i / 128 == j / 128,
        0 <= a@[i] + amount < 256,
        0 <= a@[j] - amount < 256,
        b@ == a@.update(i, (a@[i] + amount) as u8).update(j, (a@[j] - amount) as u8),
    ensures
        valid,
{
    let middle = a@.update(i, (a@[i] + amount) as u8);
    assert(b@.len() == a@.len());
    assert forall|x: int| 0 <= x < 8 implies b@[x] == a@[x] by {}
    assert(b@[126] == a@[126]);
    assert forall|k: int| 0 <= k <= b@[126] implies byte_sum(#[trigger] edid_block(b@, k)) % 256
        == 0 by {
        assert(byte_sum(edid_block(a@, k)) % 256 == 0);
        lemma_block_of_update(a@, i, (a@[i] + amount) as u8, k);
        lemma_block_of_update(middle, j, (a@[j] - amount) as u8, k);
        if k == i / 128 {
            let before = edid_block(a@, k);
            lemma_sum_of_update(before, i % 128, (a@[i] + amount) as u8);
            lemma_sum_of_update(
                before.update(i % 128, (a@[i] + amount) as u8),
                j % 128,
                (a@[j] - amount) as u8,
            );
            assert(before[i % 128] == a@[i]);
            assert(i % 128 != j % 128);
            assert(before.update(i % 128, (a@[i] + amount) as u8)[j % 128] == a@[j]);
        }
    }
    assert(well_formed(b@));
}

/// Every base block can be sealed: for a right header and no announced extension, there is a last
/// byte with which the EDID can be relied on.
pub proof fn base_block_can_be_sealed(edid: Seq<u8>)
    requires
        edid.len() >= 128,
        edid[0] == 0x00,
        forall|i: int| 1 <= i <= 6 ==> #[trigger] edid[i] == 0xff,
        edid[7] == 0x00,
        edid[126] == 0,
    ensures
        exists|seal: u8|
            forall|sealed: &[u8], valid: bool|
                sealed@ == #[trigger] edid.update(127, seal) && #[trigger] call_ensures(
                    is_valid,
                    (sealed,),
                    valid,
                ) ==> valid,
{
    let base = edid_block(edid, 0);
    let others = byte_sum(base) - edid[127];
    let seal = ((256 - others % 256) % 256) as u8;
    lemma_block_of_update(edid, 127, seal, 0);
    lemma_sum_of_update(base, 127, seal);
    assert(base[127] == edid[127]);
    let result = edid.update(127, seal);
    assert((others + seal) % 256 == 0);
    assert forall|k: int| 0 <= k <= result[126] implies byte_sum(#[trigger] edid_block(result, k))
        % 256 == 0 by {}
    assert(well_formed(result));
}

} // verus!
