//! Laws of the identity of displays on macOS.

use crate::domain::{
    descriptor_views, optional_text, MonitorDescriptor, MonitorFingerprint, MonitorId,
    MonitorResolution, ResolutionSource,
};
use crate::edid::{largest_timing_is_unique, preferred_resolution};
use crate::error::{DisplayMuxError, ErrorView};
use crate::macos::{
    core_graphics_resolution, describes, descriptor, descriptors, display_id_text,
    display_ids_are_distinct, edid_fingerprint, find_monitor, fingerprint_from_edid,
    fingerprint_from_native_ids, id_for, manufacturer_letters, tells_resolution, NativeDisplay,
};
use crate::text::{
    decimal, decimal_is_injective, digit, digits, hexadecimal, hexadecimal_is_injective,
};
use vstd::prelude::*;

verus! {

/// Whether a number has the given digits in base 256, the least significant first.
pub open spec fn has_bytes(number: nat, b0: u8, b1: u8, b2: u8, b3: u8) -> bool {
    &&& number % 256 == b0
    &&& number / 256 % 256 == b1
    &&& number / 256 / 256 % 256 == b2
    &&& number / 256 / 256 / 256 == b3
}

/// The serial number of a display is the number whose bytes are bytes 12 to 15 of its EDID, the
/// least significant first, in decimal. Four zero bytes are no serial number.
pub proof fn serial_number_is_four_bytes(
    edid: &[u8],
    fingerprint: MonitorFingerprint,
    number: nat,
)
    requires
        call_ensures(fingerprint_from_edid, (edid,), Ok(fingerprint)),
        has_bytes(number, edid@[12], edid@[13], edid@[14], edid@[15]),
    ensures
        if number == 0 {
            fingerprint.serial_number is None
        } else {
            fingerprint.serial_number matches Some(text) && text@ == decimal(number)
        },
{
    let serial = edid@[12] + 0x100 * edid@[13] + 0x10000 * edid@[14] + 0x1000000 * edid@[15];
    assert(number == serial) by {
        let n1 = number / 256;
        let n2 = n1 / 256;
        let n3 = n2 / 256;
        assert(number == 256 * n1 + number % 256);
        assert(n1 == 256 * n2 + n1 % 256);
        assert(n2 == 256 * n3 + n2 % 256);
    }
    assert(fingerprint@ == edid_fingerprint(edid@));
}

/// Displays with the same serial number have the same four bytes in their EDIDs: no unit is taken
/// for another.
pub proof fn serial_numbers_tell_units_apart(
    a: &[u8],
    b: &[u8],
    of_a: MonitorFingerprint,
    of_b: MonitorFingerprint,
    i: int,
)
    requires
        call_ensures(fingerprint_from_edid, (a,), Ok(of_a)),
        call_ensures(fingerprint_from_edid, (b,), Ok(of_b)),
        of_a@.serial_number == of_b@.serial_number,
        12 <= i < 16,
    ensures
        a@[i] == b@[i],
{
    let number_a = (a@[12] + 0x100 * a@[13] + 0x10000 * a@[14] + 0x1000000 * a@[15]) as nat;
    let number_b = (b@[12] + 0x100 * b@[13] + 0x10000 * b@[14] + 0x1000000 * b@[15]) as nat;
    assert(of_a@ == edid_fingerprint(a@));
    assert(of_b@ == edid_fingerprint(b@));
    if number_a != 0 {
        decimal_is_injective(number_a, number_b);
    }
    assert(number_a == number_b);
}

/// The product code is the number in bytes 10 and 11 of the EDID, the least significant first, in
/// four hexadecimal digits; the first two digits are those of byte 11.
pub proof fn product_code_is_two_bytes(edid: &[u8], fingerprint: MonitorFingerprint)
    requires
        call_ensures(fingerprint_from_edid, (edid,), Ok(fingerprint)),
    ensures
        fingerprint.product_code@ == hexadecimal(edid@[11] as nat, 2) + hexadecimal(
            edid@[10] as nat,
            2,
        ),
{
    assert(fingerprint@ == edid_fingerprint(edid@));
    let low = edid@[10] as nat;
    let high = edid@[11] as nat;
    let number = (edid@[10] + 256 * edid@[11]) as nat;
    lemma_two_digits(low);
    lemma_two_digits(high);
    reveal_with_fuel(digits, 5);
    assert(number / 256 == high);
    assert(number % 16 == low % 16);
    assert(number / 16 % 16 == low / 16);
    assert(number / 16 / 16 == high);
    assert(number / 16 / 16 / 16 == high / 16);
    assert(hexadecimal(number, 4) =~= hexadecimal(high, 2) + hexadecimal(low, 2));
}

proof fn lemma_two_digits(byte: nat)
    requires
        byte < 256,
    ensures
        hexadecimal(byte, 2) == seq![digit(byte / 16), digit(byte % 16)],
{
    reveal_with_fuel(digits, 3);
    assert(hexadecimal(byte, 2) =~= seq![
        digit(byte / 16),
        digit(byte % 16),
    ]);
}

/// The manufacturer is three letters, packed into bytes 8 and 9 of the EDID, most significant
/// first, as numbers of five bits: 1 stands for A, 2 for B and so on. The highest bit means
/// nothing.
pub proof fn manufacturer_is_three_letters(
    edid: &[u8],
    fingerprint: MonitorFingerprint,
    unused: int,
    first: char,
    second: char,
    third: char,
)
    requires
        call_ensures(fingerprint_from_edid, (edid,), Ok(fingerprint)),
        'A' <= first <= 'Z',
        'A' <= second <= 'Z',
        'A' <= third <= 'Z',
        0 <= unused <= 1,
        256 * edid@[8] + edid@[9] == 32768 * unused + 1024 * (first as u32 - 64) + 32 * (
        second as u32 - 64) + (third as u32 - 64),
    ensures
        fingerprint.manufacturer_id@ == seq![first, second, third],
{
    assert(fingerprint@ == edid_fingerprint(edid@));
    lemma_letters(edid@[8] * 256 + edid@[9], unused, first, second, third);
}

proof fn lemma_letters(code: int, unused: int, first: char, second: char, third: char)
    requires
        'A' <= first <= 'Z',
        'A' <= second <= 'Z',
        'A' <= third <= 'Z',
        0 <= unused <= 1,
        code == 32768 * unused + 1024 * (first as u32 - 64) + 32 * (second as u32 - 64) + (
        third as u32 - 64),
    ensures
        manufacturer_letters(code) == seq![first, second, third],
{
    let f = first as u32 - 64;
    let s = second as u32 - 64;
    let t = third as u32 - 64;
    assert(code % 32 == t);
    assert(code / 32 == 1024 * unused + 32 * f + s);
    assert(code / 32 % 32 == s);
    assert(code / 1024 == 32 * unused + f);
    assert(code / 1024 % 32 == f);
    vstd::utf8::char_u32_cast(first, first as u32);
    vstd::utf8::char_u32_cast(second, second as u32);
    vstd::utf8::char_u32_cast(third, third as u32);
    assert(manufacturer_letters(code) =~= seq![first, second, third]);
}

/// Displays with the same product code have the same two bytes in their EDIDs.
pub proof fn product_codes_tell_products_apart(
    a: &[u8],
    b: &[u8],
    of_a: MonitorFingerprint,
    of_b: MonitorFingerprint,
)
    requires
        call_ensures(fingerprint_from_edid, (a,), Ok(of_a)),
        call_ensures(fingerprint_from_edid, (b,), Ok(of_b)),
        of_a.product_code@ == of_b.product_code@,
    ensures
        a@[10] == b@[10],
        a@[11] == b@[11],
{
    assert(of_a@ == edid_fingerprint(a@));
    assert(of_b@ == edid_fingerprint(b@));
    hexadecimal_is_injective(
        (a@[10] + 256 * a@[11]) as nat,
        (b@[10] + 256 * b@[11]) as nat,
        4,
    );
}

/// The low 16 bits of the vendor number that macOS gives name the manufacturer as bytes 8 and 9 of
/// an EDID do.
pub proof fn native_vendor_is_three_letters(
    vendor_number: u32,
    model_number: u32,
    serial_number: Option<String>,
    fingerprint: MonitorFingerprint,
    high: int,
    code: int,
    unused: int,
    first: char,
    second: char,
    third: char,
)
    requires
        call_ensures(
            fingerprint_from_native_ids,
            (vendor_number, model_number, serial_number),
            fingerprint,
        ),
        'A' <= first <= 'Z',
        'A' <= second <= 'Z',
        'A' <= third <= 'Z',
        0 <= unused <= 1,
        code == 32768 * unused + 1024 * (first as u32 - 64) + 32 * (second as u32 - 64) + (
        third as u32 - 64),
        0 <= high,
        vendor_number == 65536 * high + code,
    ensures
        fingerprint.manufacturer_id@ == seq![first, second, third],
{
    assert(0 <= code < 65536);
    assert(vendor_number as int % 0x10000 == code) by (nonlinear_arith)
        requires
            0 <= code < 65536,
            vendor_number == 65536 * high + code,
    ;
    lemma_letters(code, unused, first, second, third);
    assert(fingerprint@.manufacturer_id == manufacturer_letters(code));
}

/// The product code tells the model numbers that macOS gives apart, and the serial number is the
/// one that macOS gives.
pub proof fn native_model_and_serial_number_are_kept(
    vendor_number: u32,
    model_number: u32,
    serial_number: Option<String>,
    fingerprint: MonitorFingerprint,
    other_model: u32,
    other: MonitorFingerprint,
)
    requires
        call_ensures(
            fingerprint_from_native_ids,
            (vendor_number, model_number, serial_number),
            fingerprint,
        ),
        call_ensures(
            fingerprint_from_native_ids,
            (vendor_number, other_model, serial_number),
            other,
        ),
    ensures
        fingerprint@.serial_number == optional_text(serial_number),
        fingerprint.product_code@ == other.product_code@ <==> model_number == other_model,
{
    if fingerprint.product_code@ == other.product_code@ {
        hexadecimal_is_injective(model_number as nat, other_model as nat, 4);
    }
}

/// A display is described by its EDID, where that can be relied on, else by the numbers that macOS
/// gives, and by what macOS says of it otherwise.
pub proof fn display_is_described_by_its_edid(
    display: NativeDisplay,
    edid: &[u8],
    monitor: MonitorDescriptor,
    from_edid: Result<MonitorFingerprint, DisplayMuxError>,
    from_numbers: MonitorFingerprint,
    mode: Option<MonitorResolution>,
    preferred: (Option<MonitorResolution>, Option<ResolutionSource>),
)
    requires
        call_ensures(descriptor, (&display,), monitor),
        display.edid matches Some(bytes) && bytes@ == edid@,
        call_ensures(fingerprint_from_edid, (edid,), from_edid),
        call_ensures(
            fingerprint_from_native_ids,
            (display.vendor_number, display.model_number, display.serial_number),
            from_numbers,
        ),
        call_ensures(core_graphics_resolution, (display.mode_pixels,), mode),
        call_ensures(preferred_resolution, (Some(edid), mode), preferred),
    ensures
        monitor.name@ == display.description@,
        monitor.built_in == display.built_in,
        monitor.active,
        monitor.fingerprint@ == match from_edid {
            Ok(fingerprint) => fingerprint@,
            Err(_) => from_numbers@,
        },
        monitor.max_resolution == preferred.0,
        monitor.resolution_source == preferred.1,
{
    if tells_resolution(Some(edid@)) {
        largest_timing_is_unique(edid@, monitor.max_resolution, preferred.0);
    }
}

/// A display without an EDID is described by the numbers that macOS gives and by its current mode.
pub proof fn display_without_an_edid_is_described_by_numbers(
    display: NativeDisplay,
    monitor: MonitorDescriptor,
    from_numbers: MonitorFingerprint,
    mode: Option<MonitorResolution>,
)
    requires
        call_ensures(descriptor, (&display,), monitor),
        display.edid is None,
        call_ensures(
            fingerprint_from_native_ids,
            (display.vendor_number, display.model_number, display.serial_number),
            from_numbers,
        ),
        call_ensures(core_graphics_resolution, (display.mode_pixels,), mode),
    ensures
        monitor.name@ == display.description@,
        monitor.built_in == display.built_in,
        monitor.active,
        monitor.fingerprint@ == from_numbers@,
        monitor.max_resolution == mode,
        monitor.resolution_source is Some <==> mode is Some,
        monitor.resolution_source matches Some(source) ==> source
            == ResolutionSource::CoreGraphicsDisplayMode,
{
}

/// Every display is described, in the order in which macOS lists them.
pub proof fn every_display_is_described(
    displays: &[NativeDisplay],
    monitors: Vec<MonitorDescriptor>,
    i: int,
    monitor: MonitorDescriptor,
)
    requires
        call_ensures(descriptors, (displays,), monitors),
        0 <= i < displays@.len(),
        call_ensures(descriptor, (&displays@[i],), monitor),
    ensures
        monitors@.len() == displays@.len(),
        monitors@[i].id@ == monitor.id@,
        monitors@[i].name@ == monitor.name@,
        monitors@[i].fingerprint@ == monitor.fingerprint@,
        monitors@[i].built_in == monitor.built_in,
        monitors@[i].active == monitor.active,
        monitors@[i].max_resolution == monitor.max_resolution,
        monitors@[i].resolution_source == monitor.resolution_source,
{
    let views = descriptor_views(monitors@);
    assert(views[i] == monitors@[i]@);
    assert(describes(views[i], displays@[i]));
    if let Some(bytes) = displays@[i].edid {
        if tells_resolution(Some(bytes@)) {
            largest_timing_is_unique(
                bytes@,
                monitors@[i].max_resolution,
                monitor.max_resolution,
            );
        }
    }
}

/// The current mode gives a resolution exactly where both of its sides are at least one pixel and
/// fit, and then that of the mode.
pub proof fn current_mode_gives_its_own_size(
    mode_pixels: Option<(u64, u64)>,
    resolution: Option<MonitorResolution>,
)
    requires
        call_ensures(core_graphics_resolution, (mode_pixels,), resolution),
    ensures
        match mode_pixels {
            None => resolution is None,
            Some((width, height)) => {
                &&& resolution is Some <==> 1 <= width <= u32::MAX && 1 <= height <= u32::MAX
                &&& resolution matches Some(size) ==> size.width == width && size.height == height
            },
        },
{
}

/// A display is found under the id that it was listed with, the first of its number, and no
/// display under an id that none was listed with.
pub proof fn display_is_found_under_its_id(
    displays: &[NativeDisplay],
    monitor_id: MonitorId,
    found: Result<usize, DisplayMuxError>,
    position: int,
    number: u32,
    listed_id: MonitorId,
)
    requires
        call_ensures(find_monitor, (displays, &monitor_id), found),
        call_ensures(id_for, (number,), listed_id),
        monitor_id@ == listed_id@,
    ensures
        (0 <= position < displays@.len() && displays@[position].display_id == number && forall|
            i: int,
        |
            0 <= i < position ==> (#[trigger] displays@[i]).display_id != number) ==> found == Ok::<
            usize,
            DisplayMuxError,
        >(position as usize),
        (forall|i: int| 0 <= i < displays@.len() ==> (#[trigger] displays@[i]).display_id != number)
            ==> (found matches Err(error) && error@ == ErrorView::MonitorNoLongerAvailable(
            monitor_id@,
        )),
{
    if let Ok(index) = found {
        display_ids_are_distinct(displays@[index as int].display_id, number);
        if 0 <= position < displays@.len() && displays@[position].display_id == number && forall|
            i: int,
        |
            0 <= i < position ==> (#[trigger] displays@[i]).display_id != number {
            if position < index {
                assert(display_id_text(displays@[position].display_id) != monitor_id@);
            } else if index < position {
                assert(displays@[index as int].display_id != number);
            }
        }
    } else {
        if 0 <= position < displays@.len() && displays@[position].display_id == number {
            assert(display_id_text(displays@[position].display_id) != monitor_id@);
        }
    }
}

} // verus!
