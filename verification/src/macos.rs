//! Displays as macOS reports them.

use crate::domain::{
    copy_text, descriptor_views, is_input_code, optional_text, DescriptorView, DisplayInput,
    FingerprintView, MonitorDescriptor, MonitorFingerprint, MonitorId, MonitorResolution,
    ResolutionSource,
};
use crate::edid;
use crate::error::{DisplayMuxError, ErrorView};
use crate::text::{
    decimal, decimal_is_injective, decimal_string, hexadecimal, hexadecimal_string, join2, string_of,
};
use vstd::prelude::*;

verus! {

/// The VCP feature that selects the input of a display.
pub const INPUT_SELECT_VCP_CODE: u8 = 0x60;

/// The displays of a Mac, over whichever connection exposes DDC.
pub struct MacOsMonitorController;

impl MacOsMonitorController {
    pub fn new() -> (controller: Self)
        ensures
            controller == MacOsMonitorController,
    {
        MacOsMonitorController
    }
}

impl Default for MacOsMonitorController {
    fn default() -> (controller: Self)
        ensures
            controller == MacOsMonitorController,
    {
        MacOsMonitorController::new()
    }
}

/// What macOS and the display itself report of one display.
#[derive(Debug)]
pub struct NativeDisplay {
    pub display_id: u32,
    pub description: String,
    pub edid: Option<Vec<u8>>,
    pub vendor_number: u32,
    pub model_number: u32,
    pub serial_number: Option<String>,
    pub built_in: bool,
    /// Width and height of the current mode, in pixels.
    pub mode_pixels: Option<(u64, u64)>,
}

/// The letter for a five-bit value: 1 stands for `A`, 26 for `Z`.
pub open spec fn manufacturer_letter(value: int) -> char {
    if 1 <= value <= 26 {
        ((value + 64) as u32) as char
    } else {
        '?'
    }
}

/// The three letters packed into a manufacturer code, five bits each.
pub open spec fn manufacturer_letters(code: int) -> Seq<char> {
    seq![
        manufacturer_letter(code / 1024 % 32),
        manufacturer_letter(code / 32 % 32),
        manufacturer_letter(code % 32),
    ]
}

/// The identity that an EDID states: bytes 8 and 9 hold the manufacturer, 10 and 11 the
/// product, 12 to 15 the serial number, which is missing if they are zero.
pub open spec fn edid_fingerprint(edid: Seq<u8>) -> FingerprintView {
    let serial = edid[12] + 0x100 * edid[13] + 0x10000 * edid[14] + 0x1000000 * edid[15];
    FingerprintView {
        manufacturer_id: manufacturer_letters(edid[8] * 256 + edid[9]),
        product_code: hexadecimal((edid[10] + 256 * edid[11]) as nat, 4),
        serial_number: if serial == 0 {
            None
        } else {
            Some(decimal(serial as nat))
        },
    }
}

/// The identity that macOS states in numbers, of which the low 16 bits name the vendor.
pub open spec fn native_fingerprint(
    vendor_number: u32,
    model_number: u32,
    serial_number: Option<Seq<char>>,
) -> FingerprintView {
    FingerprintView {
        manufacturer_id: manufacturer_letters(vendor_number as int % 0x10000),
        product_code: hexadecimal(model_number as nat, 4),
        serial_number,
    }
}

/// The letter for a five-bit value.
pub fn manufacturer_character(value: u16) -> (letter: char)
    ensures
        letter == manufacturer_letter(value as int),
{
    if 1 <= value && value <= 26 {
        match char::from_u32(value as u32 + 64) {
            Some(letter) => {
                proof {
                    vstd::utf8::char_u32_cast(letter, (value + 64) as u32);
                }
                letter
            },
            None => '?',
        }
    } else {
        '?'
    }
}

proof fn lemma_five_bit_groups(code: u16)
    by (bit_vector)
    ensures
        (code >> 10u16) & 0x1fu16 == code / 1024 % 32,
        (code >> 5u16) & 0x1fu16 == code / 32 % 32,
        code & 0x1fu16 == code % 32,
{
}

/// The three letters of a manufacturer code.
fn manufacturer_string(code: u16) -> (letters: String)
    ensures
        letters@ == manufacturer_letters(code as int),
{
    proof {
        lemma_five_bit_groups(code);
    }
    let mut letters: Vec<char> = Vec::new();
    letters.push(manufacturer_character((code >> 10u16) & 0x1fu16));
    letters.push(manufacturer_character((code >> 5u16) & 0x1fu16));
    letters.push(manufacturer_character(code & 0x1fu16));
    string_of(&letters)
}

/// What is said of an EDID that is not well-formed.
pub open spec fn unusable_edid() -> ErrorView {
    ErrorView::Backend("顯示器 EDID 標頭、長度或 checksum 無效，無法安全識別裝置"@)
}

/// Reads the identity of a display from its EDID.
pub fn fingerprint_from_edid(edid: &[u8]) -> (fingerprint: Result<
    MonitorFingerprint,
    DisplayMuxError,
>)
    ensures
        match fingerprint {
            Ok(fingerprint) => edid::well_formed(edid@) && fingerprint@ == edid_fingerprint(edid@),
            Err(error) => !edid::well_formed(edid@) && error@ == unusable_edid(),
        },
{
    if !edid::is_valid(edid) {
        return Err(
            DisplayMuxError::Backend(
                "顯示器 EDID 標頭、長度或 checksum 無效，無法安全識別裝置".to_owned(),
            ),
        );
    }
    let manufacturer: u16 = edid[8] as u16 * 256 + edid[9] as u16;
    let product: u32 = edid[10] as u32 + 256 * edid[11] as u32;
    let serial: u32 = edid[12] as u32 + 0x100 * edid[13] as u32 + 0x10000 * edid[14] as u32
        + 0x1000000 * edid[15] as u32;
    Ok(
        MonitorFingerprint::new(
            manufacturer_string(manufacturer).as_str(),
            hexadecimal_string(product, 4).as_str(),
            if serial == 0 {
                None
            } else {
                Some(decimal_string(serial as u128))
            },
        ),
    )
}

/// Builds the identity of a display from the numbers that macOS gives.
pub fn fingerprint_from_native_ids(
    vendor_number: u32,
    model_number: u32,
    serial_number: Option<String>,
) -> (fingerprint: MonitorFingerprint)
    ensures
        fingerprint@ == native_fingerprint(
            vendor_number,
            model_number,
            optional_text(serial_number),
        ),
{
    MonitorFingerprint::new(
        manufacturer_string((vendor_number % 0x10000) as u16).as_str(),
        hexadecimal_string(model_number, 4).as_str(),
        serial_number,
    )
}

/// A failure of DDC/CI on a Mac, with what was reported.
pub fn backend_error(reason: &str) -> (error: DisplayMuxError)
    ensures
        error@ == ErrorView::Backend(
            "macOS 無法透過目前的 HDMI／USB-C／Thunderbolt 路徑使用 DDC/CI："@ + reason@,
        ),
{
    DisplayMuxError::Backend(
        join2("macOS 無法透過目前的 HDMI／USB-C／Thunderbolt 路徑使用 DDC/CI：", reason),
    )
}

/// The id of the display with a given number.
pub open spec fn display_id_text(display_id: u32) -> Seq<char> {
    "macos:"@ + decimal(display_id as nat)
}

/// The id of a display.
pub fn id_for(display_id: u32) -> (id: MonitorId)
    ensures
        id@ == display_id_text(display_id),
{
    MonitorId::new(join2("macos:", decimal_string(display_id as u128).as_str()).as_str())
}

/// The size of a display mode, if it has one that a resolution can hold.
pub open spec fn mode_resolution(mode_pixels: Option<(u64, u64)>) -> Option<MonitorResolution> {
    match mode_pixels {
        Some((width, height)) => if 0 < width <= u32::MAX && 0 < height <= u32::MAX {
            Some(MonitorResolution { width: width as u32, height: height as u32 })
        } else {
            None
        },
        None => None,
    }
}

/// The resolution of the current display mode.
pub fn core_graphics_resolution(mode_pixels: Option<(u64, u64)>) -> (resolution: Option<
    MonitorResolution,
>)
    ensures
        resolution == mode_resolution(mode_pixels),
{
    match mode_pixels {
        Some((width, height)) => {
            if width <= u32::MAX as u64 && height <= u32::MAX as u64 && width > 0 && height > 0 {
                Some(MonitorResolution::new(width as u32, height as u32))
            } else {
                None
            }
        },
        None => None,
    }
}

/// The bytes of an EDID that may be missing.
pub open spec fn edid_bytes(edid: Option<Vec<u8>>) -> Option<Seq<u8>> {
    match edid {
        Some(bytes) => Some(bytes@),
        None => None,
    }
}

/// Whether an EDID tells the resolution of its display.
pub open spec fn tells_resolution(edid: Option<Seq<u8>>) -> bool {
    edid matches Some(bytes) && edid::well_formed(bytes) && !edid::is_largest_timing(bytes, None)
}

/// How `display` is described: by its EDID where that is reliable, else by what macOS knows.
pub open spec fn describes(monitor: DescriptorView, display: NativeDisplay) -> bool {
    let edid = edid_bytes(display.edid);
    let mode = mode_resolution(display.mode_pixels);
    &&& monitor.id == display_id_text(display.display_id)
    &&& monitor.name == display.description@
    &&& monitor.fingerprint == if edid matches Some(bytes) && edid::well_formed(bytes) {
        edid_fingerprint(edid->0)
    } else {
        native_fingerprint(
            display.vendor_number,
            display.model_number,
            optional_text(display.serial_number),
        )
    }
    &&& monitor.active
    &&& monitor.built_in == display.built_in
    &&& if tells_resolution(edid) {
        &&& monitor.max_resolution is Some
        &&& edid::is_largest_timing(edid->0, monitor.max_resolution)
        &&& monitor.resolution_source == Some(ResolutionSource::Edid)
    } else {
        &&& monitor.max_resolution == mode
        &&& monitor.resolution_source == match mode {
            Some(_) => Some(ResolutionSource::CoreGraphicsDisplayMode),
            None => None,
        }
    }
}

/// Describes a display.
pub fn descriptor(display: &NativeDisplay) -> (monitor: MonitorDescriptor)
    ensures
        describes(monitor@, *display),
{
    let raw_edid: Option<&[u8]> = match &display.edid {
        Some(bytes) => Some(bytes.as_slice()),
        None => None,
    };
    let from_edid: Option<MonitorFingerprint> = match raw_edid {
        Some(bytes) => match fingerprint_from_edid(bytes) {
            Ok(fingerprint) => Some(fingerprint),
            Err(_) => None,
        },
        None => None,
    };
    let fingerprint = match from_edid {
        Some(fingerprint) => fingerprint,
        None => fingerprint_from_native_ids(
            display.vendor_number,
            display.model_number,
            copy_text(&display.serial_number),
        ),
    };
    let (max_resolution, resolution_source) = edid::preferred_resolution(
        raw_edid,
        core_graphics_resolution(display.mode_pixels),
    );
    MonitorDescriptor {
        id: id_for(display.display_id),
        name: display.description.clone(),
        fingerprint,
        active: true,
        built_in: display.built_in,
        max_resolution,
        resolution_source,
    }
}

/// Describes the displays in the order in which macOS lists them.
pub fn descriptors(displays: &[NativeDisplay]) -> (monitors: Vec<MonitorDescriptor>)
    ensures
        monitors@.len() == displays@.len(),
        forall|i: int|
            0 <= i < displays@.len() ==> describes(#[trigger] descriptor_views(monitors@)[i], displays@[i]),
{
    let mut monitors: Vec<MonitorDescriptor> = Vec::new();
    let mut i: usize = 0;
    while i < displays.len()
        invariant
            i <= displays@.len(),
            monitors@.len() == i,
            forall|k: int| 0 <= k < i ==> describes((#[trigger] monitors@[k])@, displays@[k]),
        decreases displays@.len() - i,
    {
        monitors.push(descriptor(&displays[i]));
        i += 1;
    }
    monitors
}

/// Finds the first display with a given id among those that macOS lists.
pub fn find_monitor(displays: &[NativeDisplay], monitor_id: &MonitorId) -> (index: Result<
    usize,
    DisplayMuxError,
>)
    ensures
        match index {
            Ok(index) => {
                &&& index < displays@.len()
                &&& display_id_text(displays@[index as int].display_id) == monitor_id@
                &&& forall|i: int|
                    0 <= i < index ==> display_id_text((#[trigger] displays@[i]).display_id)
                        != monitor_id@
            },
            Err(error) => {
                &&& error@ == ErrorView::MonitorNoLongerAvailable(monitor_id@)
                &&& forall|i: int|
                    0 <= i < displays@.len() ==> display_id_text(
                        (#[trigger] displays@[i]).display_id,
                    ) != monitor_id@
            },
        },
{
    let mut i: usize = 0;
    while i < displays.len()
        invariant
            i <= displays@.len(),
            forall|k: int|
                0 <= k < i ==> display_id_text((#[trigger] displays@[k]).display_id) != monitor_id@,
        decreases displays@.len() - i,
    {
        if id_for(displays[i].display_id).same_as(monitor_id) {
            return Ok(i);
        }
        i += 1;
    }
    Err(DisplayMuxError::MonitorNoLongerAvailable(monitor_id.as_str().to_owned()))
}

/// What reading the input of a display gave: the value of the VCP feature, or why it was not read.
pub fn read_reply(reply: Result<u16, String>) -> (read: Result<DisplayInput, DisplayMuxError>)
    ensures
        match (read, reply) {
            (Ok(input), Ok(value)) => is_input_code(value as u32) && input.code == value,
            (Err(error), Ok(value)) => !is_input_code(value as u32) && error@
                == ErrorView::InvalidInput(value as u32),
            (Err(error), Err(reason)) => error@ == ErrorView::Backend(
                "macOS 無法透過目前的 HDMI／USB-C／Thunderbolt 路徑使用 DDC/CI："@ + reason@,
            ),
            _ => false,
        },
{
    match reply {
        Ok(value) => DisplayInput::new(value as u32),
        Err(reason) => Err(backend_error(reason.as_str())),
    }
}

/// Where the numbers that macOS gives are those of the EDID, both name the same display, so
/// a display keeps its identity when its EDID cannot be read.
pub proof fn edid_and_native_identities_agree(
    edid: Seq<u8>,
    vendor_number: u32,
    model_number: u32,
    serial_number: Option<Seq<char>>,
)
    requires
        vendor_number as int % 0x10000 == edid[8] * 256 + edid[9],
        model_number == edid[10] + 256 * edid[11],
        serial_number == edid_fingerprint(edid).serial_number,
    ensures
        native_fingerprint(vendor_number, model_number, serial_number) == edid_fingerprint(edid),
{
}

/// No two displays have the same id.
pub proof fn display_ids_are_distinct(a: u32, b: u32)
    requires
        display_id_text(a) == display_id_text(b),
    ensures
        a == b,
{
    let prefix = "macos:"@;
    assert(display_id_text(a).skip(prefix.len() as int) == decimal(a as nat));
    assert(display_id_text(b).skip(prefix.len() as int) == decimal(b as nat));
    decimal_is_injective(a as nat, b as nat);
}

} // verus!
