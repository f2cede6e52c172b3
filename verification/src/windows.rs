//! Displays as Windows reports them.

use crate::domain::{
    descriptor_views, is_input_code, DescriptorView, DisplayInput, FingerprintView,
    MonitorDescriptor, MonitorFingerprint, MonitorId,
};
use crate::error::{DisplayMuxError, ErrorView};
use crate::text::{
    ascii_upper, before_zero, chars_of, decimal, decimal_holds_digits_only, decimal_is_injective,
    decimal_string, decode_utf16, field_views, fields, fields_of_joined_texts, join2, join3,
    scalar_chars, scalar_units, slice_chars, split_fields, starts_with, string_of, strip_leading,
    strip_repeated, text_without_separator_is_one_field, to_ascii_upper, trim, trimmed, until_zero,
    utf16_lossy,
};
use vstd::prelude::*;

verus! {

/// The VCP feature that selects the input of a display.
pub const INPUT_SOURCE_VCP_CODE: u8 = 0x60;

/// The displays of a Windows computer.
pub struct WindowsMonitorController;

impl WindowsMonitorController {
    pub fn new() -> (controller: Result<Self, DisplayMuxError>)
        ensures
            controller == Ok::<Self, DisplayMuxError>(WindowsMonitorController),
    {
        Ok(WindowsMonitorController)
    }
}

/// What WMI reports of one display.
#[derive(Debug)]
pub struct WmiMonitorId {
    pub instance_name: String,
    pub active: bool,
    pub serial_number_id: Vec<u16>,
    pub user_friendly_name: Vec<u16>,
}

/// One logical display: its device path and the descriptions of the physical displays behind
/// it, each as far as Windows gave it.
#[derive(Debug)]
pub struct LogicalMonitor {
    pub device_path: Result<String, DisplayMuxError>,
    pub physical: Result<Vec<Vec<u16>>, DisplayMuxError>,
}

// ---------------------------------------------------------------------------
// Device paths

/// What a device path says of its display.
#[derive(Debug, PartialEq, Eq)]
pub struct DeviceIdentity {
    pub manufacturer_id: String,
    pub product_code: String,
    pub wmi_instance_key: String,
}

/// The characters of a device identity.
pub struct IdentityView {
    pub manufacturer_id: Seq<char>,
    pub product_code: Seq<char>,
    pub wmi_instance_key: Seq<char>,
}

impl View for DeviceIdentity {
    type V = IdentityView;

    open spec fn view(&self) -> IdentityView {
        IdentityView {
            manufacturer_id: self.manufacturer_id@,
            product_code: self.product_code@,
            wmi_instance_key: self.wmi_instance_key@,
        }
    }
}

/// How many bytes a character takes in UTF-8.
pub open spec fn utf8_width(c: char) -> nat {
    if (c as u32) < 0x80 {
        1
    } else if (c as u32) < 0x800 {
        2
    } else if (c as u32) < 0x10000 {
        3
    } else {
        4
    }
}

/// How many bytes a text takes in UTF-8.
pub open spec fn utf8_len(text: Seq<char>) -> nat
    decreases text.len(),
{
    if text.len() == 0 {
        0
    } else {
        utf8_len(text.drop_last()) + utf8_width(text.last())
    }
}

/// The parts of a device path: the text between number signs, in upper case, after the
/// prefixes `\\?\` of the whole path.
pub open spec fn path_parts(device_path: Seq<char>) -> Seq<Seq<char>> {
    fields(ascii_upper(strip_repeated(device_path, "\\\\?\\"@)), '#')
}

/// A path of a display: `DISPLAY`, a hardware id of at least four bytes, and an instance.
pub open spec fn is_display_path(device_path: Seq<char>) -> bool {
    let parts = path_parts(device_path);
    parts.len() >= 3 && parts[0] == "DISPLAY"@ && utf8_len(parts[1]) >= 4
}

/// The first `count` characters of `text` take three bytes.
pub open spec fn three_bytes(text: Seq<char>, count: int) -> bool {
    0 <= count <= text.len() && utf8_len(text.take(count)) == 3
}

/// A path whose hardware id, if it has one, can be cut after its third byte.
pub open spec fn is_cuttable(device_path: Seq<char>) -> bool {
    is_display_path(device_path) ==> exists|count: int|
        #[trigger] three_bytes(path_parts(device_path)[1], count)
}

/// What a path of a display says: the first three bytes of the hardware id name the
/// manufacturer, the others the product.
pub open spec fn path_identity(device_path: Seq<char>) -> IdentityView {
    let parts = path_parts(device_path);
    let count = choose|count: int| #[trigger] three_bytes(parts[1], count);
    IdentityView {
        manufacturer_id: parts[1].take(count),
        product_code: parts[1].skip(count),
        wmi_instance_key: "DISPLAY\\"@ + parts[1] + "\\"@ + parts[2],
    }
}

/// What is said of a path that is not that of a display.
pub open spec fn unknown_path(device_path: Seq<char>) -> ErrorView {
    ErrorView::Backend("無法解析 Windows 螢幕裝置路徑："@ + device_path)
}

proof fn lemma_utf8_len_grows(text: Seq<char>, a: int, b: int)
    requires
        0 <= a < b <= text.len(),
    ensures
        utf8_len(text.take(a)) < utf8_len(text.take(b)),
    decreases b,
{
    assert(text.take(b).drop_last() == text.take(b - 1));
    if a < b - 1 {
        lemma_utf8_len_grows(text, a, b - 1);
    }
}

/// At most one cut comes after the third byte.
pub proof fn lemma_one_cut(text: Seq<char>, a: int, b: int)
    requires
        three_bytes(text, a),
        three_bytes(text, b),
    ensures
        a == b,
{
    if a < b {
        lemma_utf8_len_grows(text, a, b);
    } else if b < a {
        lemma_utf8_len_grows(text, b, a);
    }
}

/// How many characters make up the first three bytes, and how many bytes there are, counted
/// up to four.
fn measure(chars: &[char]) -> (measured: (Option<usize>, usize))
    ensures
        match measured.0 {
            Some(count) => three_bytes(chars@, count as int),
            None => forall|count: int| !#[trigger] three_bytes(chars@, count),
        },
        measured.1 <= 4,
        measured.1 >= 4 <==> utf8_len(chars@) >= 4,
{
    let mut cut: Option<usize> = None;
    let mut bytes: usize = 0;
    let mut i: usize = 0;
    while i < chars.len()
        invariant
            i <= chars@.len(),
            bytes <= 4,
            bytes == utf8_len(chars@.take(i as int)) || (bytes == 4 && utf8_len(
                chars@.take(i as int),
            ) >= 4),
            match cut {
                Some(count) => count <= i && three_bytes(chars@, count as int),
                None => forall|count: int| count <= i ==> !#[trigger] three_bytes(chars@, count),
            },
        decreases chars@.len() - i,
    {
        let code: u32 = chars[i] as u32;
        let width: usize = if code < 0x80 {
            1
        } else if code < 0x800 {
            2
        } else if code < 0x10000 {
            3
        } else {
            4
        };
        assert(chars@.take(i + 1).drop_last() == chars@.take(i as int));
        bytes = if bytes + width > 4 {
            4
        } else {
            bytes + width
        };
        i += 1;
        if bytes == 3 {
            cut = Some(i);
        }
    }
    assert(chars@.take(i as int) == chars@);
    (cut, bytes)
}

/// The prefix `\\?\` of a device path.
fn path_prefix() -> (prefix: Vec<char>)
    ensures
        prefix@ == "\\\\?\\"@,
{
    chars_of("\\\\?\\")
}

fn is_display_parts(parts: &Vec<Vec<char>>) -> (is_display: bool)
    ensures
        is_display == (parts@.len() >= 3 && parts@[0]@ == "DISPLAY"@ && utf8_len(parts@[1]@) >= 4),
{
    parts.len() >= 3 && string_of(&parts[0]) == "DISPLAY".to_owned() && measure(&parts[1]).1 >= 4
}

fn split_path(device_path: &str) -> (parts: Vec<Vec<char>>)
    ensures
        field_views(parts@) == path_parts(device_path@),
{
    let stripped = strip_leading(&chars_of(device_path), &path_prefix());
    split_fields(&to_ascii_upper(&stripped), '#')
}

/// Whether the hardware id of a path, if it has one, can be cut after its third byte.
pub fn can_cut(device_path: &str) -> (cuttable: bool)
    ensures
        cuttable == is_cuttable(device_path@),
{
    let parts = split_path(device_path);
    assert(forall|i: int|
        0 <= i < parts@.len() ==> path_parts(device_path@)[i] == #[trigger] parts@[i]@);
    if is_display_parts(&parts) {
        measure(&parts[1]).0.is_some()
    } else {
        true
    }
}

/// Reads the identity of a display from its device path.
pub fn parse_device_path(device_path: &str) -> (identity: Result<DeviceIdentity, DisplayMuxError>)
    requires
        is_cuttable(device_path@),
    ensures
        match identity {
            Ok(identity) => is_display_path(device_path@) && identity@ == path_identity(
                device_path@,
            ),
            Err(error) => !is_display_path(device_path@) && error@ == unknown_path(device_path@),
        },
{
    let parts = split_path(device_path);
    assert(forall|i: int|
        0 <= i < parts@.len() ==> path_parts(device_path@)[i] == #[trigger] parts@[i]@);
    if !is_display_parts(&parts) {
        return Err(
            DisplayMuxError::Backend(
                join2("無法解析 Windows 螢幕裝置路徑：", device_path),
            ),
        );
    }
    let hardware_id = &parts[1];
    let cut: usize = match measure(hardware_id).0 {
        Some(count) => count,
        None => 0,
    };
    proof {
        let chosen = choose|count: int| #[trigger] three_bytes(hardware_id@, count);
        assert(exists|count: int| #[trigger] three_bytes(hardware_id@, count));
        lemma_one_cut(hardware_id@, cut as int, chosen);
    }
    let head = slice_chars(hardware_id, 0, cut);
    let tail = slice_chars(hardware_id, cut, hardware_id.len());
    assert(head@ == hardware_id@.take(cut as int));
    assert(tail@ == hardware_id@.skip(cut as int));
    let start = join3("DISPLAY\\", string_of(hardware_id).as_str(), "\\");
    Ok(
        DeviceIdentity {
            manufacturer_id: string_of(&head),
            product_code: string_of(&tail),
            wmi_instance_key: join2(start.as_str(), string_of(&parts[2]).as_str()),
        },
    )
}

// ---------------------------------------------------------------------------
// WMI

/// A WMI instance name without its final `_0`, in upper case.
pub open spec fn wmi_key(instance: Seq<char>) -> Seq<char> {
    if instance.len() >= 2 && instance[instance.len() - 2] == '_' && instance.last() == '0' {
        ascii_upper(instance.take(instance.len() - 2))
    } else {
        ascii_upper(instance)
    }
}

/// Brings a WMI instance name into the form of a device path.
pub fn normalize_wmi_instance(instance: &str) -> (key: String)
    ensures
        key@ == wmi_key(instance@),
{
    let chars = chars_of(instance);
    let count: usize = chars.len();
    let end: usize = if count >= 2 && chars[count - 2] == '_' && chars[count - 1] == '0' {
        count - 2
    } else {
        count
    };
    let kept = slice_chars(&chars, 0, end);
    assert(kept@ == chars@.take(end as int));
    assert(chars@.take(count as int) == chars@);
    string_of(&to_ascii_upper(&kept))
}

proof fn lemma_upper_joined(a: Seq<char>, b: Seq<char>)
    ensures
        ascii_upper(a + b) == ascii_upper(a) + ascii_upper(b),
{
    assert(ascii_upper(a + b) =~= ascii_upper(a) + ascii_upper(b));
}

/// The parts of the device path of a display.
pub proof fn lemma_display_parts(hardware_id: Seq<char>, instance: Seq<char>, tail: Seq<char>)
    requires
        !hardware_id.contains('#'),
        !instance.contains('#'),
    ensures
        ({
            let parts = path_parts(
                "\\\\?\\"@ + "DISPLAY#"@ + hardware_id + "#"@ + instance + "#"@ + tail,
            );
            &&& parts.len() >= 3
            &&& parts[0] == "DISPLAY"@
            &&& parts[1] == ascii_upper(hardware_id)
            &&& parts[2] == ascii_upper(instance)
        }),
{
    reveal_strlit("\\\\?\\");
    reveal_strlit("DISPLAY#");
    reveal_strlit("DISPLAY");
    reveal_strlit("#");
    let prefix = "\\\\?\\"@;
    let upper_id = ascii_upper(hardware_id);
    let upper_instance = ascii_upper(instance);
    let rest = "DISPLAY#"@ + hardware_id + "#"@ + instance + "#"@ + tail;
    let path = prefix + "DISPLAY#"@ + hardware_id + "#"@ + instance + "#"@ + tail;

    // The path without its prefix.
    assert(path =~= prefix + rest);
    assert(path.take(prefix.len() as int) =~= prefix);
    assert(path.skip(prefix.len() as int) =~= rest);
    assert(rest[0] == 'D');
    assert(!starts_with(rest, prefix)) by {
        if starts_with(rest, prefix) {
            assert(rest.take(prefix.len() as int)[0] == prefix[0]);
        }
    }
    assert(strip_repeated(rest, prefix) == rest);
    assert(strip_repeated(path, prefix) == rest);

    // Its parts.
    let hash = seq!['#'];
    let upper_tail = ascii_upper(tail);
    let after_id = upper_instance + hash + upper_tail;
    let after_display = upper_id + hash + after_id;
    assert(ascii_upper(rest) =~= "DISPLAY"@ + hash + after_display);
    assert(!"DISPLAY"@.contains('#'));
    assert(!upper_id.contains('#')) by {
        if upper_id.contains('#') {
            let i = choose|i: int| 0 <= i < upper_id.len() && upper_id[i] == '#';
            assert(hardware_id[i] == '#');
        }
    }
    assert(!upper_instance.contains('#')) by {
        if upper_instance.contains('#') {
            let i = choose|i: int| 0 <= i < upper_instance.len() && upper_instance[i] == '#';
            assert(instance[i] == '#');
        }
    }
    fields_of_joined_texts("DISPLAY"@, after_display, '#');
    fields_of_joined_texts(upper_id, after_id, '#');
    fields_of_joined_texts(upper_instance, upper_tail, '#');
    text_without_separator_is_one_field("DISPLAY"@, '#');
    text_without_separator_is_one_field(upper_id, '#');
    text_without_separator_is_one_field(upper_instance, '#');
    let parts = path_parts(path);
    assert(parts[0] == "DISPLAY"@);
    assert(parts[1] == upper_id);
    assert(parts[2] == upper_instance);
}

/// The WMI instance name and the device path of one display, which Windows writes alike but for
/// the separators, the final `_0` and the case of letters, have the same key: by it the EDID texts
/// of a display are found.
pub proof fn instance_name_and_device_path_agree(
    hardware_id: Seq<char>,
    instance: Seq<char>,
    tail: Seq<char>,
    name: Seq<char>,
)
    requires
        !hardware_id.contains('#'),
        !instance.contains('#'),
        ascii_upper(name) == ascii_upper(
            "DISPLAY\\"@ + hardware_id + "\\"@ + instance + "_0"@,
        ),
    ensures
        ({
            let path = "\\\\?\\"@ + "DISPLAY#"@ + hardware_id + "#"@ + instance + "#"@ + tail;
            &&& is_display_path(path) <==> utf8_len(ascii_upper(hardware_id)) >= 4
            &&& wmi_key(name) == path_identity(path).wmi_instance_key
        }),
{
    reveal_strlit("DISPLAY\\");
    reveal_strlit("\\");
    reveal_strlit("_0");
    lemma_display_parts(hardware_id, instance, tail);
    let upper_id = ascii_upper(hardware_id);
    let upper_instance = ascii_upper(instance);
    let plain = "DISPLAY\\"@ + hardware_id + "\\"@ + instance;
    lemma_upper_joined(plain, "_0"@);
    let count = name.len() as int;
    let upper_name = ascii_upper(name);
    assert(upper_name.len() == count);
    assert(upper_name == ascii_upper(plain) + ascii_upper("_0"@));
    assert(upper_name[count - 2] == '_');
    assert(upper_name[count - 1] == '0');
    assert(name[count - 2] == '_');
    assert(name[count - 1] == '0');
    assert(ascii_upper(name.take(count - 2)) =~= upper_name.take(count - 2));
    assert(upper_name.take(count - 2) =~= ascii_upper(plain));
    assert(ascii_upper(plain) =~= "DISPLAY\\"@ + upper_id + "\\"@ + upper_instance);
}

/// The text in an EDID field: the characters before the first zero, trimmed.
pub open spec fn edid_text(units: Seq<u16>) -> Seq<char> {
    trim(scalar_units(before_zero(units)))
}

/// The text in an EDID field that may be blank.
pub open spec fn optional_edid_text(units: Seq<u16>) -> Option<Seq<char>> {
    if edid_text(units).len() == 0 {
        None
    } else {
        Some(edid_text(units))
    }
}

/// Reads the text in an EDID field; `None` if it is blank.
pub fn decode_edid_text(values: &[u16]) -> (text: Option<String>)
    ensures
        crate::domain::optional_text(text) == optional_edid_text(values@),
{
    let text = trimmed(&scalar_chars(&until_zero(values)));
    if text.len() == 0 {
        None
    } else {
        Some(string_of(&text))
    }
}

/// The text before the first zero of a UTF-16 buffer.
pub open spec fn wide_text(units: Seq<u16>) -> Seq<char> {
    utf16_lossy(before_zero(units))
}

/// Reads the text before the first zero of a UTF-16 buffer.
pub fn wide_string(values: &[u16]) -> (text: String)
    ensures
        text@ == wide_text(values@),
{
    string_of(&decode_utf16(&until_zero(values)))
}

/// Reads a device path from its buffer. An empty path identifies no display.
pub fn device_path_from(values: &[u16]) -> (device_path: Result<String, DisplayMuxError>)
    ensures
        match device_path {
            Ok(device_path) => device_path@ == wide_text(values@) && device_path@.len() > 0,
            Err(error) => wide_text(values@).len() == 0 && error@ == ErrorView::Backend(
                "Windows 未提供螢幕裝置路徑；為避免誤控，已停止操作"@,
            ),
        },
{
    let device_path = wide_string(values);
    if device_path.as_str().is_empty() {
        Err(
            DisplayMuxError::Backend(
                "Windows 未提供螢幕裝置路徑；為避免誤控，已停止操作".to_owned(),
            ),
        )
    } else {
        Ok(device_path)
    }
}

/// A failed action, with the reason that was reported.
pub fn backend_error(action: &str, error: &str) -> (failure: DisplayMuxError)
    ensures
        failure@ == ErrorView::Backend(action@ + "："@ + error@),
{
    DisplayMuxError::Backend(join3(action, "：", error))
}

/// A failed call of Windows, with the text of its last error.
pub fn last_windows_error(action: &str, last_os_error: &str) -> (failure: DisplayMuxError)
    ensures
        failure@ == ErrorView::Backend(action@ + "："@ + last_os_error@),
{
    backend_error(action, last_os_error)
}

// ---------------------------------------------------------------------------
// Enumeration

/// The WMI record of a display: the last one whose instance name has the key.
pub open spec fn wmi_record(records: Seq<WmiMonitorId>, key: Seq<char>) -> Option<WmiMonitorId>
    decreases records.len(),
{
    if records.len() == 0 {
        None
    } else if wmi_key(records.last().instance_name@) == key {
        Some(records.last())
    } else {
        wmi_record(records.drop_last(), key)
    }
}

/// Finds the WMI record of a display.
fn find_wmi_record<'a>(records: &'a Vec<WmiMonitorId>, key: &String) -> (record: Option<
    &'a WmiMonitorId,
>)
    ensures
        match record {
            Some(record) => wmi_record(records@, key@) == Some(*record),
            None => wmi_record(records@, key@) is None,
        },
{
    let mut remaining: usize = records.len();
    assert(records@.take(remaining as int) == records@);
    while remaining > 0
        invariant
            remaining <= records@.len(),
            wmi_record(records@.take(remaining as int), key@) == wmi_record(records@, key@),
        decreases remaining,
    {
        assert(records@.take(remaining as int).drop_last() == records@.take(remaining - 1));
        if normalize_wmi_instance(records[remaining - 1].instance_name.as_str()) == *key {
            return Some(&records[remaining - 1]);
        }
        remaining -= 1;
    }
    None
}

/// The id of physical display number `index` behind a device path.
pub open spec fn physical_id(device_path: Seq<char>, index: nat) -> Seq<char> {
    ascii_upper(device_path) + "::physical:"@ + decimal(index)
}

/// How physical display number `index` behind a device path is described.
pub open spec fn physical_view(
    device_path: Seq<char>,
    record: WmiMonitorId,
    description: Seq<u16>,
    index: nat,
) -> DescriptorView {
    DescriptorView {
        id: physical_id(device_path, index),
        name: match optional_edid_text(record.user_friendly_name@) {
            Some(name) => name,
            None => wide_text(description),
        },
        fingerprint: FingerprintView {
            manufacturer_id: path_identity(device_path).manufacturer_id,
            product_code: path_identity(device_path).product_code,
            serial_number: optional_edid_text(record.serial_number_id@),
        },
        active: record.active,
        built_in: false,
        max_resolution: None,
        resolution_source: None,
    }
}

/// The physical displays behind one logical display, or what is wrong with it. A display
/// whose EDID is not known stops the enumeration.
pub open spec fn logical_views(records: Seq<WmiMonitorId>, logical: LogicalMonitor) -> Result<
    Seq<DescriptorView>,
    ErrorView,
> {
    match logical.device_path {
        Err(error) => Err(error@),
        Ok(device_path) => if !is_display_path(device_path@) {
            Err(unknown_path(device_path@))
        } else {
            match wmi_record(records, path_identity(device_path@).wmi_instance_key) {
                None => Err(
                    ErrorView::Backend(
                        "無法取得 "@ + device_path@
                            + " 的 EDID 序號；為避免誤控，已停止列舉"@,
                    ),
                ),
                Some(record) => match logical.physical {
                    Err(error) => Err(error@),
                    Ok(descriptions) => Ok(
                        Seq::new(
                            descriptions@.len(),
                            |i: int|
                                physical_view(device_path@, record, descriptions@[i]@, i as nat),
                        ),
                    ),
                },
            }
        },
    }
}

/// The physical displays behind all logical displays in order, or the first thing wrong.
pub open spec fn native_views(records: Seq<WmiMonitorId>, logical: Seq<LogicalMonitor>) -> Result<
    Seq<DescriptorView>,
    ErrorView,
>
    decreases logical.len(),
{
    if logical.len() == 0 {
        Ok(Seq::empty())
    } else {
        match native_views(records, logical.drop_last()) {
            Err(error) => Err(error),
            Ok(before) => match logical_views(records, logical.last()) {
                Err(error) => Err(error),
                Ok(more) => Ok(before + more),
            },
        }
    }
}

/// Whether every device path that is looked at can be cut. Those behind the first failure are not
/// looked at.
pub open spec fn reached_paths_cuttable(
    records: Seq<WmiMonitorId>,
    logical: Seq<LogicalMonitor>,
) -> bool {
    forall|i: int|
        0 <= i < logical.len() && native_views(records, #[trigger] logical.take(i)) is Ok ==> (
        logical[i].device_path matches Ok(device_path) ==> is_cuttable(device_path@))
}

fn physical_descriptor(
    device_path: &str,
    identity: &DeviceIdentity,
    record: &WmiMonitorId,
    description: &Vec<u16>,
    index: usize,
) -> (monitor: MonitorDescriptor)
    requires
        identity@ == path_identity(device_path@),
    ensures
        monitor@ == physical_view(device_path@, *record, description@, index as nat),
{
    let name = match decode_edid_text(&record.user_friendly_name) {
        Some(name) => name,
        None => wide_string(description),
    };
    let upper_path = string_of(&to_ascii_upper(&chars_of(device_path)));
    let id = join3(upper_path.as_str(), "::physical:", decimal_string(index as u128).as_str());
    MonitorDescriptor {
        id: MonitorId::new(id.as_str()),
        name,
        fingerprint: MonitorFingerprint::new(
            identity.manufacturer_id.as_str(),
            identity.product_code.as_str(),
            decode_edid_text(&record.serial_number_id),
        ),
        active: record.active,
        built_in: false,
        max_resolution: None,
        resolution_source: None,
    }
}

/// Describes the physical displays of the computer, in the order of the logical displays and,
/// within each, of the physical ones behind it.
pub fn enumerate_native(records: &Vec<WmiMonitorId>, logical: &Vec<LogicalMonitor>) -> (monitors:
    Result<Vec<MonitorDescriptor>, DisplayMuxError>)
    requires
        reached_paths_cuttable(records@, logical@),
    ensures
        match monitors {
            Ok(monitors) => native_views(records@, logical@) == Ok::<_, ErrorView>(
                descriptor_views(monitors@),
            ),
            Err(error) => native_views(records@, logical@) == Err::<Seq<DescriptorView>, _>(
                error@,
            ),
        },
{
    let mut monitors: Vec<MonitorDescriptor> = Vec::new();
    let mut i: usize = 0;
    proof {
        assert(logical@.take(0).len() == 0);
        assert(descriptor_views(monitors@) == Seq::<DescriptorView>::empty());
    }
    while i < logical.len()
        invariant
            i <= logical@.len(),
            reached_paths_cuttable(records@, logical@),
            native_views(records@, logical@.take(i as int)) == Ok::<_, ErrorView>(
                descriptor_views(monitors@),
            ),
        decreases logical@.len() - i,
    {
        let ghost before = descriptor_views(monitors@);
        let entry = &logical[i];
        proof {
            assert(logical@.take(i + 1).drop_last() == logical@.take(i as int));
            assert(logical@.take(i + 1).last() == *entry);
            lemma_first_failure(records@, logical@, i + 1);
        }
        let device_path = match &entry.device_path {
            Ok(device_path) => device_path,
            Err(error) => return Err(error.clone()),
        };
        let identity = match parse_device_path(device_path.as_str()) {
            Ok(identity) => identity,
            Err(error) => return Err(error),
        };
        let record = match find_wmi_record(records, &identity.wmi_instance_key) {
            Some(record) => record,
            None => return Err(
                DisplayMuxError::Backend(
                    join3(
                        "無法取得 ",
                        device_path.as_str(),
                        " 的 EDID 序號；為避免誤控，已停止列舉",
                    ),
                ),
            ),
        };
        let descriptions = match &entry.physical {
            Ok(descriptions) => descriptions,
            Err(error) => return Err(error.clone()),
        };
        let ghost added = Seq::new(
            descriptions@.len(),
            |k: int| physical_view(device_path@, *record, descriptions@[k]@, k as nat),
        );
        assert(logical_views(records@, *entry) == Ok::<_, ErrorView>(added));
        let mut index: usize = 0;
        assert(before + added.take(0) == before);
        while index < descriptions.len()
            invariant
                index <= descriptions@.len(),
                identity@ == path_identity(device_path@),
                added == Seq::new(
                    descriptions@.len(),
                    |k: int| physical_view(device_path@, *record, descriptions@[k]@, k as nat),
                ),
                descriptor_views(monitors@) == before + added.take(index as int),
            decreases descriptions@.len() - index,
        {
            let ghost so_far = descriptor_views(monitors@);
            let monitor = physical_descriptor(
                device_path.as_str(),
                &identity,
                record,
                &descriptions[index],
                index,
            );
            let ghost described = monitor@;
            monitors.push(monitor);
            assert(descriptor_views(monitors@) == so_far.push(described));
            assert(added.take(index + 1) == added.take(index as int).push(added[index as int]));
            index += 1;
        }
        assert(added.take(index as int) == added);
        i += 1;
    }
    assert(logical@.take(i as int) == logical@);
    Ok(monitors)
}

/// What is wrong with the first displays is wrong with all of them.
pub proof fn lemma_first_failure(records: Seq<WmiMonitorId>, logical: Seq<LogicalMonitor>, count: int)
    requires
        0 <= count <= logical.len(),
    ensures
        native_views(records, logical.take(count)) is Err ==> native_views(records, logical)
            == native_views(records, logical.take(count)),
    decreases logical.len() - count,
{
    if count < logical.len() {
        assert(logical.take(count + 1).drop_last() == logical.take(count));
        lemma_first_failure(records, logical, count + 1);
    } else {
        assert(logical.take(count) == logical);
    }
}

/// What reading the input of a display gave: whether Windows succeeded, the value of the VCP
/// feature, and otherwise the text of the last error of Windows.
pub fn read_reply(succeeded: bool, current: u32, last_os_error: &str) -> (read: Result<
    DisplayInput,
    DisplayMuxError,
>)
    ensures
        match read {
            Ok(input) => succeeded && is_input_code(current) && input.code == current,
            Err(error) => if succeeded {
                !is_input_code(current) && error@ == ErrorView::InvalidInput(current)
            } else {
                error@ == ErrorView::Backend(
                    "無法讀取共用螢幕目前的輸入來源："@ + last_os_error@,
                )
            },
        },
{
    if !succeeded {
        let failure = last_windows_error("無法讀取共用螢幕目前的輸入來源", last_os_error);
        proof {
            reveal_strlit("無法讀取共用螢幕目前的輸入來源");
            reveal_strlit("：");
            reveal_strlit("無法讀取共用螢幕目前的輸入來源：");
            assert("無法讀取共用螢幕目前的輸入來源"@ + "："@
                =~= "無法讀取共用螢幕目前的輸入來源："@);
        }
        return Err(failure);
    }
    DisplayInput::new(current)
}

/// What writing the input of a display gave.
pub fn write_reply(succeeded: bool, last_os_error: &str) -> (written: Result<(), DisplayMuxError>)
    ensures
        match written {
            Ok(()) => succeeded,
            Err(error) => !succeeded && error@ == ErrorView::Backend(
                "無法切換共用螢幕輸入來源："@ + last_os_error@,
            ),
        },
{
    if !succeeded {
        let failure = last_windows_error("無法切換共用螢幕輸入來源", last_os_error);
        proof {
            reveal_strlit("無法切換共用螢幕輸入來源");
            reveal_strlit("：");
            reveal_strlit("無法切換共用螢幕輸入來源：");
            assert("無法切換共用螢幕輸入來源"@ + "："@ =~= "無法切換共用螢幕輸入來源："@);
        }
        return Err(failure);
    }
    Ok(())
}

/// No two physical displays have the same id: displays with one id are behind the same device
/// path, up to the case of its letters, and have the same number there.
pub proof fn physical_ids_are_distinct(path_a: Seq<char>, a: nat, path_b: Seq<char>, b: nat)
    requires
        physical_id(path_a, a) == physical_id(path_b, b),
    ensures
        ascii_upper(path_a) == ascii_upper(path_b),
        a == b,
{
    reveal_strlit("::physical:");
    decimal_holds_digits_only(a);
    decimal_holds_digits_only(b);
    let id_a = physical_id(path_a, a);
    let id_b = physical_id(path_b, b);
    let colon_a: int = ascii_upper(path_a).len() + 10int;
    let colon_b: int = ascii_upper(path_b).len() + 10int;
    assert("::physical:"@.len() == 11);
    assert(id_a.len() == colon_a + 1 + decimal(a).len());
    assert(id_b.len() == colon_b + 1 + decimal(b).len());
    assert(id_a[colon_a] == ':');
    assert(id_b[colon_b] == ':');
    if colon_a < colon_b {
        assert(id_a[colon_b] == decimal(a)[colon_b - colon_a - 1]);
    } else if colon_b < colon_a {
        assert(id_b[colon_a] == decimal(b)[colon_a - colon_b - 1]);
    }
    assert(id_a.skip(colon_a + 1) == decimal(a));
    assert(id_b.skip(colon_a + 1) == decimal(b));
    decimal_is_injective(a, b);
    assert(id_a.take(colon_a - 10) == ascii_upper(path_a));
    assert(id_b.take(colon_a - 10) == ascii_upper(path_b));
}

} // verus!
