//! Laws of displays as Windows reports them.

use crate::domain::{descriptor_views, optional_text, DisplayInput, MonitorDescriptor};
use crate::error::DisplayMuxError;
use crate::text::{
    ascii_upper, before_zero, decimal, is_white_space, scalar_units, trim, trim_end, trim_start,
    utf16_lossy,
};
use crate::windows::{
    decode_edid_text, device_path_from, enumerate_native, instance_name_and_device_path_agree,
    lemma_first_failure, lemma_one_cut, logical_views, native_views, normalize_wmi_instance,
    parse_device_path, path_identity, path_parts, read_reply, three_bytes, utf8_len, wide_string,
    wmi_key, wmi_record, write_reply, DeviceIdentity, LogicalMonitor, WmiMonitorId,
};
use vstd::prelude::*;

verus! {

// ---------------------------------------------------------------------------
// Texts

/// Whether a buffer holds the characters of a text, one unit each, up to its end or to a zero.
pub open spec fn spells(units: Seq<u16>, text: Seq<char>) -> bool {
    &&& text.len() <= units.len()
    &&& forall|i: int|
        0 <= i < text.len() ==> (#[trigger] units[i]) as u32 == text[i] as u32 && units[i] != 0
    &&& text.len() < units.len() ==> units[text.len() as int] == 0
}

/// Whether a text holds nothing but white space.
pub open spec fn is_blank_text(text: Seq<char>) -> bool {
    forall|i: int| 0 <= i < text.len() ==> is_white_space(#[trigger] text[i])
}

/// Whether a text begins and ends with a character that is no white space.
pub open spec fn is_bounded(text: Seq<char>) -> bool {
    text.len() > 0 && !is_white_space(text[0]) && !is_white_space(text.last())
}

proof fn lemma_before_zero(units: Seq<u16>, count: int)
    requires
        0 <= count <= units.len(),
        forall|i: int| 0 <= i < count ==> (#[trigger] units[i]) != 0,
        count < units.len() ==> units[count] == 0,
    ensures
        before_zero(units) == units.take(count),
    decreases count,
{
    if count > 0 {
        let rest = units.skip(1);
        assert forall|i: int| 0 <= i < count - 1 implies (#[trigger] rest[i]) != 0 by {
            assert(rest[i] == units[i + 1]);
        }
        lemma_before_zero(rest, count - 1);
        assert(seq![units[0]] + rest.take(count - 1) =~= units.take(count));
    } else {
        assert(units.take(0) =~= Seq::<u16>::empty());
    }
}

proof fn lemma_spelled(units: Seq<u16>, text: Seq<char>)
    requires
        units.len() == text.len(),
        forall|i: int| 0 <= i < text.len() ==> (#[trigger] units[i]) as u32 == text[i] as u32,
    ensures
        scalar_units(units) == text,
        utf16_lossy(units) == text,
    decreases units.len(),
{
    if units.len() > 0 {
        let rest = units.skip(1);
        let rest_text = text.skip(1);
        assert forall|i: int| 0 <= i < rest_text.len() implies (#[trigger] rest[i]) as u32
            == rest_text[i] as u32 by {
            assert(rest[i] == units[i + 1]);
        }
        lemma_spelled(rest, rest_text);
        assert(units[0] as u32 == text[0] as u32);
        vstd::utf8::char_u32_cast(text[0], units[0] as u32);
        assert(seq![text[0]] + rest_text =~= text);
    } else {
        assert(text =~= Seq::<char>::empty());
    }
}

/// Trimming takes the white space around a text.
pub proof fn lemma_trimmed(before: Seq<char>, inner: Seq<char>, after: Seq<char>)
    requires
        is_blank_text(before),
        is_blank_text(after),
        inner.len() == 0 || is_bounded(inner),
    ensures
        trim(before + inner + after) == inner,
    decreases before.len() + after.len(),
{
    let text = before + inner + after;
    if before.len() > 0 {
        let rest = before.skip(1);
        assert forall|i: int| 0 <= i < rest.len() implies is_white_space(#[trigger] rest[i]) by {
            assert(rest[i] == before[i + 1]);
        }
        lemma_trimmed(rest, inner, after);
        assert(is_white_space(before[0]));
        assert(text[0] == before[0]);
        assert(text.skip(1) =~= rest + inner + after);
        assert(trim_start(text) == trim_start(text.skip(1)));
    } else if inner.len() == 0 {
        assert(text =~= after);
        lemma_blank_is_trimmed(after);
        assert(inner =~= Seq::<char>::empty());
    } else {
        assert(text[0] == inner[0]);
        assert(trim_start(text) == text);
        lemma_trimmed_end(inner, after);
        assert(text =~= inner + after);
    }
}

proof fn lemma_blank_is_trimmed(text: Seq<char>)
    requires
        is_blank_text(text),
    ensures
        trim(text) == Seq::<char>::empty(),
    decreases text.len(),
{
    if text.len() > 0 {
        let rest = text.skip(1);
        assert(is_white_space(text[0]));
        assert forall|i: int| 0 <= i < rest.len() implies is_white_space(#[trigger] rest[i]) by {
            assert(rest[i] == text[i + 1]);
        }
        lemma_blank_is_trimmed(rest);
    } else {
        assert(text =~= Seq::<char>::empty());
    }
}

proof fn lemma_trimmed_end(inner: Seq<char>, after: Seq<char>)
    requires
        is_blank_text(after),
        is_bounded(inner),
    ensures
        trim_end(inner + after) == inner,
    decreases after.len(),
{
    let text = inner + after;
    if after.len() > 0 {
        let rest = after.drop_last();
        assert forall|i: int| 0 <= i < rest.len() implies is_white_space(#[trigger] rest[i]) by {
            assert(rest[i] == after[i]);
        }
        lemma_trimmed_end(inner, rest);
        assert(is_white_space(after[after.len() - 1]));
        assert(text.last() == after.last());
        assert(text.drop_last() =~= inner + rest);
    } else {
        assert(text =~= inner);
    }
}

/// The text in an EDID field is all of the characters before the first zero, without the white
/// space around them; a field that is blank holds none.
pub proof fn whole_edid_text_is_read(
    values: &[u16],
    before: Seq<char>,
    inner: Seq<char>,
    after: Seq<char>,
    text: Option<String>,
)
    requires
        call_ensures(decode_edid_text, (values,), text),
        is_blank_text(before),
        is_blank_text(after),
        inner.len() == 0 || is_bounded(inner),
        spells(values@, before + inner + after),
    ensures
        if inner.len() == 0 {
            text is None
        } else {
            text matches Some(text) && text@ == inner
        },
{
    let whole = before + inner + after;
    let count = whole.len() as int;
    lemma_before_zero(values@, count);
    lemma_spelled(values@.take(count), whole);
    lemma_trimmed(before, inner, after);
    assert(optional_text(text) == crate::windows::optional_edid_text(values@));
}

/// Different texts in an EDID field stay different.
pub proof fn edid_texts_are_told_apart(
    a: &[u16],
    b: &[u16],
    text_a: Seq<char>,
    text_b: Seq<char>,
    read_a: Option<String>,
    read_b: Option<String>,
)
    requires
        call_ensures(decode_edid_text, (a,), read_a),
        call_ensures(decode_edid_text, (b,), read_b),
        is_bounded(text_a),
        is_bounded(text_b),
        spells(a@, text_a),
        spells(b@, text_b),
        optional_text(read_a) == optional_text(read_b),
    ensures
        text_a == text_b,
{
    let none = Seq::<char>::empty();
    assert(none + text_a + none =~= text_a);
    assert(none + text_b + none =~= text_b);
    whole_edid_text_is_read(a, none, text_a, none, read_a);
    whole_edid_text_is_read(b, none, text_b, none, read_b);
}

/// The UTF-16 units of a character: one, or a surrogate pair for a character above `0xffff`.
pub open spec fn utf16_units(c: char) -> Seq<u16> {
    let code = c as u32;
    if code < 0x10000 {
        seq![code as u16]
    } else {
        seq![
            (0xd800 + (code - 0x10000) / 0x400) as u16,
            (0xdc00 + (code - 0x10000) % 0x400) as u16,
        ]
    }
}

/// The UTF-16 units of a text.
pub open spec fn utf16_text(text: Seq<char>) -> Seq<u16>
    decreases text.len(),
{
    if text.len() == 0 {
        Seq::empty()
    } else {
        utf16_units(text[0]) + utf16_text(text.skip(1))
    }
}

proof fn lemma_utf16(text: Seq<char>)
    requires
        !text.contains('\0'),
    ensures
        utf16_lossy(utf16_text(text)) == text,
        forall|i: int| 0 <= i < utf16_text(text).len() ==> (#[trigger] utf16_text(text)[i]) != 0,
    decreases text.len(),
{
    if text.len() > 0 {
        let c = text[0];
        let code = c as u32;
        let rest = text.skip(1);
        let units = utf16_text(text);
        let first = utf16_units(c);
        let more = utf16_text(rest);
        assert(!rest.contains('\0')) by {
            if rest.contains('\0') {
                let i = choose|i: int| 0 <= i < rest.len() && rest[i] == '\0';
                assert(text[i + 1] == '\0');
            }
        }
        lemma_utf16(rest);
        assert(text[0] != '\0');
        assert(code != 0) by {
            if code == 0 {
                vstd::utf8::char_u32_cast(c, 0);
                vstd::utf8::char_u32_cast('\0', 0);
            }
        }
        vstd::utf8::char_is_scalar(c);
        assert(code <= 0x10ffff);
        assert(units.skip(first.len() as int) =~= more);
        if code < 0x10000 {
            vstd::utf8::char_u32_cast(c, units[0] as u32);
            assert(utf16_lossy(units) == seq![c] + utf16_lossy(more));
        } else {
            let high = units[0];
            let low = units[1];
            assert(high == 0xd800 + (code - 0x10000) / 0x400);
            assert(low == 0xdc00 + (code - 0x10000) % 0x400);
            assert(0x10000 + (high - 0xd800) * 0x400 + (low - 0xdc00) == code);
            vstd::utf8::char_u32_cast(c, code);
            assert(crate::text::pair_char(high, low) == c);
            assert(utf16_lossy(units) == seq![c] + utf16_lossy(more));
        }
        assert(seq![c] + rest =~= text);
        assert forall|i: int| 0 <= i < units.len() implies (#[trigger] units[i]) != 0 by {
            if i >= first.len() {
                assert(units[i] == more[i - first.len()]);
            } else {
                assert(units[i] == first[i]);
            }
        }
    } else {
        assert(text =~= Seq::<char>::empty());
    }
}

/// A text that was written as UTF-16 units, with or without a zero behind it, is read back.
pub proof fn wide_text_is_read_back(values: &[u16], text: Seq<char>, read: String)
    requires
        call_ensures(wide_string, (values,), read),
        !text.contains('\0'),
        utf16_text(text).len() <= values@.len(),
        values@.take(utf16_text(text).len() as int) == utf16_text(text),
        utf16_text(text).len() < values@.len() ==> values@[utf16_text(text).len() as int] == 0,
    ensures
        read@ == text,
{
    let units = utf16_text(text);
    lemma_utf16(text);
    assert forall|i: int| 0 <= i < units.len() implies (#[trigger] values@[i]) != 0 by {
        assert(values@[i] == values@.take(units.len() as int)[i]);
        assert(units[i] != 0);
    }
    lemma_before_zero(values@, units.len() as int);
}

// ---------------------------------------------------------------------------
// Paths and names

/// A WMI instance name with `_0` at its end has the key of what stands before, any other its own;
/// the case of letters does not matter.
pub proof fn instance_key_leaves_out_the_suffix(
    name: &str,
    plain: &str,
    with_suffix: Seq<char>,
    key: String,
    plain_key: String,
)
    requires
        call_ensures(normalize_wmi_instance, (name,), key),
        call_ensures(normalize_wmi_instance, (plain,), plain_key),
        plain@.len() < 2 || plain@[plain@.len() - 2] != '_' || plain@.last() != '0',
        with_suffix == plain@ + "_0"@,
        ascii_upper(name@) == ascii_upper(with_suffix) || ascii_upper(name@) == ascii_upper(plain@),
    ensures
        key@ == plain_key@,
        key@ == ascii_upper(plain@),
{
    reveal_strlit("_0");
    let upper = ascii_upper(name@);
    let count = name@.len() as int;
    assert(upper.len() == count);
    if upper == ascii_upper(with_suffix) {
        assert(with_suffix[count - 2] == '_');
        assert(with_suffix[count - 1] == '0');
        assert(upper[count - 2] == '_');
        assert(upper[count - 1] == '0');
        assert(name@[count - 2] == '_');
        assert(name@[count - 1] == '0');
        assert(ascii_upper(name@.take(count - 2)) =~= upper.take(count - 2));
        assert(upper.take(count - 2) =~= ascii_upper(plain@));
    } else {
        if count >= 2 && name@[count - 2] == '_' && name@.last() == '0' {
            assert(upper[count - 2] == '_');
            assert(upper[count - 1] == '0');
            assert(ascii_upper(plain@)[count - 2] == '_');
            assert(plain@[count - 2] == '_');
            assert(plain@[count - 1] == '0');
        }
    }
}

/// Whether a text is made of ASCII characters.
pub open spec fn is_ascii_text(text: Seq<char>) -> bool {
    forall|i: int| 0 <= i < text.len() ==> (#[trigger] text[i] as u32) < 0x80
}

proof fn lemma_ascii_len(text: Seq<char>)
    requires
        is_ascii_text(text),
    ensures
        utf8_len(text) == text.len(),
    decreases text.len(),
{
    if text.len() > 0 {
        let rest = text.drop_last();
        assert forall|i: int| 0 <= i < rest.len() implies (#[trigger] rest[i] as u32) < 0x80 by {
            assert(rest[i] == text[i]);
        }
        lemma_ascii_len(rest);
        assert((text[text.len() - 1] as u32) < 0x80);
    }
}

/// The device path of a display whose hardware id has at least four characters names, in upper
/// case, the manufacturer by the first three of them and the product by all the others. By its key
/// the WMI instance name of the same display is found. A shorter hardware id is none.
pub proof fn device_path_names_its_display(
    path: &str,
    name: &str,
    hardware_id: Seq<char>,
    instance: Seq<char>,
    tail: Seq<char>,
    identity: Result<DeviceIdentity, DisplayMuxError>,
    key: String,
)
    requires
        call_ensures(parse_device_path, (path,), identity),
        call_ensures(normalize_wmi_instance, (name,), key),
        is_ascii_text(hardware_id),
        !hardware_id.contains('#'),
        !instance.contains('#'),
        path@ == "\\\\?\\"@ + "DISPLAY#"@ + hardware_id + "#"@ + instance + "#"@ + tail,
        ascii_upper(name@) == ascii_upper(
            "DISPLAY\\"@ + hardware_id + "\\"@ + instance + "_0"@,
        ),
    ensures
        identity is Ok <==> hardware_id.len() >= 4,
        identity matches Ok(identity) ==> {
            &&& identity.manufacturer_id@ == ascii_upper(hardware_id.take(3))
            &&& identity.product_code@ == ascii_upper(hardware_id.skip(3))
            &&& identity.wmi_instance_key@ == key@
        },
{
    let upper_id = ascii_upper(hardware_id);
    assert forall|i: int| 0 <= i < upper_id.len() implies (#[trigger] upper_id[i] as u32) < 0x80 by {
        assert((hardware_id[i] as u32) < 0x80);
    }
    lemma_ascii_len(upper_id);
    instance_name_and_device_path_agree(hardware_id, instance, tail, name@);
    lemma_hardware_part(hardware_id, instance, tail);
    if hardware_id.len() >= 4 {
        let head = upper_id.take(3);
        assert forall|i: int| 0 <= i < head.len() implies (#[trigger] head[i] as u32) < 0x80 by {
            assert(head[i] == upper_id[i]);
        }
        lemma_ascii_len(head);
        assert(three_bytes(upper_id, 3));
        let count = choose|count: int| #[trigger] three_bytes(path_parts(path@)[1], count);
        lemma_one_cut(upper_id, count, 3);
        assert(upper_id.take(3) =~= ascii_upper(hardware_id.take(3)));
        assert(upper_id.skip(3) =~= ascii_upper(hardware_id.skip(3)));
    }
}

proof fn lemma_hardware_part(hardware_id: Seq<char>, instance: Seq<char>, tail: Seq<char>)
    requires
        !hardware_id.contains('#'),
        !instance.contains('#'),
    ensures
        path_parts(
            "\\\\?\\"@ + "DISPLAY#"@ + hardware_id + "#"@ + instance + "#"@ + tail,
        )[1] == ascii_upper(hardware_id),
{
    crate::windows::lemma_display_parts(hardware_id, instance, tail);
}

// ---------------------------------------------------------------------------
// Enumeration

/// How many physical displays Windows gave for some logical ones.
pub open spec fn physical_count(logical: Seq<LogicalMonitor>) -> nat
    decreases logical.len(),
{
    if logical.len() == 0 {
        0
    } else {
        physical_count(logical.drop_last()) + match logical.last().physical {
            Ok(physical) => physical@.len(),
            Err(_) => 0,
        }
    }
}

/// Whether the record at `position` is the one of a display: its instance name has the key, and no
/// later one has.
pub open spec fn is_last_record(records: Seq<WmiMonitorId>, key: Seq<char>, position: int) -> bool {
    &&& 0 <= position < records.len()
    &&& wmi_key(records[position].instance_name@) == key
    &&& forall|i: int|
        position < i < records.len() ==> wmi_key((#[trigger] records[i]).instance_name@) != key
}

proof fn lemma_last_record(records: Seq<WmiMonitorId>, key: Seq<char>, position: int)
    requires
        is_last_record(records, key, position),
    ensures
        wmi_record(records, key) == Some(records[position]),
    decreases records.len(),
{
    let last = records.len() - 1;
    if position < last {
        assert(wmi_key(records[last].instance_name@) != key);
        let rest = records.drop_last();
        assert forall|i: int| position < i < rest.len() implies wmi_key(
            (#[trigger] rest[i]).instance_name@,
        ) != key by {
            assert(rest[i] == records[i]);
        }
        lemma_last_record(rest, key, position);
    }
}

proof fn lemma_native_views(records: Seq<WmiMonitorId>, logical: Seq<LogicalMonitor>, i: int, j: int)
    requires
        native_views(records, logical) is Ok,
        0 <= i < logical.len(),
        logical[i].physical matches Ok(physical) && 0 <= j < physical@.len(),
    ensures
        native_views(records, logical)->Ok_0.len() == physical_count(logical),
        logical_views(records, logical[i]) is Ok,
        physical_count(logical.take(i)) + j < physical_count(logical),
        native_views(records, logical)->Ok_0[physical_count(logical.take(i)) + j]
            == logical_views(records, logical[i])->Ok_0[j],
    decreases logical.len(),
{
    let rest = logical.drop_last();
    let last = logical.len() - 1;
    lemma_native_count(records, logical);
    lemma_native_count(records, rest);
    if i < last {
        lemma_native_views(records, rest, i, j);
        assert(rest.take(i) == logical.take(i));
        assert(rest[i] == logical[i]);
    } else {
        assert(logical.take(i) == rest);
    }
}

proof fn lemma_native_count(records: Seq<WmiMonitorId>, logical: Seq<LogicalMonitor>)
    requires
        native_views(records, logical) is Ok,
    ensures
        native_views(records, logical)->Ok_0.len() == physical_count(logical),
    decreases logical.len(),
{
    if logical.len() > 0 {
        lemma_native_count(records, logical.drop_last());
    }
}

/// Every physical display is listed, in the order of the logical ones and then of its own, with the
/// identity of the device path, the serial number and the name of its EDID, and, where that names
/// none, the description that Windows gives. Its id is the device path in upper case and its number.
pub proof fn every_physical_display_is_listed(
    records: Vec<WmiMonitorId>,
    logical: Vec<LogicalMonitor>,
    monitors: Vec<MonitorDescriptor>,
    i: int,
    j: int,
    path: &str,
    identity: DeviceIdentity,
    record: int,
    serial_units: &[u16],
    serial_number: Option<String>,
    name_units: &[u16],
    name: Option<String>,
    description_units: &[u16],
    description: String,
)
    requires
        call_ensures(enumerate_native, (&records, &logical), Ok(monitors)),
        0 <= i < logical@.len(),
        logical@[i].physical matches Ok(physical) && 0 <= j < physical@.len() && physical@[j]@
            == description_units@,
        logical@[i].device_path matches Ok(device_path) && device_path@ == path@,
        call_ensures(parse_device_path, (path,), Ok(identity)),
        is_last_record(records@, identity.wmi_instance_key@, record),
        serial_units@ == records@[record].serial_number_id@,
        call_ensures(decode_edid_text, (serial_units,), serial_number),
        name_units@ == records@[record].user_friendly_name@,
        call_ensures(decode_edid_text, (name_units,), name),
        call_ensures(wide_string, (description_units,), description),
    ensures
        monitors@.len() == physical_count(logical@),
        physical_count(logical@.take(i)) + j < monitors@.len(),
        ({
            let monitor = monitors@[physical_count(logical@.take(i)) + j];
            &&& monitor.id@ == ascii_upper(path@) + "::physical:"@ + decimal(j as nat)
            &&& monitor.fingerprint.manufacturer_id@ == identity.manufacturer_id@
            &&& monitor.fingerprint.product_code@ == identity.product_code@
            &&& optional_text(monitor.fingerprint.serial_number) == optional_text(serial_number)
            &&& monitor.name@ == match name {
                Some(name) => name@,
                None => description@,
            }
            &&& monitor.active == records@[record].active
            &&& !monitor.built_in
        }),
{
    lemma_native_views(records@, logical@, i, j);
    lemma_last_record(records@, identity.wmi_instance_key@, record);
    let views = descriptor_views(monitors@);
    let index = physical_count(logical@.take(i)) + j;
    assert(views[index] == monitors@[index]@);
    assert(identity@ == path_identity(path@));
}

/// The listing stops at the first logical display that something is wrong with, whatever follows:
/// with what Windows reported for its path, with a path of another device, with the want of its
/// EDID, or with what Windows reported for its physical displays, in this order.
pub proof fn first_failure_stops_the_listing(
    records: Vec<WmiMonitorId>,
    before: Vec<LogicalMonitor>,
    logical: Vec<LogicalMonitor>,
    listed_before: Vec<MonitorDescriptor>,
    listed: Result<Vec<MonitorDescriptor>, DisplayMuxError>,
    i: int,
    path: &str,
    identity: Result<DeviceIdentity, DisplayMuxError>,
)
    requires
        call_ensures(enumerate_native, (&records, &before), Ok(listed_before)),
        call_ensures(enumerate_native, (&records, &logical), listed),
        0 <= i < logical@.len(),
        before@ == logical@.take(i),
        logical@[i].device_path matches Ok(device_path) ==> device_path@ == path@,
        call_ensures(parse_device_path, (path,), identity),
    ensures
        match (logical@[i].device_path, identity) {
            (Err(error), _) => listed matches Err(reported) && reported@ == error@,
            (Ok(_), Err(error)) => listed matches Err(reported) && reported@ == error@,
            (Ok(_), Ok(identity)) => {
                &&& (forall|r: int|
                    0 <= r < records@.len() ==> wmi_key((#[trigger] records@[r]).instance_name@)
                        != identity.wmi_instance_key@) ==> listed is Err
                &&& (exists|r: int|
                    #[trigger] is_last_record(records@, identity.wmi_instance_key@, r)) ==> (
                logical@[i].physical matches Err(error) ==> (listed matches Err(reported)
                    && reported@ == error@))
            },
        },
{
    assert(logical@.take(i + 1).drop_last() == logical@.take(i));
    assert(logical@.take(i + 1).last() == logical@[i]);
    lemma_first_failure(records@, logical@, i + 1);
    if let (Ok(_), Ok(identity)) = (logical@[i].device_path, identity) {
        let key = identity.wmi_instance_key@;
        assert(identity@ == path_identity(path@));
        if forall|r: int|
            0 <= r < records@.len() ==> wmi_key((#[trigger] records@[r]).instance_name@) != key {
            lemma_no_record(records@, key);
        }
        if exists|r: int| #[trigger] is_last_record(records@, key, r) {
            let r = choose|r: int| #[trigger] is_last_record(records@, key, r);
            lemma_last_record(records@, key, r);
        }
    }
}

proof fn lemma_no_record(records: Seq<WmiMonitorId>, key: Seq<char>)
    requires
        forall|r: int|
            0 <= r < records.len() ==> wmi_key((#[trigger] records[r]).instance_name@) != key,
    ensures
        wmi_record(records, key) is None,
    decreases records.len(),
{
    if records.len() > 0 {
        let rest = records.drop_last();
        assert forall|r: int| 0 <= r < rest.len() implies wmi_key(
            (#[trigger] rest[r]).instance_name@,
        ) != key by {
            assert(rest[r] == records[r]);
        }
        assert(wmi_key(records[records.len() - 1].instance_name@) != key);
        lemma_no_record(rest, key);
    }
}

/// The input that a display shows is the value that Windows read, if it is one byte and not zero;
/// a failed call is an error, whatever the value.
pub proof fn read_value_is_the_input(
    succeeded: bool,
    current: u32,
    last_os_error: &str,
    read: Result<DisplayInput, DisplayMuxError>,
    written: Result<(), DisplayMuxError>,
)
    requires
        call_ensures(read_reply, (succeeded, current, last_os_error), read),
        call_ensures(write_reply, (succeeded, last_os_error), written),
    ensures
        read is Ok <==> succeeded && 1 <= current <= 255,
        read matches Ok(input) ==> input.code == current,
        written is Ok <==> succeeded,
{
}

/// A device path is what its buffer spells; an empty one is an error.
pub proof fn device_path_is_what_its_buffer_spells(
    values: &[u16],
    text: String,
    device_path: Result<String, DisplayMuxError>,
)
    requires
        call_ensures(wide_string, (values,), text),
        call_ensures(device_path_from, (values,), device_path),
    ensures
        device_path is Ok <==> text@.len() > 0,
        device_path matches Ok(path) ==> path@ == text@,
{
}

} // verus!
