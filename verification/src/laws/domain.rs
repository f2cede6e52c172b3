//! Laws of displays and inputs.

use crate::domain::{
    find_listed, position_of, DisplayInput, MonitorDescriptor, MonitorFingerprint, MonitorId,
};
use crate::error::{DisplayMuxError, ErrorView};
use crate::locale::{localized_input_name, UiLocale};
use crate::text::starts_with;
use vstd::prelude::*;

verus! {

/// A number is an input exactly where it is one byte and not zero, and the input has that value.
pub proof fn input_is_one_byte(
    value: u32,
    input: Result<DisplayInput, DisplayMuxError>,
    made: DisplayInput,
    read: u32,
)
    requires
        call_ensures(DisplayInput::new, (value,), input),
        input == Ok::<_, DisplayMuxError>(made) ==> call_ensures(
            DisplayInput::value,
            (&made,),
            read,
        ),
    ensures
        input is Ok <==> 1 <= value <= 255,
        input == Ok::<_, DisplayMuxError>(made) ==> read == value,
        input matches Err(error) ==> error@ == ErrorView::InvalidInput(value),
{
}

/// The kind of connector that an input value commonly stands for.
pub open spec fn connector(value: u32) -> Seq<char> {
    if value <= 0x02 {
        "VGA"@
    } else if value <= 0x04 {
        "DVI"@
    } else if value <= 0x06 {
        "Composite video"@
    } else if value <= 0x08 {
        "S-Video"@
    } else if value <= 0x0b {
        "Tuner"@
    } else if value <= 0x0e {
        "Component video"@
    } else if value <= 0x10 {
        "DisplayPort"@
    } else {
        "HDMI"@
    }
}

/// The values from 1 to `0x12`, and no others, have a standard name; it begins with the connector
/// and is the English name of the input, except that DisplayPort is shortened to DP.
pub proof fn standard_names_begin_with_the_connector(
    input: DisplayInput,
    name: Option<&'static str>,
    english: String,
)
    requires
        call_ensures(DisplayInput::standard_name, (&input,), name),
        call_ensures(localized_input_name, (UiLocale::English, input), english),
    ensures
        name is Some <==> 1 <= input.code <= 0x12,
        name matches Some(name) ==> {
            &&& starts_with(name@, connector(input.code))
            &&& input.code != 0x0f && input.code != 0x10 ==> english@ == name@
            &&& input.code == 0x0f || input.code == 0x10 ==> starts_with(english@, "DP"@)
                && english@.last() == name@.last()
        },
{
    reveal_strlit("VGA");
    reveal_strlit("DVI");
    reveal_strlit("Composite video");
    reveal_strlit("S-Video");
    reveal_strlit("Tuner");
    reveal_strlit("Component video");
    reveal_strlit("DisplayPort");
    reveal_strlit("HDMI");
    reveal_strlit("DP");
    reveal_strlit("DP 1");
    reveal_strlit("DP 2");
    reveal_strlit("VGA 1");
    reveal_strlit("VGA 2");
    reveal_strlit("DVI 1");
    reveal_strlit("DVI 2");
    reveal_strlit("HDMI 1");
    reveal_strlit("HDMI 2");
    reveal_strlit("S-Video 1");
    reveal_strlit("S-Video 2");
    reveal_strlit("Tuner 1");
    reveal_strlit("Tuner 2");
    reveal_strlit("Tuner 3");
    reveal_strlit("Composite video 1");
    reveal_strlit("Composite video 2");
    reveal_strlit("Component video 1");
    reveal_strlit("Component video 2");
    reveal_strlit("Component video 3");
    reveal_strlit("DisplayPort 1");
    reveal_strlit("DisplayPort 2");
    if let Some(name) = name {
        let kind = connector(input.code);
        assert(name@.take(kind.len() as int) =~= kind);
        if input.code == 0x0f || input.code == 0x10 {
            assert(english@.take(2) =~= "DP"@);
        }
    }
}

/// The first display that is listed under an id is found by it; under an id that none is listed
/// with, none is found, and the error names the id.
pub proof fn first_listed_display_is_found(
    monitors: &[MonitorDescriptor],
    id: MonitorId,
    text: &str,
    found: Result<usize, DisplayMuxError>,
    position: Option<usize>,
    expected: int,
)
    requires
        call_ensures(find_listed, (monitors, &id), found),
        text@ == id@,
        call_ensures(position_of, (monitors, text), position),
    ensures
        (0 <= expected < monitors@.len() && monitors@[expected].id@ == id@ && forall|i: int|
            0 <= i < expected ==> (#[trigger] monitors@[i]).id@ != id@) ==> found == Ok::<
            usize,
            DisplayMuxError,
        >(expected as usize) && position == Some(expected as usize),
        (forall|i: int| 0 <= i < monitors@.len() ==> (#[trigger] monitors@[i]).id@ != id@) ==> (
        found matches Err(error) && error@ == ErrorView::MonitorNoLongerAvailable(id@))
            && position is None,
{
    if 0 <= expected < monitors@.len() && monitors@[expected].id@ == id@ && forall|i: int|
        0 <= i < expected ==> (#[trigger] monitors@[i]).id@ != id@ {
        assert(monitors@[expected].id@ == id@);
        if let Some(index) = position {
            if index < expected {
                assert(monitors@[index as int].id@ != id@);
            }
        }
        if let Ok(index) = found {
            if index < expected {
                assert(monitors@[index as int].id@ != id@);
            }
        }
    }
}

/// Ids and fingerprints are the same exactly where their texts are, and are made of the texts given.
pub proof fn ids_and_fingerprints_keep_their_texts(
    text: &str,
    id: MonitorId,
    read: &str,
    other: MonitorId,
    same: bool,
    manufacturer_id: &str,
    product_code: &str,
    serial_number: Option<String>,
    fingerprint: MonitorFingerprint,
)
    requires
        call_ensures(MonitorId::new, (text,), id),
        call_ensures(MonitorId::as_str, (&id,), read),
        call_ensures(MonitorId::same_as, (&id, &other), same),
        call_ensures(
            MonitorFingerprint::new,
            (manufacturer_id, product_code, serial_number),
            fingerprint,
        ),
    ensures
        read@ == text@,
        same <==> other@ == text@,
        fingerprint.manufacturer_id@ == manufacturer_id@,
        fingerprint.product_code@ == product_code@,
        fingerprint.serial_number == serial_number,
{
}

} // verus!
