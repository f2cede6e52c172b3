//! Displays, their inputs and the hosts that share them.

use crate::error::{DisplayMuxError, ErrorView};
use crate::text::same_text;
use vstd::prelude::*;

verus! {

/// The characters of a text that may be missing.
pub open spec fn optional_text(text: Option<String>) -> Option<Seq<char>> {
    match text {
        Some(value) => Some(value@),
        None => None,
    }
}

/// Copies a text that may be missing.
pub fn copy_text(text: &Option<String>) -> (copy: Option<String>)
    ensures
        copy == *text,
{
    match text {
        Some(value) => Some(value.clone()),
        None => None,
    }
}

/// Whether two texts that may be missing are the same.
pub fn same_optional_text(left: &Option<String>, right: &Option<String>) -> (same: bool)
    ensures
        same == (optional_text(*left) == optional_text(*right)),
{
    match (left, right) {
        (Some(a), Some(b)) => *a == *b,
        (None, None) => true,
        _ => false,
    }
}

// ---------------------------------------------------------------------------
// Inputs

/// A display input: the value of VCP feature `0x60` that selects it.
#[derive(Debug, Clone, Copy, PartialEq, Eq, Structural)]
pub struct DisplayInput {
    pub code: u32,
}

/// The values that select an input: one byte, not zero.
pub open spec fn is_input_code(value: u32) -> bool {
    1 <= value <= 0xff
}

/// The name that MCCS gives to an input value, if it gives one.
pub open spec fn mccs_name(value: u32) -> Option<Seq<char>> {
    if value == 0x01 {
        Some("VGA 1"@)
    } else if value == 0x02 {
        Some("VGA 2"@)
    } else if value == 0x03 {
        Some("DVI 1"@)
    } else if value == 0x04 {
        Some("DVI 2"@)
    } else if value == 0x05 {
        Some("Composite video 1"@)
    } else if value == 0x06 {
        Some("Composite video 2"@)
    } else if value == 0x07 {
        Some("S-Video 1"@)
    } else if value == 0x08 {
        Some("S-Video 2"@)
    } else if value == 0x09 {
        Some("Tuner 1"@)
    } else if value == 0x0a {
        Some("Tuner 2"@)
    } else if value == 0x0b {
        Some("Tuner 3"@)
    } else if value == 0x0c {
        Some("Component video 1"@)
    } else if value == 0x0d {
        Some("Component video 2"@)
    } else if value == 0x0e {
        Some("Component video 3"@)
    } else if value == 0x0f {
        Some("DisplayPort 1"@)
    } else if value == 0x10 {
        Some("DisplayPort 2"@)
    } else if value == 0x11 {
        Some("HDMI 1"@)
    } else if value == 0x12 {
        Some("HDMI 2"@)
    } else {
        None
    }
}

impl DisplayInput {
    /// Whether the value can select an input.
    pub open spec fn valid(self) -> bool {
        is_input_code(self.code)
    }

    /// The input that `value` selects.
    pub fn new(value: u32) -> (input: Result<DisplayInput, DisplayMuxError>)
        ensures
            match input {
                Ok(input) => is_input_code(value) && input.code == value,
                Err(error) => !is_input_code(value) && error@ == ErrorView::InvalidInput(value),
            },
    {
        if 1 <= value && value <= 0xff {
            Ok(DisplayInput { code: value })
        } else {
            Err(DisplayMuxError::InvalidInput(value))
        }
    }

    /// The value of VCP feature `0x60`.
    pub fn value(&self) -> (value: u32)
        ensures
            value == self.code,
    {
        self.code
    }

    /// The MCCS name of the input. There is none for USB-C, which has no agreed value.
    pub fn standard_name(&self) -> (name: Option<&'static str>)
        ensures
            match name {
                Some(name) => mccs_name(self.code) == Some(name@),
                None => mccs_name(self.code) is None,
            },
    {
        match self.code {
            0x01 => Some("VGA 1"),
            0x02 => Some("VGA 2"),
            0x03 => Some("DVI 1"),
            0x04 => Some("DVI 2"),
            0x05 => Some("Composite video 1"),
            0x06 => Some("Composite video 2"),
            0x07 => Some("S-Video 1"),
            0x08 => Some("S-Video 2"),
            0x09 => Some("Tuner 1"),
            0x0a => Some("Tuner 2"),
            0x0b => Some("Tuner 3"),
            0x0c => Some("Component video 1"),
            0x0d => Some("Component video 2"),
            0x0e => Some("Component video 3"),
            0x0f => Some("DisplayPort 1"),
            0x10 => Some("DisplayPort 2"),
            0x11 => Some("HDMI 1"),
            0x12 => Some("HDMI 2"),
            _ => None,
        }
    }
}

// ---------------------------------------------------------------------------
// Displays

/// The name under which the operating system lists a display.
#[derive(Debug, PartialEq, Eq)]
pub struct MonitorId {
    value: String,
}

impl View for MonitorId {
    type V = Seq<char>;

    closed spec fn view(&self) -> Seq<char> {
        self.value@
    }
}

impl MonitorId {
    pub fn new(value: &str) -> (id: MonitorId)
        ensures
            id@ == value@,
    {
        MonitorId { value: value.to_owned() }
    }

    pub fn as_str(&self) -> (value: &str)
        ensures
            value@ == self@,
    {
        self.value.as_str()
    }

    /// Whether two ids are the same.
    pub fn same_as(&self, other: &MonitorId) -> (same: bool)
        ensures
            same == (self@ == other@),
    {
        self.value == other.value
    }
}

impl Clone for MonitorId {
    fn clone(&self) -> (copy: Self)
        ensures
            copy == *self,
    {
        MonitorId { value: self.value.clone() }
    }
}

/// Who made a display, which product it is, and which unit.
#[derive(Debug, PartialEq, Eq)]
pub struct MonitorFingerprint {
    pub manufacturer_id: String,
    pub product_code: String,
    pub serial_number: Option<String>,
}

/// The characters of a fingerprint.
pub struct FingerprintView {
    pub manufacturer_id: Seq<char>,
    pub product_code: Seq<char>,
    pub serial_number: Option<Seq<char>>,
}

impl View for MonitorFingerprint {
    type V = FingerprintView;

    open spec fn view(&self) -> FingerprintView {
        FingerprintView {
            manufacturer_id: self.manufacturer_id@,
            product_code: self.product_code@,
            serial_number: optional_text(self.serial_number),
        }
    }
}

impl FingerprintView {
    /// Two complete fingerprints that agree in every part. A fingerprint without a serial
    /// number identifies no single unit, so it matches nothing.
    pub open spec fn matches_exactly(self, other: FingerprintView) -> bool {
        self.serial_number is Some && self == other
    }
}

impl MonitorFingerprint {
    pub fn new(manufacturer_id: &str, product_code: &str, serial_number: Option<String>) -> (fingerprint:
        MonitorFingerprint)
        ensures
            fingerprint.manufacturer_id@ == manufacturer_id@,
            fingerprint.product_code@ == product_code@,
            fingerprint.serial_number == serial_number,
    {
        MonitorFingerprint {
            manufacturer_id: manufacturer_id.to_owned(),
            product_code: product_code.to_owned(),
            serial_number,
        }
    }

    /// Whether both fingerprints are complete and identify the same unit.
    pub fn matches_exactly(&self, other: &MonitorFingerprint) -> (matches: bool)
        ensures
            matches == self@.matches_exactly(other@),
    {
        self.serial_number.is_some() && self.same_as(other)
    }

    /// Whether two fingerprints hold the same texts.
    pub fn same_as(&self, other: &MonitorFingerprint) -> (same: bool)
        ensures
            same == (self@ == other@),
    {
        self.manufacturer_id == other.manufacturer_id && self.product_code == other.product_code
            && same_optional_text(&self.serial_number, &other.serial_number)
    }
}

impl Clone for MonitorFingerprint {
    fn clone(&self) -> (copy: Self)
        ensures
            copy == *self,
    {
        MonitorFingerprint {
            manufacturer_id: self.manufacturer_id.clone(),
            product_code: self.product_code.clone(),
            serial_number: copy_text(&self.serial_number),
        }
    }
}

#[derive(Debug, Clone, Copy, PartialEq, Eq, Structural)]
pub struct MonitorResolution {
    pub width: u32,
    pub height: u32,
}

impl MonitorResolution {
    pub fn new(width: u32, height: u32) -> (resolution: MonitorResolution)
        ensures
            resolution.width == width,
            resolution.height == height,
    {
        MonitorResolution { width, height }
    }
}

/// Where the resolution of a display was read.
#[derive(Debug, Clone, Copy, PartialEq, Eq, Structural)]
pub enum ResolutionSource {
    Edid,
    CoreGraphicsDisplayMode,
    WindowsDisplayMode,
}

/// A connected display.
#[derive(Debug, PartialEq, Eq)]
pub struct MonitorDescriptor {
    pub id: MonitorId,
    pub name: String,
    pub fingerprint: MonitorFingerprint,
    pub active: bool,
    pub built_in: bool,
    pub max_resolution: Option<MonitorResolution>,
    pub resolution_source: Option<ResolutionSource>,
}

/// What a descriptor says, its texts as characters.
pub struct DescriptorView {
    pub id: Seq<char>,
    pub name: Seq<char>,
    pub fingerprint: FingerprintView,
    pub active: bool,
    pub built_in: bool,
    pub max_resolution: Option<MonitorResolution>,
    pub resolution_source: Option<ResolutionSource>,
}

impl View for MonitorDescriptor {
    type V = DescriptorView;

    open spec fn view(&self) -> DescriptorView {
        DescriptorView {
            id: self.id@,
            name: self.name@,
            fingerprint: self.fingerprint@,
            active: self.active,
            built_in: self.built_in,
            max_resolution: self.max_resolution,
            resolution_source: self.resolution_source,
        }
    }
}

/// What each of some descriptors says.
pub open spec fn descriptor_views(monitors: Seq<MonitorDescriptor>) -> Seq<DescriptorView> {
    Seq::new(monitors.len(), |i: int| monitors[i]@)
}

/// The position of the first display with a given id.
pub open spec fn is_first_with_id(monitors: Seq<MonitorDescriptor>, id: Seq<char>, index: int) -> bool {
    &&& 0 <= index < monitors.len()
    &&& monitors[index].id@ == id
    &&& forall|i: int| 0 <= i < index ==> (#[trigger] monitors[i]).id@ != id
}

/// Whether no display has a given id.
pub open spec fn none_with_id(monitors: Seq<MonitorDescriptor>, id: Seq<char>) -> bool {
    forall|i: int| 0 <= i < monitors.len() ==> (#[trigger] monitors[i]).id@ != id
}

/// Finds the first display with a given id.
pub fn position_of(monitors: &[MonitorDescriptor], id: &str) -> (index: Option<usize>)
    ensures
        match index {
            Some(index) => is_first_with_id(monitors@, id@, index as int),
            None => none_with_id(monitors@, id@),
        },
{
    let mut i: usize = 0;
    while i < monitors.len()
        invariant
            i <= monitors@.len(),
            forall|k: int| 0 <= k < i ==> (#[trigger] monitors@[k]).id@ != id@,
        decreases monitors@.len() - i,
    {
        if same_text(monitors[i].id.as_str(), id) {
            return Some(i);
        }
        i += 1;
    }
    None
}

/// Finds a display that was listed before, by its id.
pub fn find_listed(monitors: &[MonitorDescriptor], id: &MonitorId) -> (index: Result<
    usize,
    DisplayMuxError,
>)
    ensures
        match index {
            Ok(index) => is_first_with_id(monitors@, id@, index as int),
            Err(error) => {
                &&& none_with_id(monitors@, id@)
                &&& error@ == ErrorView::MonitorNoLongerAvailable(id@)
            },
        },
{
    match position_of(monitors, id.as_str()) {
        Some(index) => Ok(index),
        None => Err(DisplayMuxError::MonitorNoLongerAvailable(id.as_str().to_owned())),
    }
}

impl Clone for MonitorDescriptor {
    fn clone(&self) -> (copy: Self)
        ensures
            copy == *self,
    {
        MonitorDescriptor {
            id: self.id.clone(),
            name: self.name.clone(),
            fingerprint: self.fingerprint.clone(),
            active: self.active,
            built_in: self.built_in,
            max_resolution: self.max_resolution,
            resolution_source: self.resolution_source,
        }
    }
}

// ---------------------------------------------------------------------------
// Hosts and switching

/// The kind of computer at one end of a switch.
#[derive(Debug, Clone, Copy, PartialEq, Eq, Structural)]
pub enum DestinationHost {
    Windows,
    Mac,
}

/// A host that announces itself on the local network. The address is in text form.
#[derive(Debug, Clone, PartialEq, Eq)]
pub struct DiscoveredPeer {
    pub id: String,
    pub name: String,
    pub platform: DestinationHost,
    pub address: String,
    pub port: u16,
    pub mac_address: Option<String>,
}

/// Whether a switch is carried out or only checked.
#[derive(Debug, Clone, Copy, PartialEq, Eq, Structural)]
pub enum SwitchMode {
    DryRun,
    Apply,
}

/// How a switch ended.
#[derive(Debug, PartialEq, Eq)]
pub enum SwitchOutcome {
    /// The target was found; its input was neither read nor changed.
    DryRun { target: MonitorDescriptor, input: DisplayInput },
    /// The target showed the input already.
    AlreadySelected { target: MonitorDescriptor, input: DisplayInput },
    Switched { target: MonitorDescriptor, previous: DisplayInput, selected: DisplayInput },
}

/// Which display is shared.
#[derive(Debug, PartialEq, Eq)]
pub struct DisplayMuxProfile {
    pub shared_monitor: MonitorFingerprint,
}

} // verus!
