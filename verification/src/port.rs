//! What the library asks of the outside: control of displays, and discovery of other hosts.

use crate::{DiscoveredPeer, DisplayInput, DisplayMuxError, MonitorDescriptor, MonitorId};
use vstd::prelude::*;

verus! {

/// Access to the connected displays. Nothing is taken for granted about what an
/// implementation answers.
pub trait MonitorControl {
    /// Whether the caller may make a display show an input. A controller allows everything unless
    /// it says otherwise. A function that works with every controller does not know what its
    /// controller allows: it writes only where it was granted leave, and nothing without.
    open spec fn may_write(&self, monitor: MonitorId, input: DisplayInput) -> bool {
        true
    }

    /// Lists the connected displays.
    fn enumerate(&self) -> Result<Vec<MonitorDescriptor>, DisplayMuxError>;

    /// Reads the input that a display shows. This does not disturb the display.
    fn read_input(&self, monitor: &MonitorId) -> Result<DisplayInput, DisplayMuxError>;

    /// Reads the inputs that a display says it has.
    fn supported_inputs(&self, monitor: &MonitorId) -> Result<Vec<DisplayInput>, DisplayMuxError>;

    /// Makes a display show an input.
    fn write_input(&self, monitor: &MonitorId, input: DisplayInput) -> Result<(), DisplayMuxError>
        requires
            self.may_write(*monitor, input),
    ;
}

/// The hosts that announce themselves on the local network.
pub trait PeerDiscovery {
    fn peers(&self) -> Result<Vec<DiscoveredPeer>, DisplayMuxError>;
}

} // verus!
