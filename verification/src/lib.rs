//! DisplayMux: switching one shared display between several computers over DDC/CI.

pub mod agent;
pub mod dashboard;
pub mod discovery;
pub mod domain;
pub mod edid;
pub mod error;
pub mod guard;
pub mod inputs;
pub mod json;
pub mod laws;
pub mod locale;
pub mod macos;
pub mod messages;
pub mod network;
pub mod platform;
pub mod port;
pub mod preparation;
pub mod selection;
pub mod service;
pub mod settings;
pub mod startup;
pub mod stored;
pub mod switching;
pub mod text;
pub mod update;
pub mod windows;

pub use domain::{
    DestinationHost, DiscoveredPeer, DisplayInput, DisplayMuxProfile, MonitorDescriptor,
    MonitorFingerprint, MonitorId, MonitorResolution, ResolutionSource, SwitchMode, SwitchOutcome,
};
pub use error::DisplayMuxError;
pub use port::{MonitorControl, PeerDiscovery};
pub use service::DisplayMuxService;
