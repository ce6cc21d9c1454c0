//! Kasou: the verified core of a macOS Virtualization.framework VM library.
//!
//! Pure data and decisions live here, each function with a contract:
//! - `types` — VM identifiers and MAC addresses (parsing, formatting,
//!   deterministic generation), attachments and runtime information;
//! - `boot`, `disk`, `serial`, `shared_dir`, `network` — device
//!   configuration and the framework objects each one calls for;
//! - `config` — the complete VM configuration and its validation;
//! - `assembly` — the order in which the framework configuration is built;
//! - `builder` — the fluent `VmConfigBuilder`;
//! - `dhcp` — the vmnet DHCP lease file and lookup by MAC address;
//! - `machine_id` — restoring or persisting the machine identifier;
//! - `error`, `vm`, `event` — errors, lifecycle states and events;
//! - `paths`, `text` — host paths and character-level helpers.

pub mod assembly;
pub mod boot;
pub mod builder;
pub mod config;
pub mod dhcp;
pub mod disk;
pub mod error;
pub mod event;
pub mod machine_id;
pub mod network;
pub mod paths;
pub mod serial;
pub mod shared_dir;
pub mod text;
pub mod types;
pub mod vm;

pub use boot::BootConfig;
pub use builder::{BootMode, VmConfigBuilder};
pub use config::VmConfig;
pub use disk::DiskConfig;
pub use error::{FrameworkError, KasouError};
pub use event::{VmEvent, VmEventBus, VmEventKind};
pub use network::{deterministic_mac, NetworkConfig};
pub use serial::SerialConfig;
pub use shared_dir::SharedDirConfig;
pub use types::{
    BalloonConfig, DiskMetrics, MacAddress, NetworkAttachment, NetworkMetrics, VmId, VmInfo,
    VsockConfig,
};
pub use vm::VmState;
