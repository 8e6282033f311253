//! A bridge between a transaction-level simulated PCIe device and a
//! register-level hypervisor PCI bus, as a set of verified state machines.
//!
//! The hypervisor talks registers: it reads and writes configuration space
//! and accesses the regions behind the BARs. The simulated device talks
//! packets. Between them stand the adapter front end, which turns calls into
//! commands, and the bridge, which turns commands into request packets and
//! completions into answers. Nothing here sends, receives or waits: each part
//! says what is to be done next, and its owner does it.

pub mod adapter;
pub mod allocation;
pub mod bridge;
pub mod bytes;
pub mod device;
pub mod laws;
pub mod region;
pub mod scan;
pub mod tlp;

pub use adapter::{MmioRead, PciAdapter};
pub use allocation::{AddressPool, AllocationError, AllocationStep, BarAllocation};
pub use bridge::{
    make_bdf, AdapterMessage, BridgeEvent, BridgeOutput, ConfigData, Delivery, PciSimBridge,
    Reaction,
};
pub use device::{DeviceAction, PciBarDeclaration, PciTestDevice};
pub use region::{MmioRegion, PciBarRegionType};
pub use scan::{BarProbe, BarScan, ConfigAccess, ProbeStage};
pub use tlp::{
    AddressType, CompletionExtra, ConfigExtra, Fmt, Memory64Extra, MemoryExtra, PacketType, Tlp,
    TlpBuilder, TlpHeader, TrafficClass,
};
