//! A neighbor-resolution cache: maps protocol-layer addresses to link-layer
//! hardware addresses, with bounded storage, earliest-expiry eviction, lazy
//! expiration, and a global discovery-request suppression window.

pub mod addr;
pub mod neighbor;
pub mod storage;

pub use addr::HardwareAddr;
pub use addr::ProtocolAddr;
pub use neighbor::Answer;
pub use neighbor::Cache;
pub use neighbor::Error;
pub use neighbor::Neighbor;
