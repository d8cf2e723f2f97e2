//! Decoder for firmware hardware-inventory tables: the flat binary blob is
//! segmented into header/payload/string-table records, entry-point descriptors
//! are validated, and known record shapes can be projected as typed views.

pub mod bytes;
pub mod decode;
pub mod entry;
pub mod shapes;
pub mod table;

pub use crate::bytes::{read_u16_le, read_u32_le, read_u64_le};
pub use crate::decode::tables;
pub use crate::entry::{Smbios, Smbios3};
pub use crate::shapes::{BaseBoardInfo, BiosInfo, ChassisInfo, MemoryDevice, ProcessorInfo, SystemInfo};
pub use crate::table::{Header, Table, TableKind};
