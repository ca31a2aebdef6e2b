//! Contract for block-addressed storage devices: status flags, addressing
//! types, the device error taxonomy, ioctl queries and the device trait.

mod device;
mod laws;
mod memory_disk;
mod status;
mod types;

pub use device::{overwrite, sectors_at, DeviceState, DiskioDevice};
pub use status::{Status, StatusFlag};
pub use types::{BlockSize, DataArea, Error, IoctlCmd, IoctlReply, Lba, SectorSize};
pub use laws::{
    lemma_block_size, lemma_initialize_twice, lemma_misaligned_transfer, lemma_trim,
    lemma_uninitialized_refuses, lemma_write_protected, lemma_write_read_round_trip,
};
pub use memory_disk::{nat_size, MemoryDisk};
