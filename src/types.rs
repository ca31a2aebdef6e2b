use vstd::prelude::*;

verus! {

/// Memory sector address.
pub type Lba = u64;

/// Sector size of a drive.
pub type SectorSize = usize;

/// Block size of a drive.
pub type BlockSize = usize;

/// Data area: the sectors from `.0` to `.1`, both included.
pub type DataArea = (Lba, Lba);

/// Device error type.
///
/// `T` - hardware error type of the device.
#[derive(Debug, Clone, Copy)]
pub enum Error<T> {
    /// Device isn't initialized.
    NotInitialized,
    /// Device is already initialized.
    AlreadyInitialized,
    /// The feature isn't supported by this device.
    NotSupported,
    /// Can't write to write protected device.
    WriteProtected,
    /// Invalid argument passed to device methods.
    InvalidArgument,
    /// Hardware error occurred.
    Hardware(T),
}

/// Ioctl commands.
#[derive(Debug, Clone, Copy)]
pub enum IoctlCmd {
    /// Complete pending write process.
    CtrlSync,
    /// Get media size, in sectors.
    GetSectorCount,
    /// Get sector size.
    GetSectorSize,
    /// Get erase block size.
    GetBlockSize,
    /// Inform device that the data on the block of sectors is no longer used.
    CtrlTrim(DataArea),
}

impl IoctlCmd {
    /// Whether the command asks for a size that `initialize` establishes.
    pub open spec fn is_geometry_query(self) -> bool {
        ||| self is GetSectorCount
        ||| self is GetSectorSize
        ||| self is GetBlockSize
    }
}

/// What a successful ioctl command hands back.
#[derive(Debug, Clone, Copy, PartialEq, Eq, Structural)]
pub enum IoctlReply {
    /// The command was carried out and has no value to report.
    Done,
    /// Media size, in sectors.
    SectorCount(Lba),
    /// Sector size.
    SectorSize(SectorSize),
    /// Erase block size.
    BlockSize(BlockSize),
}

} // verus!
