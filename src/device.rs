use vstd::prelude::*;

use crate::status::{Status, StatusFlag};
use crate::types::{Error, IoctlCmd, IoctlReply, Lba};

verus! {

/// Abstract state of a device, as its operations' contracts see it.
pub struct DeviceState {
    /// Whether `initialize` has completed.
    pub initialized: bool,
    /// Whether writes are refused.
    pub write_protected: bool,
    /// Whether the last hardware interaction failed.
    pub error_occured: bool,
    /// Bytes in one sector.
    pub sector_size: nat,
    /// Addressable sectors.
    pub sector_count: nat,
    /// Erase block size, `None` where the medium has no erase blocks.
    pub block_size: Option<nat>,
    /// Whether the device services `CtrlTrim`.
    pub trim_supported: bool,
    /// Contents of the medium, sector after sector.
    pub data: Seq<u8>,
}

/// Represents disk IO device.
///
/// `state` gives the abstract state of a device; each operation's contract is
/// the predicate of `DeviceState` named after it.
pub trait DiskioDevice: Sized {
    /// Device error type.
    type HardwareError;

    /// Abstract state of the device.
    spec fn state(&self) -> DeviceState;

    /// Get status of device.
    fn status(&self) -> (r: Status)
        ensures
            r@ == self.state().status_set(),
    ;

    /// Reset device (optional).
    fn reset(&mut self)
        ensures
            old(self).state().same_config(final(self).state()),
            final(self).state().data.len() == old(self).state().data.len(),
        default_ensures
            final(self).state() == old(self).state(),
    {
    }

    /// Initialize device.
    fn initialize(&mut self) -> (r: Result<(), Error<Self::HardwareError>>)
        ensures
            old(self).state().initialize_post(final(self).state(), r),
    ;

    /// Read data blocks from device by address.
    fn read(&self, buf: &mut [u8], lba: Lba) -> (r: Result<(), Error<Self::HardwareError>>)
        ensures
            self.state().read_post(old(buf)@, final(buf)@, lba, r),
    ;

    /// Write data blocks to device by address.
    fn write(&mut self, buf: &[u8], lba: Lba) -> (r: Result<(), Error<Self::HardwareError>>)
        ensures
            old(self).state().write_post(final(self).state(), buf@, lba, r),
    ;

    /// Make ioctl query to device.
    fn ioctl(&mut self, cmd: IoctlCmd) -> (r: Result<IoctlReply, Error<Self::HardwareError>>)
        ensures
            old(self).state().ioctl_post(final(self).state(), cmd, r),
    ;
}

/// The `len` bytes of `data` that start at sector `lba`.
pub open spec fn sectors_at(data: Seq<u8>, sector_size: nat, lba: Lba, len: nat) -> Seq<u8> {
    data.subrange(lba * sector_size, lba * sector_size + len)
}

/// `data` with the bytes from `start` on replaced by `buf`.
pub open spec fn overwrite(data: Seq<u8>, start: int, buf: Seq<u8>) -> Seq<u8> {
    data.subrange(0, start) + buf + data.subrange(start + buf.len(), data.len() as int)
}

impl DeviceState {
    /// The flags that `status` reports.
    pub open spec fn status_set(self) -> Set<StatusFlag> {
        Set::new(
            |f: StatusFlag|
                match f {
                    StatusFlag::NotInitialized => !self.initialized,
                    StatusFlag::WriteProtected => self.write_protected,
                    StatusFlag::ErrorOccured => self.error_occured,
                },
        )
    }

    /// The geometry of an initialized device: sizes that fit their types, and
    /// a medium of `sector_count` sectors.
    pub open spec fn geometry_valid(self) -> bool {
        self.initialized ==> {
            &&& 0 < self.sector_size <= usize::MAX
            &&& self.sector_count <= u64::MAX
            &&& self.data.len() == self.sector_size * self.sector_count
            &&& (self.block_size matches Some(b) ==> 0 < b <= usize::MAX)
        }
    }

    /// Everything but the contents and the error flag is the same in `b`.
    pub open spec fn same_config(self, b: DeviceState) -> bool {
        &&& b.initialized == self.initialized
        &&& b.write_protected == self.write_protected
        &&& b.sector_size == self.sector_size
        &&& b.sector_count == self.sector_count
        &&& b.block_size == self.block_size
        &&& b.trim_supported == self.trim_supported
    }

    /// A transfer of `len` bytes at `lba` is whole sectors that start at a
    /// valid address and end within the medium.
    pub open spec fn transfer_valid(self, len: nat, lba: Lba) -> bool {
        &&& self.sector_size > 0
        &&& len % self.sector_size == 0
        &&& lba < self.sector_count
        &&& lba + len / self.sector_size <= self.sector_count
    }

    /// Contract of `initialize`, from this state to `b`, with result `r`.
    pub open spec fn initialize_post<T>(self, b: DeviceState, r: Result<(), Error<T>>) -> bool {
        if self.initialized {
            r == Err::<(), Error<T>>(Error::AlreadyInitialized) && b == self
        } else {
            match r {
                Ok(()) => b.initialized && b.geometry_valid(),
                Err(e) => e is Hardware && !b.initialized,
            }
        }
    }

    /// Contract of `read` in this state: `buf` holds `a` before and `b` after.
    pub open spec fn read_post<T>(self, a: Seq<u8>, b: Seq<u8>, lba: Lba, r: Result<(), Error<T>>) -> bool {
        &&& b.len() == a.len()
        &&& if !self.initialized {
            r == Err::<(), Error<T>>(Error::NotInitialized)
        } else if !self.transfer_valid(a.len(), lba) {
            r == Err::<(), Error<T>>(Error::InvalidArgument)
        } else {
            match r {
                Ok(()) => b == sectors_at(self.data, self.sector_size, lba, a.len()),
                Err(e) => e is Hardware,
            }
        }
    }

    /// Contract of `write` of `buf` at `lba`, from this state to `b`.
    pub open spec fn write_post<T>(self, b: DeviceState, buf: Seq<u8>, lba: Lba, r: Result<(), Error<T>>) -> bool {
        &&& self.same_config(b)
        &&& if !self.initialized {
            r == Err::<(), Error<T>>(Error::NotInitialized) && b.data == self.data
        } else if self.write_protected {
            r == Err::<(), Error<T>>(Error::WriteProtected) && b.data == self.data
        } else if !self.transfer_valid(buf.len(), lba) {
            r == Err::<(), Error<T>>(Error::InvalidArgument) && b.data == self.data
        } else {
            match r {
                Ok(()) => b.data == overwrite(self.data, lba * self.sector_size, buf),
                Err(e) => e is Hardware && b.data.len() == self.data.len(),
            }
        }
    }

    /// Contract of `ioctl` with `cmd`, from this state to `b`.
    pub open spec fn ioctl_post<T>(self, b: DeviceState, cmd: IoctlCmd, r: Result<IoctlReply, Error<T>>) -> bool {
        &&& self.same_config(b)
        &&& if !self.initialized {
            r == Err::<IoctlReply, Error<T>>(Error::NotInitialized) && b.data == self.data
        } else {
            match cmd {
                IoctlCmd::CtrlSync => {
                    &&& b.data == self.data
                    &&& match r {
                        Ok(v) => v == IoctlReply::Done,
                        Err(e) => e is Hardware,
                    }
                },
                IoctlCmd::GetSectorCount => {
                    &&& b.data == self.data
                    &&& r == Ok::<IoctlReply, Error<T>>(IoctlReply::SectorCount(self.sector_count as Lba))
                },
                IoctlCmd::GetSectorSize => {
                    &&& b.data == self.data
                    &&& r == Ok::<IoctlReply, Error<T>>(IoctlReply::SectorSize(self.sector_size as usize))
                },
                IoctlCmd::GetBlockSize => {
                    &&& b.data == self.data
                    &&& match self.block_size {
                        Some(n) => r == Ok::<IoctlReply, Error<T>>(IoctlReply::BlockSize(n as usize)),
                        None => r == Err::<IoctlReply, Error<T>>(Error::NotSupported),
                    }
                },
                IoctlCmd::CtrlTrim((start, end)) => {
                    if start > end || end >= self.sector_count {
                        r == Err::<IoctlReply, Error<T>>(Error::InvalidArgument) && b.data == self.data
                    } else if !self.trim_supported {
                        r == Err::<IoctlReply, Error<T>>(Error::NotSupported) && b.data == self.data
                    } else {
                        &&& r == Ok::<IoctlReply, Error<T>>(IoctlReply::Done)
                        &&& b.data.len() == self.data.len()
                        &&& forall|i: int|
                            0 <= i < self.data.len() && !(start * self.sector_size <= i < (end + 1)
                                * self.sector_size) ==> #[trigger] b.data[i] == self.data[i]
                    }
                },
            }
        }
    }
}

} // verus!
