use vstd::prelude::*;

use crate::device::{overwrite, sectors_at, DeviceState, DiskioDevice};
use crate::status::{Status, StatusFlag};
use crate::types::{BlockSize, Error, IoctlCmd, IoctlReply, Lba, SectorSize};

verus! {

/// A device whose medium is a byte vector in memory. It never meets a
/// hardware fault, services trim by zeroing the sectors, and its write
/// protection is a switch that its owner sets.
pub struct MemoryDisk {
    data: Vec<u8>,
    sector_size: SectorSize,
    sector_count: Lba,
    block_size: Option<BlockSize>,
    initialized: bool,
    write_protected: bool,
}

/// `b` as a size in `nat`.
pub open spec fn nat_size(b: Option<usize>) -> Option<nat> {
    match b {
        Some(n) => Some(n as nat),
        None => None,
    }
}

impl MemoryDisk {
    #[verifier::type_invariant]
    spec fn inv(self) -> bool {
        &&& self.sector_size > 0
        &&& self.data@.len() == self.sector_size * self.sector_count
        &&& (self.block_size matches Some(b) ==> b > 0)
    }

    /// A medium of `sector_count` sectors of `sector_size` zero bytes, not yet
    /// initialized and not write-protected. `None` where a size is zero or the
    /// medium would not fit in memory.
    pub fn new(sector_size: SectorSize, sector_count: Lba, block_size: Option<BlockSize>) -> (r:
        Option<MemoryDisk>)
        ensures
            r is Some <==> (sector_size > 0 && sector_size * sector_count <= usize::MAX
                && block_size != Some(0usize)),
            r matches Some(d) ==> d.state() == (DeviceState {
                initialized: false,
                write_protected: false,
                error_occured: false,
                sector_size: sector_size as nat,
                sector_count: sector_count as nat,
                block_size: nat_size(block_size),
                trim_supported: true,
                data: Seq::new((sector_size * sector_count) as nat, |i: int| 0u8),
            }),
    {
        if sector_size == 0 {
            return None;
        }
        if let Some(b) = block_size {
            if b == 0 {
                return None;
            }
        }
        if sector_count as u128 > (usize::MAX / sector_size) as u128 {
            proof {
                assert(sector_size * sector_count > usize::MAX) by (nonlinear_arith)
                    requires
                        sector_size > 0,
                        sector_count > usize::MAX / sector_size,
                ;
            }
            return None;
        }
        proof {
            assert(sector_size * sector_count <= usize::MAX) by (nonlinear_arith)
                requires
                    sector_size > 0,
                    sector_count <= usize::MAX / sector_size,
            ;
        }
        let len: usize = sector_size * (sector_count as usize);
        let mut data: Vec<u8> = Vec::new();
        let mut i: usize = 0;
        while i < len
            invariant
                i <= len,
                data@ == Seq::new(i as nat, |j: int| 0u8),
            decreases len - i,
        {
            data.push(0u8);
            i = i + 1;
            assert(data@ =~= Seq::new(i as nat, |j: int| 0u8));
        }
        Some(
            MemoryDisk {
                data,
                sector_size,
                sector_count,
                block_size,
                initialized: false,
                write_protected: false,
            },
        )
    }

    /// Sets or clears write protection.
    pub fn set_write_protected(&mut self, on: bool)
        ensures
            final(self).state() == (DeviceState { write_protected: on, ..old(self).state() }),
    {
        proof {
            use_type_invariant(&*self);
        }
        self.write_protected = on;
    }

    /// Offset in bytes of sector `lba`.
    fn sector_offset(&self, lba: Lba) -> (r: usize)
        requires
            lba <= self.sector_count,
        ensures
            r == lba * self.sector_size,
            r <= self.data@.len(),
    {
        let n = self.data.len();
        proof {
            use_type_invariant(self);
            lemma_span(lba as int, 0, self.sector_size as int, self.sector_count as int);
            assert(self.sector_count <= self.sector_size * self.sector_count) by (nonlinear_arith)
                requires
                    self.sector_size > 0,
            ;
        }
        (lba as usize) * self.sector_size
    }

    /// Whether `len` bytes at `lba` are whole sectors inside the medium.
    fn transfer_ok(&self, len: usize, lba: Lba) -> (r: bool)
        ensures
            r == self.state().transfer_valid(len as nat, lba),
            r ==> lba * self.sector_size + len <= self.data@.len(),
    {
        proof {
            use_type_invariant(self);
        }
        let ss = self.sector_size;
        if len % ss != 0 || lba >= self.sector_count {
            return false;
        }
        if (len / ss) as u128 > (self.sector_count - lba) as u128 {
            return false;
        }
        proof {
            lemma_span(lba as int, (len / ss) as int, ss as int, self.sector_count as int);
            assert(len == (len / ss) * ss) by (nonlinear_arith)
                requires
                    ss > 0,
                    len % ss == 0,
            ;
            assert(self.sector_count * ss == ss * self.sector_count) by (nonlinear_arith);
            assert(lba * ss + len <= self.data@.len());
        }
        true
    }
}

/// Sectors `lba .. lba + q` end within a medium of `count` sectors of `ss`
/// bytes.
proof fn lemma_span(lba: int, q: int, ss: int, count: int)
    requires
        0 <= lba,
        0 <= q,
        0 < ss,
        lba + q <= count,
    ensures
        lba * ss + q * ss <= count * ss,
{
    assert(lba * ss + q * ss <= count * ss) by (nonlinear_arith)
        requires
            0 <= lba,
            0 <= q,
            0 < ss,
            lba + q <= count,
    ;
}

impl DiskioDevice for MemoryDisk {
    type HardwareError = ();

    closed spec fn state(&self) -> DeviceState {
        DeviceState {
            initialized: self.initialized,
            write_protected: self.write_protected,
            error_occured: false,
            sector_size: self.sector_size as nat,
            sector_count: self.sector_count as nat,
            block_size: nat_size(self.block_size),
            trim_supported: true,
            data: self.data@,
        }
    }

    fn status(&self) -> (r: Status) {
        let mut r = Status::empty();
        if !self.initialized {
            r.insert(StatusFlag::NotInitialized);
        }
        if self.write_protected {
            r.insert(StatusFlag::WriteProtected);
        }
        assert(r@ =~= self.state().status_set());
        r
    }

    fn initialize(&mut self) -> (r: Result<(), Error<()>>)
        ensures
            !(r matches Err(Error::Hardware(_))),
            !old(self).state().initialized ==> final(self).state() == (DeviceState {
                initialized: true,
                ..old(self).state()
            }),
    {
        if self.initialized {
            return Err(Error::AlreadyInitialized);
        }
        proof {
            use_type_invariant(&*self);
        }
        self.initialized = true;
        Ok(())
    }

    fn read(&self, buf: &mut [u8], lba: Lba) -> (r: Result<(), Error<()>>)
        ensures
            !(r matches Err(Error::Hardware(_))),
    {
        if !self.initialized {
            return Err(Error::NotInitialized);
        }
        let len = buf.len();
        if !self.transfer_ok(len, lba) {
            return Err(Error::InvalidArgument);
        }
        let start = self.sector_offset(lba);
        let n = self.data.len();
        let mut i: usize = 0;
        while i < len
            invariant
                i <= len,
                buf@.len() == len,
                n == self.data@.len(),
                start + len <= n,
                forall|j: int| 0 <= j < i ==> buf@[j] == self.data@[start + j],
            decreases len - i,
        {
            buf[i] = self.data[start + i];
            i = i + 1;
        }
        assert(buf@ =~= sectors_at(self.data@, self.sector_size as nat, lba, len as nat));
        Ok(())
    }

    fn write(&mut self, buf: &[u8], lba: Lba) -> (r: Result<(), Error<()>>)
        ensures
            !(r matches Err(Error::Hardware(_))),
    {
        if !self.initialized {
            return Err(Error::NotInitialized);
        }
        if self.write_protected {
            return Err(Error::WriteProtected);
        }
        let len = buf.len();
        if !self.transfer_ok(len, lba) {
            return Err(Error::InvalidArgument);
        }
        let start = self.sector_offset(lba);
        let n = self.data.len();
        proof {
            use_type_invariant(&*self);
        }
        let mut i: usize = 0;
        while i < len
            invariant
                i <= len,
                len == buf@.len(),
                n == self.data@.len(),
                start + len <= n,
                self.inv(),
                self.data@.len() == old(self).data@.len(),
                self.sector_size == old(self).sector_size,
                self.sector_count == old(self).sector_count,
                self.block_size == old(self).block_size,
                self.initialized == old(self).initialized,
                self.write_protected == old(self).write_protected,
                forall|j: int| 0 <= j < i ==> self.data@[start + j] == buf@[j],
                forall|j: int|
                    0 <= j < self.data@.len() && !(start <= j < start + i) ==> self.data@[j]
                        == old(self).data@[j],
            decreases len - i,
        {
            self.data[start + i] = buf[i];
            i = i + 1;
        }
        assert(self.data@ =~= overwrite(old(self).data@, start as int, buf@));
        Ok(())
    }

    fn ioctl(&mut self, cmd: IoctlCmd) -> (r: Result<IoctlReply, Error<()>>)
        ensures
            !(r matches Err(Error::Hardware(_))),
    {
        if !self.initialized {
            return Err(Error::NotInitialized);
        }
        match cmd {
            IoctlCmd::CtrlSync => Ok(IoctlReply::Done),
            IoctlCmd::GetSectorCount => Ok(IoctlReply::SectorCount(self.sector_count)),
            IoctlCmd::GetSectorSize => Ok(IoctlReply::SectorSize(self.sector_size)),
            IoctlCmd::GetBlockSize => match self.block_size {
                Some(b) => Ok(IoctlReply::BlockSize(b)),
                None => Err(Error::NotSupported),
            },
            IoctlCmd::CtrlTrim((first, last)) => {
                if first > last || last >= self.sector_count {
                    return Err(Error::InvalidArgument);
                }
                let from = self.sector_offset(first);
                let to = self.sector_offset(last + 1);
                proof {
                    use_type_invariant(&*self);
                    assert(first * self.sector_size <= (last + 1) * self.sector_size)
                        by (nonlinear_arith)
                        requires
                            first <= last + 1,
                    ;
                }
                let mut i: usize = from;
                while i < to
                    invariant
                        from <= i <= to,
                        self.inv(),
                        to <= self.data@.len(),
                        from == first * self.sector_size,
                        to == (last + 1) * self.sector_size,
                        self.data@.len() == old(self).data@.len(),
                        self.sector_size == old(self).sector_size,
                        self.sector_count == old(self).sector_count,
                        self.block_size == old(self).block_size,
                        self.initialized == old(self).initialized,
                        self.write_protected == old(self).write_protected,
                        forall|j: int|
                            0 <= j < self.data@.len() && !(from <= j < to) ==> self.data@[j]
                                == old(self).data@[j],
                    decreases to - i,
                {
                    self.data[i] = 0u8;
                    i = i + 1;
                }
                Ok(IoctlReply::Done)
            },
        }
    }
}

} // verus!
