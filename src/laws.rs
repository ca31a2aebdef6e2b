use vstd::prelude::*;

use crate::device::{sectors_at, DeviceState};
use crate::status::StatusFlag;
use crate::types::{Error, IoctlCmd, IoctlReply, Lba};

verus! {

/// A device that is not initialized refuses `read`, `write` and every
/// geometry query with `NotInitialized`, while `status` answers and reports
/// the `NotInitialized` flag.
pub proof fn lemma_uninitialized_refuses<T>(
    d: DeviceState,
    buf_before: Seq<u8>,
    buf_after: Seq<u8>,
    read_lba: Lba,
    read_r: Result<(), Error<T>>,
    after_write: DeviceState,
    wbuf: Seq<u8>,
    write_lba: Lba,
    write_r: Result<(), Error<T>>,
    after_ioctl: DeviceState,
    cmd: IoctlCmd,
    ioctl_r: Result<IoctlReply, Error<T>>,
)
    requires
        !d.initialized,
        d.read_post(buf_before, buf_after, read_lba, read_r),
        d.write_post(after_write, wbuf, write_lba, write_r),
        d.ioctl_post(after_ioctl, cmd, ioctl_r),
        cmd.is_geometry_query(),
    ensures
        read_r == Err::<(), Error<T>>(Error::NotInitialized),
        write_r == Err::<(), Error<T>>(Error::NotInitialized),
        ioctl_r == Err::<IoctlReply, Error<T>>(Error::NotInitialized),
        d.status_set().contains(StatusFlag::NotInitialized),
{
}

/// Once `initialize` has succeeded, calling it again gives
/// `AlreadyInitialized`.
pub proof fn lemma_initialize_twice<T>(
    d0: DeviceState,
    d1: DeviceState,
    r1: Result<(), Error<T>>,
    d2: DeviceState,
    r2: Result<(), Error<T>>,
)
    requires
        d0.initialize_post(d1, r1),
        r1 is Ok,
        d1.initialize_post(d2, r2),
    ensures
        r2 == Err::<(), Error<T>>(Error::AlreadyInitialized),
{
}

/// On an initialized, write-protected device, `write` gives `WriteProtected`
/// and leaves the medium as it was: a later successful `read` returns the
/// bytes from before the write.
pub proof fn lemma_write_protected<T>(
    d0: DeviceState,
    d1: DeviceState,
    wbuf: Seq<u8>,
    write_lba: Lba,
    write_r: Result<(), Error<T>>,
    buf_before: Seq<u8>,
    buf_after: Seq<u8>,
    read_lba: Lba,
    read_r: Result<(), Error<T>>,
)
    requires
        d0.initialized,
        d0.write_protected,
        d0.write_post(d1, wbuf, write_lba, write_r),
        d1.read_post(buf_before, buf_after, read_lba, read_r),
        read_r is Ok,
    ensures
        write_r == Err::<(), Error<T>>(Error::WriteProtected),
        d1.data == d0.data,
        buf_after == sectors_at(d0.data, d0.sector_size, read_lba, buf_before.len()),
{
}

/// On an initialized device, a buffer whose length is not a multiple of the
/// sector size makes `read` give `InvalidArgument`, and `write` too where the
/// device is not write-protected.
pub proof fn lemma_misaligned_transfer<T>(
    d: DeviceState,
    buf_before: Seq<u8>,
    buf_after: Seq<u8>,
    lba: Lba,
    read_r: Result<(), Error<T>>,
    after_write: DeviceState,
    write_r: Result<(), Error<T>>,
)
    requires
        d.initialized,
        d.geometry_valid(),
        buf_before.len() % d.sector_size != 0,
        d.read_post(buf_before, buf_after, lba, read_r),
        d.write_post(after_write, buf_before, lba, write_r),
    ensures
        read_r == Err::<(), Error<T>>(Error::InvalidArgument),
        !d.write_protected ==> write_r == Err::<(), Error<T>>(Error::InvalidArgument),
{
}

/// On an initialized device, trimming `(start, end)` with `start > end` gives
/// `InvalidArgument`; with `start <= end` inside the medium, a device that
/// services trim succeeds.
pub proof fn lemma_trim<T>(
    d0: DeviceState,
    d1: DeviceState,
    start: Lba,
    end: Lba,
    r: Result<IoctlReply, Error<T>>,
)
    requires
        d0.initialized,
        d0.ioctl_post(d1, IoctlCmd::CtrlTrim((start, end)), r),
    ensures
        start > end ==> r == Err::<IoctlReply, Error<T>>(Error::InvalidArgument),
        start <= end && end < d0.sector_count && d0.trim_supported ==> r == Ok::<
            IoctlReply,
            Error<T>,
        >(IoctlReply::Done),
{
}

/// Writing one sector at `lba` and then reading one sector at `lba`, both
/// with success, gives back the bytes written.
pub proof fn lemma_write_read_round_trip<T>(
    d0: DeviceState,
    d1: DeviceState,
    wbuf: Seq<u8>,
    lba: Lba,
    buf_before: Seq<u8>,
    buf_after: Seq<u8>,
)
    requires
        d0.geometry_valid(),
        wbuf.len() == d0.sector_size,
        buf_before.len() == wbuf.len(),
        d0.write_post(d1, wbuf, lba, Ok::<(), Error<T>>(())),
        d1.read_post(buf_before, buf_after, lba, Ok::<(), Error<T>>(())),
    ensures
        buf_after == wbuf,
{
    let ss = d0.sector_size;
    let start = lba * ss;
    assert(lba + 1 <= d0.sector_count);
    assert((lba + 1) * ss <= d0.sector_count * ss) by (nonlinear_arith)
        requires
            lba + 1 <= d0.sector_count,
    ;
    assert(lba * ss + ss == (lba + 1) * ss) by (nonlinear_arith);
    assert(buf_after =~= wbuf);
}

/// On an initialized device without erase blocks, `GetBlockSize` gives
/// `NotSupported`; a successful `GetBlockSize` never reports zero.
pub proof fn lemma_block_size<T>(
    d0: DeviceState,
    d1: DeviceState,
    r: Result<IoctlReply, Error<T>>,
)
    requires
        d0.initialized,
        d0.geometry_valid(),
        d0.ioctl_post(d1, IoctlCmd::GetBlockSize, r),
    ensures
        d0.block_size is None ==> r == Err::<IoctlReply, Error<T>>(Error::NotSupported),
        r is Ok ==> (r->Ok_0 matches IoctlReply::BlockSize(n) && n > 0),
{
}

} // verus!
