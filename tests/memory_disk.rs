use diskio::{DiskioDevice, Error, IoctlCmd, IoctlReply, MemoryDisk, Status, StatusFlag};

fn ready_disk(sector_size: usize, sector_count: u64, block_size: Option<usize>) -> MemoryDisk {
    let mut d = MemoryDisk::new(sector_size, sector_count, block_size).unwrap();
    assert!(d.initialize().is_ok());
    d
}

#[test]
fn uninitialized_device_refuses_io_and_geometry_queries() {
    let mut d = MemoryDisk::new(4, 8, Some(8)).unwrap();
    let mut buf = [0u8; 4];
    assert!(matches!(d.read(&mut buf, 0), Err(Error::NotInitialized)));
    assert!(matches!(d.write(&[1, 2, 3, 4], 0), Err(Error::NotInitialized)));
    assert!(matches!(d.ioctl(IoctlCmd::GetSectorCount), Err(Error::NotInitialized)));
    assert!(matches!(d.ioctl(IoctlCmd::GetSectorSize), Err(Error::NotInitialized)));
    assert!(matches!(d.ioctl(IoctlCmd::GetBlockSize), Err(Error::NotInitialized)));
    assert!(d.status().contains(StatusFlag::NotInitialized));
    d.reset();
    assert!(d.status().contains(StatusFlag::NotInitialized));
}

#[test]
fn initialize_twice_is_already_initialized() {
    let mut d = MemoryDisk::new(4, 8, None).unwrap();
    assert!(d.initialize().is_ok());
    assert!(!d.status().contains(StatusFlag::NotInitialized));
    assert!(matches!(d.initialize(), Err(Error::AlreadyInitialized)));
    assert!(d.status().is_empty());
}

#[test]
fn write_protected_device_keeps_its_contents() {
    let mut d = ready_disk(4, 8, None);
    assert!(d.write(&[9, 8, 7, 6], 2).is_ok());
    d.set_write_protected(true);
    assert!(d.status().contains(StatusFlag::WriteProtected));
    assert!(matches!(d.write(&[1, 1, 1, 1], 2), Err(Error::WriteProtected)));
    assert!(matches!(d.write(&[1, 1, 1], 2), Err(Error::WriteProtected)));
    let mut buf = [0u8; 4];
    assert!(d.read(&mut buf, 2).is_ok());
    assert_eq!(buf, [9, 8, 7, 6]);
}

#[test]
fn misaligned_buffer_is_invalid_argument() {
    let mut d = ready_disk(4, 8, None);
    let mut buf = [0u8; 6];
    assert!(matches!(d.read(&mut buf, 0), Err(Error::InvalidArgument)));
    assert!(matches!(d.write(&[1, 2, 3, 4, 5, 6], 0), Err(Error::InvalidArgument)));
    let mut one = [0u8; 1];
    assert!(matches!(d.read(&mut one, 0), Err(Error::InvalidArgument)));
}

#[test]
fn transfer_past_the_end_is_invalid_argument() {
    let mut d = ready_disk(4, 8, None);
    let mut two = [0u8; 8];
    assert!(matches!(d.read(&mut two, 7), Err(Error::InvalidArgument)));
    assert!(matches!(d.write(&[0u8; 8], 7), Err(Error::InvalidArgument)));
    let mut one = [0u8; 4];
    assert!(matches!(d.read(&mut one, 8), Err(Error::InvalidArgument)));
    assert!(d.read(&mut one, 7).is_ok());
    let mut none: [u8; 0] = [];
    assert!(matches!(d.read(&mut none, 8), Err(Error::InvalidArgument)));
    assert!(d.read(&mut none, 0).is_ok());
}

#[test]
fn trim_checks_its_range() {
    let mut d = ready_disk(2, 4, None);
    assert!(matches!(d.ioctl(IoctlCmd::CtrlTrim((3, 1))), Err(Error::InvalidArgument)));
    assert!(matches!(d.ioctl(IoctlCmd::CtrlTrim((1, 4))), Err(Error::InvalidArgument)));
    assert!(matches!(d.ioctl(IoctlCmd::CtrlTrim((1, 1))), Ok(IoctlReply::Done)));
    assert!(matches!(d.ioctl(IoctlCmd::CtrlTrim((0, 3))), Ok(IoctlReply::Done)));
}

#[test]
fn trim_zeroes_only_its_sectors() {
    let mut d = ready_disk(2, 4, None);
    assert!(d.write(&[1, 2, 3, 4, 5, 6, 7, 8], 0).is_ok());
    assert!(matches!(d.ioctl(IoctlCmd::CtrlTrim((1, 2))), Ok(IoctlReply::Done)));
    let mut buf = [0xffu8; 8];
    assert!(d.read(&mut buf, 0).is_ok());
    assert_eq!(buf, [1, 2, 0, 0, 0, 0, 7, 8]);
}

#[test]
fn write_then_read_round_trip() {
    let mut d = ready_disk(4, 8, None);
    assert!(d.write(&[0xde, 0xad, 0xbe, 0xef], 5).is_ok());
    let mut buf = [0u8; 4];
    assert!(d.read(&mut buf, 5).is_ok());
    assert_eq!(buf, [0xde, 0xad, 0xbe, 0xef]);
    let mut other = [0xffu8; 4];
    assert!(d.read(&mut other, 4).is_ok());
    assert_eq!(other, [0, 0, 0, 0]);
}

#[test]
fn multi_sector_write_lands_in_order() {
    let mut d = ready_disk(2, 4, None);
    assert!(d.write(&[1, 2, 3, 4], 2).is_ok());
    let mut buf = [0xffu8; 8];
    assert!(d.read(&mut buf, 0).is_ok());
    assert_eq!(buf, [0, 0, 0, 0, 1, 2, 3, 4]);
}

#[test]
fn block_size_without_erase_blocks_is_not_supported() {
    let mut d = ready_disk(4, 8, None);
    assert!(matches!(d.ioctl(IoctlCmd::GetBlockSize), Err(Error::NotSupported)));
    let mut e = ready_disk(4, 8, Some(16));
    assert!(matches!(e.ioctl(IoctlCmd::GetBlockSize), Ok(IoctlReply::BlockSize(16))));
}

#[test]
fn geometry_queries_report_sizes() {
    let mut d = ready_disk(512, 3, None);
    assert!(matches!(d.ioctl(IoctlCmd::GetSectorCount), Ok(IoctlReply::SectorCount(3))));
    assert!(matches!(d.ioctl(IoctlCmd::GetSectorSize), Ok(IoctlReply::SectorSize(512))));
    assert!(matches!(d.ioctl(IoctlCmd::CtrlSync), Ok(IoctlReply::Done)));
}

#[test]
fn new_rejects_impossible_geometry() {
    assert!(MemoryDisk::new(0, 8, None).is_none());
    assert!(MemoryDisk::new(4, 8, Some(0)).is_none());
    assert!(MemoryDisk::new(usize::MAX, 2, None).is_none());
    assert!(MemoryDisk::new(4, u64::MAX, None).is_none());
    assert!(MemoryDisk::new(4, 0, None).is_some());
}

#[test]
fn empty_disk_has_no_valid_address() {
    let mut d = ready_disk(4, 0, None);
    let mut none: [u8; 0] = [];
    assert!(matches!(d.read(&mut none, 0), Err(Error::InvalidArgument)));
    assert!(matches!(d.ioctl(IoctlCmd::CtrlTrim((0, 0))), Err(Error::InvalidArgument)));
    assert!(matches!(d.ioctl(IoctlCmd::GetSectorCount), Ok(IoctlReply::SectorCount(0))));
}

#[test]
fn status_set_operations() {
    let mut s = Status::empty();
    assert!(s.is_empty());
    assert_eq!(s.bits(), 0);
    s.insert(StatusFlag::WriteProtected);
    s.insert(StatusFlag::ErrorOccured);
    assert_eq!(s.bits(), 0x06);
    assert!(s.contains(StatusFlag::WriteProtected));
    assert!(!s.contains(StatusFlag::NotInitialized));
    let n = Status::from_flag(StatusFlag::NotInitialized);
    let u = s.union(&n);
    assert_eq!(u.bits(), 0x07);
    let i = u.intersection(&Status::from_flag(StatusFlag::ErrorOccured));
    assert_eq!(i.bits(), 0x04);
    s.remove(StatusFlag::ErrorOccured);
    assert_eq!(s.bits(), 0x02);
    assert_eq!(StatusFlag::NotInitialized.bit(), 0x01);
    assert_eq!(StatusFlag::WriteProtected.bit(), 0x02);
    assert_eq!(StatusFlag::ErrorOccured.bit(), 0x04);
}

#[test]
fn status_of_new_and_protected_disk() {
    let mut d = MemoryDisk::new(4, 8, None).unwrap();
    d.set_write_protected(true);
    assert_eq!(d.status().bits(), 0x03);
    assert!(d.initialize().is_ok());
    assert_eq!(d.status().bits(), 0x02);
    d.set_write_protected(false);
    assert!(d.status().is_empty());
}
