use rustux_syscalls::kobject::{Handle, HandleTable, ObjectType, RIGHTS_READ, RIGHTS_WRITE};
use rustux_syscalls::status::RX_ERR_ACCESS_DENIED;
use rustux_syscalls::err_to_ret;
use rustux_syscalls::status::RX_ERR_OUT_OF_RANGE;
use rustux_syscalls::usercopy::UserMemory;
use rustux_syscalls::vmo::{
    sys_vmo_create_impl, sys_vmo_read_impl, sys_vmo_write_impl, Vmo, VmoFlags, VmoRegistry, VmoSubsystem,
};

#[test]
fn test_vmo_registry_insert_get() {
    let mut reg = VmoRegistry::new();
    let vmo = Vmo::create(1, 0x1000, VmoFlags::empty()).unwrap();
    let vid = vmo.id;
    let id = reg.insert(vmo).unwrap();
    assert_eq!(id, vid);
    let retrieved = reg.get(id).unwrap();
    assert_eq!(retrieved.id, vid);
}

#[test]
fn test_vmo_registry_remove() {
    let mut reg = VmoRegistry::new();
    let vmo = Vmo::create(5, 0x1000, VmoFlags::empty()).unwrap();
    let vid = vmo.id;
    let id = reg.insert(vmo).unwrap();
    let removed = reg.remove(id).unwrap();
    assert_eq!(removed.id, vid);
    assert!(reg.get(id).is_none());
}

#[test]
fn test_vmo_flags() {
    let vmo_resizable = Vmo::create(1, 0x1000, VmoFlags::resizable()).unwrap();
    assert!(vmo_resizable.flags.is_resizable());
    let vmo_normal = Vmo::create(2, 0x1000, VmoFlags::empty()).unwrap();
    assert!(!vmo_normal.flags.is_resizable());
}

#[test]
fn test_vmo_size_validation() {
    assert!(Vmo::create(1, 0, VmoFlags::empty()).is_err());
    assert!(Vmo::create(1, 0x1001, VmoFlags::empty()).is_err());
    assert!(Vmo::create(1, 0x1000, VmoFlags::empty()).is_ok());
}

#[test]
fn test_vmo_read_write() {
    let mut vmo = Vmo::create(1, 0x1000, VmoFlags::empty()).unwrap();
    let data = b"Hello, World!";
    let written = vmo.write(0, data).unwrap();
    assert_eq!(written, data.len());
    let mut buf = vec![0u8; 64];
    let read = vmo.read(0, &mut buf).unwrap();
    assert_eq!(read, data.len());
    assert_eq!(&buf[..data.len()], data);
}

#[test]
fn test_vmo_clone() {
    let mut parent = Vmo::create(1, 0x2000, VmoFlags::empty()).unwrap();
    let data = b"Hello, clone!";
    parent.write(0, data).unwrap();
    let clone = parent.clone(2, 0, 0x1000).unwrap();
    assert!(clone.flags.is_cow());
    let mut buf = vec![0u8; 64];
    let read = clone.read(0, &mut buf).unwrap();
    assert_eq!(read, data.len());
    assert_eq!(&buf[..data.len()], data);
}

#[test]
fn test_vmo_resize() {
    let mut vmo = Vmo::create(1, 0x1000, VmoFlags::resizable()).unwrap();
    assert!(vmo.resize(0x2000).is_ok());
    assert_eq!(vmo.size(), 0x2000);
    assert!(vmo.resize(0x1000).is_ok());
    assert_eq!(vmo.size(), 0x1000);
}

#[test]
fn test_vmo_resize_non_resizable() {
    let mut vmo = Vmo::create(1, 0x1000, VmoFlags::empty()).unwrap();
    assert!(vmo.resize(0x2000).is_err());
}

#[test]
fn vmo_write_past_end_refused_and_rest_kept() {
    let mut vmo = Vmo::create(1, 0x1000, VmoFlags::empty()).unwrap();
    assert_eq!(vmo.write(0xFFF, &[1, 2]), Err(RX_ERR_OUT_OF_RANGE));
    vmo.write(4, &[9, 9]).unwrap();
    vmo.write(0, &[1, 2, 3]).unwrap();
    let mut buf = vec![0u8; 6];
    assert_eq!(vmo.read(0, &mut buf), Ok(6));
    assert_eq!(buf, vec![1, 2, 3, 0, 9, 9]);
}

#[test]
fn vmo_syscalls_round_trip() {
    let mut sub = VmoSubsystem::new();
    let mut handles = HandleTable::new();
    let mut mem = UserMemory::new(0x1000, 64);
    let h = sys_vmo_create_impl(&mut sub, &mut handles, 0x1000, 0) as u32;
    mem.bytes[0..4].copy_from_slice(&[5, 6, 7, 8]);
    assert_eq!(sys_vmo_write_impl(&mut sub, &handles, &mem, h, 0x1000, 16, 4), err_to_ret(RX_ERR_ACCESS_DENIED));
    let h = handles.install(100, Handle::new(ObjectType::Vmo, h as u64, RIGHTS_READ | RIGHTS_WRITE)).unwrap();
    assert_eq!(sys_vmo_write_impl(&mut sub, &handles, &mem, h, 0x1000, 16, 4), 4);
    assert_eq!(sys_vmo_read_impl(&sub, &handles, &mut mem, h, 0x1020, 16, 4), 4);
    assert_eq!(&mem.bytes[0x20..0x24], &[5, 6, 7, 8]);
}
