use rustux_syscalls::kobject::HandleTable;
use rustux_syscalls::usercopy::UserMemory;
use rustux_syscalls::vmar::{
    init_root_user_vmar, sys_vmar_allocate_impl, sys_vmar_map_impl, sys_vmar_protect_impl, sys_vmar_unmap_impl,
    vmar_options, MemProt, Vmar, VmarSpace,
};
use rustux_syscalls::vmo::VmoSubsystem;

#[test]
fn test_vmar_options() {
    assert_eq!(vmar_options::PERM_READ, 0x01);
    assert_eq!(vmar_options::PERM_WRITE, 0x02);
    assert_eq!(vmar_options::PERM_EXECUTE, 0x04);
    assert_eq!(vmar_options::CAN_MAP_READ, 0x08);
    assert_eq!(vmar_options::CAN_MAP_WRITE, 0x10);
    assert_eq!(vmar_options::CAN_MAP_EXECUTE, 0x20);
}

#[test]
fn test_perm_prot_conversion() {
    let prot = vmar_options::perm_to_prot(vmar_options::PERM_READ | vmar_options::PERM_WRITE);
    assert!(prot.can_read());
    assert!(prot.can_write());
    assert!(!prot.can_execute());
    let perm = vmar_options::prot_to_perm(MemProt::read().union(MemProt::execute()));
    assert_eq!(perm & vmar_options::PERM_READ, vmar_options::PERM_READ);
    assert_eq!(perm & vmar_options::PERM_EXECUTE, vmar_options::PERM_EXECUTE);
    assert_eq!(perm & vmar_options::PERM_WRITE, 0);
}

#[test]
fn test_vmar_root_creation() {
    let root = Vmar::new_root(1, 0x1000, 0x10000);
    assert_eq!(root.base, 0x1000);
    assert_eq!(root.size, 0x10000);
    assert!(root.flags.is_root);
    assert!(!root.flags.destroyed);
}

#[test]
fn test_vmar_child_creation() {
    let mut root = Vmar::new_root(1, 0x1000, 0x100000);
    let child = Vmar::new_child(&mut root, 2, 0x10000, 0x1000, 0, 0xFFF);
    assert!(child.is_ok());
    let child = child.unwrap();
    assert_eq!(child.base, 0x10000);
    assert_eq!(child.size, 0x1000);
    assert!(!child.flags.is_root);
}

#[test]
fn test_vmar_find_free_region() {
    let mut root = Vmar::new_root(1, 0x1000, 0x100000);
    let addr = root.find_free_region(0x1000, 0x1000);
    assert_eq!(addr, Some(0));
    let _child = Vmar::new_child(&mut root, 2, 0, 0x1000, 0, 0xFFF).unwrap();
    let addr = root.find_free_region(0x1000, 0x1000);
    assert_eq!(addr, Some(0x1000));
}

#[test]
fn test_vmar_allocate_validation() {
    let mut space = VmarSpace::new();
    let mut mem = UserMemory::new(0x1000, 64);
    assert!(sys_vmar_allocate_impl(&mut space, &mut mem, 0, 0, 0, 0, 0) < 0);
    assert!(sys_vmar_allocate_impl(&mut space, &mut mem, 0, 0, 0, 0x1001, 0) < 0);
}

#[test]
fn test_vmar_map_validation() {
    let mut space = VmarSpace::new();
    let vmos = VmoSubsystem::new();
    let handles = HandleTable::new();
    let mut mem = UserMemory::new(0x1000, 64);
    assert!(sys_vmar_map_impl(&mut space, &vmos, &handles, &mut mem, 0, 0, 0, 0, 0, 0, 0) < 0);
    assert!(sys_vmar_map_impl(&mut space, &vmos, &handles, &mut mem, 0, 0, 0, 0, 0, 0x1001, 0) < 0);
}

#[test]
fn test_vmar_unmap_validation() {
    let mut space = VmarSpace::new();
    assert!(sys_vmar_unmap_impl(&mut space, 0, 0x1000, 0) < 0);
    assert!(sys_vmar_unmap_impl(&mut space, 0, 0x1001, 0x1000) < 0);
}

#[test]
fn test_vmar_protect_validation() {
    let mut space = VmarSpace::new();
    assert!(sys_vmar_protect_impl(&mut space, 0, 0, 0x1000, 0) < 0);
    assert!(sys_vmar_protect_impl(&mut space, 0, 0, 0x1001, 0x1000) < 0);
}

#[test]
fn vmar_allocate_then_unmap_child() {
    let mut space = VmarSpace::new();
    init_root_user_vmar(&mut space);
    let mut mem = UserMemory::new(0x1000, 64);
    let h = sys_vmar_allocate_impl(&mut space, &mut mem, 0, vmar_options::CAN_MAP_READ, 0, 0x2000, 0x1000);
    assert!(h > 0);
    let off = u64::from_le_bytes(mem.bytes[0..8].try_into().unwrap());
    assert_eq!(off % 0x1000, 0);
    assert_eq!(space.root.as_ref().unwrap().children.len(), 1);
    assert_eq!(sys_vmar_unmap_impl(&mut space, 0, off, 0x2000), 0);
    assert_eq!(space.root.as_ref().unwrap().children.len(), 0);
}

#[test]
fn vmar_unmap_twice_same_as_once() {
    let mut root = Vmar::new_root(1, 0x1000, 0x100000);
    let _a = Vmar::new_child(&mut root, 2, 0, 0x1000, 0, 0xFFF).unwrap();
    let _b = Vmar::new_child(&mut root, 3, 0x2000, 0x1000, 0, 0xFFF).unwrap();
    assert_eq!(root.children.len(), 2);
    assert_eq!(root.unmap(0, 0x1000), Ok(()));
    assert_eq!(root.children.len(), 1);
    assert_eq!(root.children[0].0, 0x2000);
    assert_eq!(root.unmap(0, 0x1000), Ok(()));
    assert_eq!(root.children.len(), 1);
}

#[test]
fn vmar_allocate_takes_the_lowest_free_gap() {
    let mut space = VmarSpace::new();
    init_root_user_vmar(&mut space);
    let mut mem = UserMemory::new(0x1000, 64);
    let first = sys_vmar_allocate_impl(&mut space, &mut mem, 0, 0, 0, 0x2000, 0);
    assert!(first > 0);
    let second = sys_vmar_allocate_impl(&mut space, &mut mem, 0, 0, 0, 0x1000, 0);
    assert!(second > 0);
    assert_ne!(first, second);
    let root = space.root.as_ref().unwrap();
    assert_eq!(root.children.len(), 2);
    assert_eq!(root.children[0].0, 0);
    assert_eq!(root.children[1].0, 0x2000);
    let child = space.registry.get(second as u64).unwrap();
    assert_eq!(child.base, 0x2000);
    assert_eq!(child.size, 0x1000);
    assert_eq!(child.parent, Some(root.id));
}
