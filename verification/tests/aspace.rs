use rustux_syscalls::aspace::AddressSpace;
use rustux_syscalls::status::RX_ERR_ALREADY_EXISTS;
use rustux_syscalls::vmar::{vmar_options, MemProt, Vmar};

fn rw() -> MemProt {
    MemProt::read().union(MemProt::write())
}

#[test]
fn aspace_map_unmap_protect() {
    let mut a = AddressSpace::new();
    assert_eq!(a.map(0x10000, 0x80000, 3, rw()), Ok(()));
    assert_eq!(a.pages.len(), 3);
    assert_eq!(a.pages.get(&0x11000), Some(&(0x81000, rw())));
    assert_eq!(a.map(0x12000, 0x90000, 2, rw()), Err(RX_ERR_ALREADY_EXISTS));
    assert_eq!(a.pages.len(), 3);
    assert_eq!(a.protect(0x11000, 4, MemProt::read()), Ok(()));
    assert_eq!(a.pages.get(&0x10000), Some(&(0x80000, rw())));
    assert_eq!(a.pages.get(&0x12000), Some(&(0x82000, MemProt::read())));
    assert_eq!(a.unmap(0x10000, 2), Ok(()));
    assert_eq!(a.pages.len(), 1);
    assert!(a.pages.get(&0x12000).is_some());
}

#[test]
fn vmar_map_to_aspace_enters_committed_pages() {
    let mut root = Vmar::new_root(1, 0x100000, 0x100000);
    let mut a = AddressSpace::new();
    let pages = vec![Some(0xA000u64), None, Some(0xC000)];
    let r = root.map_to_aspace(&mut a, 7, 0x3000, &pages, 0, 0, 0x3000, rw(), 0);
    assert_eq!(r, Ok(0x100000));
    assert_eq!(a.pages.len(), 2);
    assert_eq!(a.pages.get(&0x100000), Some(&(0xA000, rw())));
    assert_eq!(a.pages.get(&0x102000), Some(&(0xC000, rw())));
    assert_eq!(root.children.len(), 1);
}

#[test]
fn vmar_map_to_aspace_rolls_back_on_clash() {
    let mut root = Vmar::new_root(1, 0x100000, 0x100000);
    let mut a = AddressSpace::new();
    a.map(0x101000, 0x5000, 1, MemProt::read()).unwrap();
    a.map(0x102000, 0x6000, 1, MemProt::read()).unwrap();
    let pages = vec![Some(0xA000u64), None, Some(0xC000)];
    let r = root.map_to_aspace(&mut a, 7, 0x3000, &pages, 0, 0, 0x3000, rw(), 0);
    assert_eq!(r, Err(RX_ERR_ALREADY_EXISTS));
    assert_eq!(a.pages.len(), 1);
    assert_eq!(a.pages.get(&0x102000), Some(&(0x6000, MemProt::read())));
    assert_eq!(root.children.len(), 1);
}

#[test]
fn vmar_unmap_and_protect_in_aspace() {
    let mut root = Vmar::new_root(1, 0x100000, 0x100000);
    let mut a = AddressSpace::new();
    let pages = vec![Some(0xA000u64), Some(0xB000)];
    let off = root.map_to_aspace(&mut a, 7, 0x2000, &pages, 0x4000, 0, 0x2000, rw(), vmar_options::SPECIFIC).unwrap();
    assert_eq!(off, 0x104000);
    assert_eq!(root.protect_in_aspace(&mut a, 0x4000, 0x2000, MemProt::read()), Ok(()));
    assert_eq!(a.pages.get(&0x105000), Some(&(0xB000, MemProt::read())));
    assert!(root.protect_in_aspace(&mut a, 0x8000, 0x1000, MemProt::read()).is_err());
    assert_eq!(root.unmap_from_aspace(&mut a, 0x4000, 0x2000), Ok(()));
    assert_eq!(a.pages.len(), 0);
    assert_eq!(root.children.len(), 0);
}
