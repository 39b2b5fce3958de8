use roottask::capability::{
    CrdPermissions, ECCapPermissions, MemCapPermissions, NullCapPermissions, PDCapPermissions,
    PTCapPermissions, PortIOCapPermissions, SCCapPermissions, SMCapPermissions,
};

#[test]
fn permission_mask_rejection() {
    // A raw byte with any bit outside the family's legal mask fails.
    assert!(NullCapPermissions::from_bits(0b1).is_none());
    assert!(MemCapPermissions::from_bits(0b1000).is_none());
    assert!(MemCapPermissions::from_bits(0xff).is_none());
    assert!(PortIOCapPermissions::from_bits(0b10).is_none());
    assert!(PDCapPermissions::from_bits(0b10).is_none());
    assert!(ECCapPermissions::from_bits(0b10).is_none());
    assert!(ECCapPermissions::from_bits(0b10000).is_none());
    assert!(SCCapPermissions::from_bits(0b10).is_none());
    assert!(PTCapPermissions::from_bits(0b100).is_none());
    assert!(SMCapPermissions::from_bits(0b100).is_none());
}

#[test]
fn permission_mask_acceptance() {
    assert_eq!(NullCapPermissions::from_bits(0).unwrap().val(), 0);
    assert_eq!(MemCapPermissions::from_bits(0b101).unwrap().val(), 0b101);
    assert_eq!(PortIOCapPermissions::from_bits(0b1).unwrap().val(), 0b1);
    assert_eq!(PDCapPermissions::from_bits(0b1).unwrap().val(), 0b1);
    assert_eq!(ECCapPermissions::from_bits(0b1101).unwrap().val(), 0b1101);
    assert_eq!(SCCapPermissions::from_bits(0b1).unwrap().val(), 0b1);
    assert_eq!(PTCapPermissions::from_bits(0b11).unwrap().val(), 0b11);
    assert_eq!(SMCapPermissions::from_bits(0b11).unwrap().val(), 0b11);
}

#[test]
fn elf_permission_mapping() {
    // ELF: read=bit2, write=bit1, execute=bit0.
    // CRD: read=bit0, write=bit1, execute=bit2.
    assert_eq!(MemCapPermissions::from_elf_segment_permissions(0b000).val(), 0);
    assert_eq!(MemCapPermissions::from_elf_segment_permissions(0b001).val(), 0b100);
    assert_eq!(MemCapPermissions::from_elf_segment_permissions(0b010).val(), 0b010);
    assert_eq!(MemCapPermissions::from_elf_segment_permissions(0b100).val(), 0b001);
    assert_eq!(MemCapPermissions::from_elf_segment_permissions(0b011).val(), 0b110);
    assert_eq!(MemCapPermissions::from_elf_segment_permissions(0b101).val(), 0b101);
    assert_eq!(MemCapPermissions::from_elf_segment_permissions(0b110).val(), 0b011);
    assert_eq!(MemCapPermissions::from_elf_segment_permissions(0b111).val(), 0b111);
    // Bits above the triple make no difference.
    assert_eq!(MemCapPermissions::from_elf_segment_permissions(0b1101).val(), 0b101);
}

#[test]
fn elf_permission_named_flags() {
    let x = MemCapPermissions::from_elf_segment_permissions(0b001);
    assert_eq!(x.val(), MemCapPermissions::execute().val());
    let w = MemCapPermissions::from_elf_segment_permissions(0b010);
    assert_eq!(w.val(), MemCapPermissions::write().val());
    let r = MemCapPermissions::from_elf_segment_permissions(0b100);
    assert_eq!(r.val(), MemCapPermissions::read().val());
    let rwx = MemCapPermissions::from_elf_segment_permissions(0b111);
    let union = MemCapPermissions::read()
        .union(MemCapPermissions::write())
        .union(MemCapPermissions::execute());
    assert_eq!(rwx.val(), union.val());
}

#[test]
fn permission_unions_and_empty() {
    assert_eq!(MemCapPermissions::empty().val(), 0);
    assert_eq!(PortIOCapPermissions::empty().val(), 0);
    assert_eq!(ECCapPermissions::empty().val(), 0);

    let rw = MemCapPermissions::read().union(MemCapPermissions::write());
    assert_eq!(rw.val(), 0b011);
    // Union is idempotent on the same flags.
    assert_eq!(rw.union(rw).val(), 0b011);

    assert_eq!(SMCapPermissions::up().union(SMCapPermissions::down()).val(), 0b11);
    assert_eq!(
        ECCapPermissions::ec_ctrl().union(ECCapPermissions::create_pt()).val(),
        0b1001
    );
}

#[test]
fn permission_flag_values() {
    assert_eq!(MemCapPermissions::read().val(), 1);
    assert_eq!(MemCapPermissions::write().val(), 2);
    assert_eq!(MemCapPermissions::execute().val(), 4);
    assert_eq!(PortIOCapPermissions::read_write().val(), 1);
    assert_eq!(PDCapPermissions::create_kobjects().val(), 1);
    assert_eq!(ECCapPermissions::ec_ctrl().val(), 1);
    assert_eq!(ECCapPermissions::create_sc().val(), 4);
    assert_eq!(ECCapPermissions::create_pt().val(), 8);
    assert_eq!(SCCapPermissions::sc_ctrl().val(), 1);
    assert_eq!(PTCapPermissions::pt_ctrl().val(), 1);
    assert_eq!(PTCapPermissions::call().val(), 2);
    assert_eq!(SMCapPermissions::up().val(), 1);
    assert_eq!(SMCapPermissions::down().val(), 2);
}
