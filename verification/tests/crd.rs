use roottask::capability::{
    CrdKind, CrdMem, CrdNull, CrdObjEC, CrdObjPD, CrdObjPT, CrdObjSC, CrdObjSM, CrdPermissions,
    CrdPortIO, ECCapPermissions, MemCapPermissions, PDCapPermissions, PTCapPermissions,
    PortIOCapPermissions, SCCapPermissions, SMCapPermissions, MAX_CRD_BASE, MAX_CRD_ORDER,
};

#[test]
fn crd_port_io_raw_value() {
    // kind=2, permissions=1<<2=4, order=3<<7=384, base=0x3f8<<12=0x3f8000
    let crd = CrdPortIO::new(0x3f8, 3, PortIOCapPermissions::read_write());
    assert_eq!(crd.val(), 0x3f8000 + 384 + 4 + 2);
    assert_eq!(crd.val(), 0x3F8186);
}

#[test]
fn crd_mem_round_trip() {
    let perms = MemCapPermissions::read().union(MemCapPermissions::write());
    let crd = CrdMem::new(0xdead, 5, perms);
    assert_eq!(crd.kind(), CrdKind::Memory);
    assert_eq!(crd.base(), 0xdead);
    assert_eq!(crd.order(), 5);
    assert_eq!(crd.permissions().val(), 0b011);
}

#[test]
fn crd_mem_round_trip_extremes() {
    let perms = MemCapPermissions::read()
        .union(MemCapPermissions::write())
        .union(MemCapPermissions::execute());
    let crd = CrdMem::new(MAX_CRD_BASE, MAX_CRD_ORDER, perms);
    assert_eq!(crd.kind(), CrdKind::Memory);
    assert_eq!(crd.base(), MAX_CRD_BASE);
    assert_eq!(crd.order(), MAX_CRD_ORDER);
    assert_eq!(crd.permissions().val(), 0b111);

    let empty = CrdMem::new(0, 0, MemCapPermissions::empty());
    assert_eq!(empty.base(), 0);
    assert_eq!(empty.order(), 0);
    assert_eq!(empty.permissions().val(), 0);
    assert_eq!(empty.val(), 1);
}

#[test]
fn crd_port_io_round_trip() {
    let crd = CrdPortIO::new(0xe9, 3, PortIOCapPermissions::read_write());
    assert_eq!(crd.kind(), CrdKind::PortIo);
    assert_eq!(crd.base(), 0xe9);
    assert_eq!(crd.order(), 3);
    assert_eq!(crd.permissions().val(), 1);
}

#[test]
fn crd_object_round_trips() {
    let pd = CrdObjPD::new(5, 0, PDCapPermissions::create_kobjects());
    assert_eq!(pd.kind(), CrdKind::Object);
    assert_eq!(pd.base(), 5);
    assert_eq!(pd.order(), 0);
    assert_eq!(pd.permissions().val(), 1);
    assert_eq!(pd.val(), (5 << 12) | (1 << 2) | 3);

    let ec = CrdObjEC::new(
        77,
        2,
        ECCapPermissions::ec_ctrl()
            .union(ECCapPermissions::create_sc())
            .union(ECCapPermissions::create_pt()),
    );
    assert_eq!(ec.kind(), CrdKind::Object);
    assert_eq!(ec.base(), 77);
    assert_eq!(ec.order(), 2);
    assert_eq!(ec.permissions().val(), 0b1101);

    let sc = CrdObjSC::new(9, 1, SCCapPermissions::sc_ctrl());
    assert_eq!(sc.kind(), CrdKind::Object);
    assert_eq!(sc.base(), 9);
    assert_eq!(sc.order(), 1);
    assert_eq!(sc.permissions().val(), 1);

    let pt = CrdObjPT::new(123, 4, PTCapPermissions::pt_ctrl().union(PTCapPermissions::call()));
    assert_eq!(pt.kind(), CrdKind::Object);
    assert_eq!(pt.base(), 123);
    assert_eq!(pt.order(), 4);
    assert_eq!(pt.permissions().val(), 0b11);

    let sm = CrdObjSM::new(42, 0, SMCapPermissions::up().union(SMCapPermissions::down()));
    assert_eq!(sm.kind(), CrdKind::Object);
    assert_eq!(sm.base(), 42);
    assert_eq!(sm.order(), 0);
    assert_eq!(sm.permissions().val(), 0b11);
}

#[test]
fn crd_null_is_zero() {
    let crd = CrdNull::new();
    assert_eq!(crd.val(), 0);
    assert_eq!(crd.kind(), CrdKind::Null);
    assert_eq!(crd.base(), 0);
    assert_eq!(crd.order(), 0);
    assert_eq!(crd.permissions().val(), 0);
    assert_eq!(CrdNull::default(), crd);
}

#[test]
fn crd_field_isolation() {
    // Varying the order alone leaves every other decoded field unchanged.
    let perms = MemCapPermissions::read();
    let a = CrdMem::new(0x1234, 3, perms);
    let b = CrdMem::new(0x1234, 9, perms);
    assert_eq!(a.kind(), b.kind());
    assert_eq!(a.base(), b.base());
    assert_eq!(a.permissions().val(), b.permissions().val());
    assert_ne!(a.order(), b.order());

    // Varying the base alone leaves every other decoded field unchanged.
    let c = CrdMem::new(0x9999, 3, perms);
    assert_eq!(a.kind(), c.kind());
    assert_eq!(a.order(), c.order());
    assert_eq!(a.permissions().val(), c.permissions().val());
    assert_ne!(a.base(), c.base());

    // Varying the permissions alone leaves every other decoded field unchanged.
    let d = CrdMem::new(0x1234, 3, MemCapPermissions::execute());
    assert_eq!(a.kind(), d.kind());
    assert_eq!(a.base(), d.base());
    assert_eq!(a.order(), d.order());
    assert_ne!(a.permissions().val(), d.permissions().val());
}

#[test]
fn crd_structural_equality() {
    let perms = MemCapPermissions::read();
    let a = CrdMem::new(0x1234, 3, perms);
    let b = CrdMem::new(0x1234, 3, MemCapPermissions::read());
    let c = CrdMem::new(0x1234, 4, perms);
    assert_eq!(a, b);
    assert_ne!(a, c);
    assert_eq!(a, a.clone());
}

#[test]
fn crd_kind_values() {
    assert_eq!(CrdKind::Null.val(), 0);
    assert_eq!(CrdKind::Memory.val(), 1);
    assert_eq!(CrdKind::PortIo.val(), 2);
    assert_eq!(CrdKind::Object.val(), 3);
    assert_eq!(CrdKind::from_val(2), CrdKind::PortIo);
}
