use roottask::bda::{bda_virtual_address, map_boot_data_area_request, BiosDataArea};
use roottask::debugcon::{delegate_port_rights, get_debugcon_port, QEMU_DEBUGCON_PORT};
use roottask::init::InitState;
use roottask::serial::{
    delegate_serial_port_rights, find_serial_port, get_serial_port_request, DEFAULT_COM1_PORT,
};

#[test]
fn bda_mapping_request_words() {
    let request = map_boot_data_area_request();
    // PdCtrl=8, delegate sub-number 2, roottask selector 32 shifted by 12.
    assert_eq!(request.word1, 0x8 | (2 << 8) | (32 << 12));
    assert_eq!(request.word2, 32);
    // Source: memory CRD over physical frame 0, order 0, read permission.
    assert_eq!(request.word3, 0b101);
    // Flags: delegation tag, host page table, hypervisor source.
    assert_eq!(request.word4, 0x801);
    // Destination: memory CRD over page 0x10000, order 0, read permission.
    assert_eq!(request.word5, (0x10000 << 12) | 0b101);
}

#[test]
fn bda_virtual_address_keeps_page_offset() {
    assert_eq!(bda_virtual_address(), 0x1000_0400);
}

#[test]
fn port_delegation_request_words() {
    let request = delegate_port_rights(0x3f8);
    assert_eq!(request.word1, 0x20208);
    assert_eq!(request.word2, 32);
    assert_eq!(request.word3, 0x3F8186);
    assert_eq!(request.word4, 0x801);
    assert_eq!(request.word5, 0x3F8186);
    assert_eq!(delegate_serial_port_rights(0x3f8), request);
}

#[test]
fn debugcon_port_delegated_once() {
    let mut state = InitState::Uninitialized;

    let (_port, request) = get_debugcon_port(&mut state);
    let request = request.expect("first use must delegate the port rights");
    assert_eq!(request, delegate_port_rights(QEMU_DEBUGCON_PORT));
    assert_eq!(state, InitState::Ready);

    let (_port, request) = get_debugcon_port(&mut state);
    assert!(request.is_none());
    assert_eq!(state, InitState::Ready);
}

#[test]
fn find_serial_port_prefers_com1() {
    let bda = BiosDataArea { com_1_port: 0x3f8, com_2_port: 0x2f8 };
    assert_eq!(find_serial_port(&bda), 0x3f8);
}

#[test]
fn find_serial_port_falls_back_to_com2() {
    let bda = BiosDataArea { com_1_port: 0, com_2_port: 0x2f8 };
    assert_eq!(find_serial_port(&bda), 0x2f8);
}

#[test]
fn find_serial_port_defaults_without_bda_entries() {
    let bda = BiosDataArea { com_1_port: 0, com_2_port: 0 };
    assert_eq!(find_serial_port(&bda), DEFAULT_COM1_PORT);
    assert_eq!(DEFAULT_COM1_PORT, 0x3f8);
}

#[test]
fn serial_port_delegated_once() {
    let mut state = InitState::Uninitialized;
    let bda = BiosDataArea { com_1_port: 0, com_2_port: 0x2f8 };

    let (port, request) = get_serial_port_request(&mut state, &bda);
    assert_eq!(port, 0x2f8);
    let request = request.expect("first use must delegate the port rights");
    assert_eq!(request, delegate_serial_port_rights(0x2f8));
    assert_eq!(state, InitState::Ready);

    let (port, request) = get_serial_port_request(&mut state, &bda);
    assert_eq!(port, 0x2f8);
    assert!(request.is_none());
    assert_eq!(state, InitState::Ready);
}
