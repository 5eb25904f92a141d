use miwear_bridge::bridge::{connect_type_from_str, data_kind_from_str, ConnectType, DataKind};
use miwear_bridge::classify::{miwear_get_file_type, FileType};
use miwear_bridge::probe::{derive_address, derive_label, nonempty_or_none, nudge_pick_candidate};
use miwear_bridge::session::XiaomiSpp;
use miwear_bridge::strutil::{eq_ignore_ascii_case, push_dec, push_hex4, str_is_blank};

#[test]
fn address_prefers_serial_number() {
    let addr = derive_address(&Some("SN123".to_string()), Some(0x045e), Some(0x0823), 99);
    assert_eq!(addr, "serial:SN123");
    let label = derive_label(&Some("SN123".to_string()), None, None);
    assert_eq!(label, Some("SN123".to_string()));
}

#[test]
fn address_falls_back_to_vendor_product_pair() {
    let addr = derive_address(&None, Some(0x045e), Some(0x0823), 99);
    assert_eq!(addr, "usb:045e:0823");
    let label = derive_label(&None, Some(0x045e), Some(0x0823));
    assert_eq!(label, Some("USB 045e:0823".to_string()));
}

#[test]
fn address_falls_back_to_timestamp() {
    let addr = derive_address(&None, Some(0x045e), None, 1234567890);
    assert_eq!(addr, "serial-port-1234567890");
    assert_eq!(derive_label(&None, Some(0x045e), None), None);
}

#[test]
fn empty_probed_string_counts_as_absent() {
    assert_eq!(nonempty_or_none(Some(String::new())), None);
    assert_eq!(nonempty_or_none(Some("x".to_string())), Some("x".to_string()));
    assert_eq!(nonempty_or_none(None), None);
}

#[test]
fn link_resolves_identity_from_probe() {
    let link = XiaomiSpp::new(5, None, Some(0xabcd), Some(0x0001), 7);
    assert_eq!(link.device_addr(), "usb:abcd:0001");
    assert_eq!(link.device_label(), Some("USB abcd:0001"));
    assert_eq!(link.resolve_name(""), "USB abcd:0001");
    assert_eq!(link.resolve_name("My Watch"), "My Watch");
    let bare = XiaomiSpp::new(5, None, None, None, 7);
    assert_eq!(bare.resolve_name(""), "Bluetooth Device");
    assert_eq!(bare.resolve_address("   "), "serial-port-7");
    assert_eq!(bare.resolve_address(" hint "), " hint ");
}

#[test]
fn writer_is_acquired_lazily_and_kept() {
    let mut link = XiaomiSpp::new(5, None, None, None, 7);
    assert_eq!(link.ensure_writer(11), 11);
    // A later call keeps the handle already held.
    assert_eq!(link.ensure_writer(12), 11);
    assert_eq!(link.start(21, 13), 11);
}

#[test]
fn nudge_takes_first_accepting_candidate() {
    assert_eq!(nudge_pick_candidate(&vec![false, true, true]), Some(1));
    assert_eq!(nudge_pick_candidate(&vec![true]), Some(0));
    assert_eq!(nudge_pick_candidate(&vec![false, false]), None);
    assert_eq!(nudge_pick_candidate(&Vec::new()), None);
}

#[test]
fn classify_zip_refined_by_extension() {
    let zip = vec![0x50u8, 0x4b, 0x03, 0x04, 0xff];
    assert_eq!(miwear_get_file_type(&zip, "face.abp"), FileType::Abp);
    assert_eq!(miwear_get_file_type(&zip, "a.b.abp"), FileType::Abp);
    assert_eq!(miwear_get_file_type(&zip, "abp"), FileType::Abp);
    assert_eq!(miwear_get_file_type(&zip, "face.zip"), FileType::Zip);
    assert_eq!(miwear_get_file_type(&zip, "abp.zip"), FileType::Zip);
    assert_eq!(miwear_get_file_type(&zip, ""), FileType::Zip);
}

#[test]
fn classify_without_magic_is_unknown() {
    assert_eq!(miwear_get_file_type(&vec![0u8, 1, 2, 3], "face.abp"), FileType::Unknown);
    assert_eq!(miwear_get_file_type(&Vec::new(), "face.abp"), FileType::Unknown);
    assert_eq!(miwear_get_file_type(&vec![0x50u8, 0x4b], "x.abp"), FileType::Unknown);
}

#[test]
fn connect_type_parses_case_insensitively() {
    assert_eq!(connect_type_from_str("BLE"), ConnectType::Ble);
    assert_eq!(connect_type_from_str("ble"), ConnectType::Ble);
    assert_eq!(connect_type_from_str("Ble"), ConnectType::Ble);
    assert_eq!(connect_type_from_str("SPP"), ConnectType::Spp);
    assert_eq!(connect_type_from_str(""), ConnectType::Spp);
    assert_eq!(connect_type_from_str("anything"), ConnectType::Spp);
}

#[test]
fn data_kind_parses_case_insensitively() {
    assert_eq!(data_kind_from_str("info"), Some(DataKind::Info));
    assert_eq!(data_kind_from_str("Status"), Some(DataKind::Status));
    assert_eq!(data_kind_from_str("STORAGE"), Some(DataKind::Storage));
    assert_eq!(data_kind_from_str("battery"), None);
    assert_eq!(data_kind_from_str(""), None);
}

#[test]
fn string_helpers_behave() {
    assert!(eq_ignore_ascii_case("BLE", "ble"));
    assert!(eq_ignore_ascii_case("", ""));
    assert!(!eq_ignore_ascii_case("ble", "blew"));
    assert!(str_is_blank(""));
    assert!(str_is_blank(" \t\r\n"));
    assert!(!str_is_blank(" x "));
    assert_eq!(push_hex4(String::new(), 0x0823), "0823");
    assert_eq!(push_hex4(String::new(), 0xffff), "ffff");
    assert_eq!(push_hex4(String::new(), 0), "0000");
    assert_eq!(push_dec(String::new(), 0), "0");
    assert_eq!(push_dec(String::new(), 1234567890), "1234567890");
    assert_eq!(push_dec("serial-port-".to_string(), 42), "serial-port-42");
}
