use rpi_hub::bt::{
    adapter_settings, hid_profile, link_peer, sdp_record, HostAddress, ProfileRole, TrustStep,
    HID_UUID, PSM_CTRL, PSM_INTR, REPORT_MAP,
};
use rpi_hub::report::REPORT_ID;

const MAP_TEXT: &str = "05010906a1018501050719e029e71500250175019508810295017508810195057501\
                        05081901290591029501750391019506750815002565050719002965\
                        8100c0";

#[test]
fn the_sdp_record_carries_the_report_map() {
    let record = sdp_record();
    assert!(record.contains(&format!(
        "        <text encoding=\"hex\" value=\"{MAP_TEXT}\" />\n"
    )));
    assert!(record.starts_with("<?xml version=\"1.0\" encoding=\"UTF-8\" ?>\n<record>\n"));
    assert!(record.ends_with("</record>\n"));
}

#[test]
fn the_sdp_record_advertises_hid_on_both_channels() {
    let record = sdp_record();
    assert!(record.contains("<attribute id=\"0x0001\"><sequence><uuid value=\"0x1124\" />"));
    assert!(record.contains(&format!("<uint16 value=\"{PSM_CTRL:#06x}\" />")));
    assert!(record.contains(&format!("<uint16 value=\"{PSM_INTR:#06x}\" />")));
    assert!(record.contains("<text value=\"rpi-hub Keyboard\" />"));
    assert!(record.contains("<attribute id=\"0x0202\"><uint8 value=\"0x40\" /></attribute>"));
    assert_eq!(record.matches("<attribute ").count(), record.matches("</attribute>").count());
    assert_eq!(record.matches("<sequence>").count(), record.matches("</sequence>").count());
}

#[test]
fn the_report_map_names_the_report_id_of_the_wire_frame() {
    assert_eq!(REPORT_MAP.len(), 65);
    assert_eq!(REPORT_MAP[6..8], [0x85, REPORT_ID]);
    // Eight modifier bits, one reserved byte, six key bytes.
    assert_eq!(REPORT_MAP[18..24], [0x75, 0x01, 0x95, 0x08, 0x81, 0x02]);
    assert_eq!(REPORT_MAP[48..52], [0x95, 0x06, 0x75, 0x08]);
    assert_eq!(REPORT_MAP[64], 0xC0);
    // The modifiers are variable fields, the key slots an array.
    assert_eq!(REPORT_MAP[22..24], [0x81, 0x02]);
    assert_eq!(REPORT_MAP[62..64], [0x81, 0x00]);
}

#[test]
fn the_hid_uuid_is_the_hid_service_class() {
    assert_eq!(
        uuid::Uuid::from_u128(HID_UUID).to_string(),
        "00001124-0000-1000-8000-00805f9b34fb"
    );
}

#[test]
fn the_profile_is_a_bonded_server_that_needs_no_authorisation() {
    let profile = hid_profile();
    assert_eq!(profile.uuid, HID_UUID);
    assert_eq!(profile.service_record, sdp_record());
    assert_eq!(profile.role, ProfileRole::Server);
    assert!(profile.require_authentication);
    assert!(!profile.require_authorization);
    assert!(profile.auto_connect);
}

#[test]
fn the_adapter_shows_under_the_alias() {
    let settings = adapter_settings("desk keyboard");
    assert_eq!(settings.alias, "desk keyboard");
    assert!(settings.powered && settings.pairable && settings.discoverable);
}

const MAC: HostAddress = HostAddress { octets: [0xA8, 0x8F, 0xD9, 0x2F, 0xA1, 0x67] };
const PHONE: HostAddress = HostAddress { octets: [0x00, 0x0A, 0xD9, 0x2F, 0xA1, 0x67] };

#[test]
fn both_channels_from_one_host_make_a_link() {
    let peer = link_peer(MAC, MAC);
    assert!(matches!(peer, Ok(peer) if peer == MAC));
}

#[test]
fn channels_from_two_hosts_are_refused() {
    let mismatch = link_peer(MAC, PHONE).unwrap_err();
    assert!(mismatch.ctrl == MAC);
    assert!(mismatch.intr == PHONE);
    assert_eq!(
        mismatch.message(),
        "control channel from A8:8F:D9:2F:A1:67 but interrupt from 00:0A:D9:2F:A1:67"
    );
    // One octet is enough, wherever it stands.
    for i in 0..6 {
        let mut other = MAC;
        other.octets[i] ^= 0x10;
        assert!(link_peer(MAC, other).is_err());
    }
}

#[test]
fn a_paired_host_is_marked_trusted_once() {
    assert_eq!(TrustStep::first(), TrustStep::AskPaired);
    let asked = TrustStep::first().next(Some(true));
    assert_eq!(asked, TrustStep::AskTrusted);
    assert_eq!(asked.next(Some(true)), TrustStep::Done);
    assert_eq!(asked.next(Some(false)), TrustStep::MarkTrusted);
    assert_eq!(asked.next(None), TrustStep::MarkTrusted);
    assert_eq!(TrustStep::MarkTrusted.next(None), TrustStep::Done);
}

#[test]
fn an_unpaired_host_is_only_warned_about() {
    assert_eq!(TrustStep::first().next(Some(false)), TrustStep::WarnNotPaired);
    assert_eq!(TrustStep::first().next(None), TrustStep::WarnNotPaired);
    assert_eq!(TrustStep::WarnNotPaired.next(Some(true)), TrustStep::Done);
    assert_eq!(TrustStep::Done.next(Some(true)), TrustStep::Done);
}
