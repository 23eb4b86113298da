//! Presenting the Pi to a host as a Bluetooth HID keyboard.
//!
//! Shape of the thing, in Bluetooth terms:
//!
//! * BlueZ publishes an **SDP record** advertising the HID profile (UUID 0x1124)
//!   and carrying the report map. That is what makes the host believe a keyboard
//!   is out there.
//! * The host then opens **two L2CAP channels**: PSM 17 (control) and PSM 19
//!   (interrupt). Key reports go out on the interrupt channel.
//!
//! This module holds what is published and what is decided on the way; the
//! sockets and the BlueZ session belong to the program around it.
use vstd::prelude::*;
use vstd::string::*;

use crate::text::push_hex_pair;

verus! {

/// HumanInterfaceDeviceServiceClass, 00001124-0000-1000-8000-00805f9b34fb.
pub const HID_UUID: u128 = 0x00001124_0000_1000_8000_00805f9b34fb;

/// The L2CAP port of the control channel.
pub const PSM_CTRL: u16 = 17;

/// The L2CAP port of the interrupt channel.
pub const PSM_INTR: u16 = 19;

/// Boot-protocol keyboard report map, with Report ID 1.
///
/// Kept byte-exact and hand-annotated: the host parses this to decide what the
/// reports mean, and a single wrong byte turns every keystroke into silence.
pub const REPORT_MAP: [u8; 65] = [
    // Usage Page (Generic Desktop), Usage (Keyboard), Collection (Application)
    0x05, 0x01, 0x09, 0x06, 0xa1, 0x01,
    // Report ID (1)
    0x85, 0x01,
    // Usage Page (Keyboard/Keypad)
    0x05, 0x07,
    // Usage Min/Max 224..231 -- the eight modifiers
    0x19, 0xe0, 0x29, 0xe7,
    // Logical Min/Max 0..1
    0x15, 0x00, 0x25, 0x01,
    // Report Size 1 x Count 8
    0x75, 0x01, 0x95, 0x08,
    // Input (Data,Var,Abs)  -> modifier byte
    0x81, 0x02,
    // Report Count 1 x Size 8
    0x95, 0x01, 0x75, 0x08,
    // Input (Const)         -> reserved byte
    0x81, 0x01,
    // Report Count 5 x Size 1
    0x95, 0x05, 0x75, 0x01,
    // Usage Page (LEDs)
    0x05, 0x08,
    // Usage Min/Max 1..5
    0x19, 0x01, 0x29, 0x05,
    // Output (Data,Var,Abs) -> LED report
    0x91, 0x02,
    // Report Count 1 x Size 3
    0x95, 0x01, 0x75, 0x03,
    // Output (Const)        -> LED padding
    0x91, 0x01,
    // Report Count 6 x Size 8
    0x95, 0x06, 0x75, 0x08,
    // Logical Min/Max 0..101
    0x15, 0x00, 0x25, 0x65,
    // Usage Page (Keyboard/Keypad)
    0x05, 0x07,
    // Usage Min/Max 0..101
    0x19, 0x00, 0x29, 0x65,
    // Input (Data,Array)    -> the six key slots
    0x81, 0x00,
    // End Collection
    0xc0,
];

/// The SDP record up to the report map.
pub const SDP_RECORD_HEAD: &'static str = r#"<?xml version="1.0" encoding="UTF-8" ?>
<record>
  <attribute id="0x0001"><sequence><uuid value="0x1124" /></sequence></attribute>
  <attribute id="0x0004">
    <sequence>
      <sequence><uuid value="0x0100" /><uint16 value="0x0011" /></sequence>
      <sequence><uuid value="0x0011" /></sequence>
    </sequence>
  </attribute>
  <attribute id="0x0005"><sequence><uuid value="0x1002" /></sequence></attribute>
  <attribute id="0x0006">
    <sequence><uint16 value="0x656e" /><uint16 value="0x006a" /><uint16 value="0x0100" /></sequence>
  </attribute>
  <attribute id="0x0009">
    <sequence><sequence><uuid value="0x1124" /><uint16 value="0x0100" /></sequence></sequence>
  </attribute>
  <attribute id="0x000d">
    <sequence>
      <sequence>
        <sequence><uuid value="0x0100" /><uint16 value="0x0013" /></sequence>
        <sequence><uuid value="0x0011" /></sequence>
      </sequence>
    </sequence>
  </attribute>
  <attribute id="0x0100"><text value="rpi-hub Keyboard" /></attribute>
  <attribute id="0x0101"><text value="USB keyboard bridged over Bluetooth" /></attribute>
  <attribute id="0x0102"><text value="rpi-hub" /></attribute>
  <attribute id="0x0200"><uint16 value="0x0100" /></attribute>
  <attribute id="0x0201"><uint16 value="0x0111" /></attribute>
  <attribute id="0x0202"><uint8 value="0x40" /></attribute>
  <attribute id="0x0203"><uint8 value="0x00" /></attribute>
  <attribute id="0x0204"><boolean value="true" /></attribute>
  <attribute id="0x0205"><boolean value="true" /></attribute>
  <attribute id="0x0206">
    <sequence>
      <sequence>
        <uint8 value="0x22" />
        <text encoding="hex" value=""#;

/// The SDP record from the report map on.
pub const SDP_RECORD_TAIL: &'static str = r#"" />
      </sequence>
    </sequence>
  </attribute>
  <attribute id="0x0207">
    <sequence><sequence><uint16 value="0x0409" /><uint16 value="0x0100" /></sequence></sequence>
  </attribute>
  <attribute id="0x020b"><uint16 value="0x0100" /></attribute>
  <attribute id="0x020c"><uint16 value="0x0c80" /></attribute>
  <attribute id="0x020d"><boolean value="false" /></attribute>
  <attribute id="0x020e"><boolean value="false" /></attribute>
  <attribute id="0x020f"><uint16 value="0x0640" /></attribute>
  <attribute id="0x0210"><uint16 value="0x0320" /></attribute>
</record>
"#;

/// The SDP record that advertises the keyboard, with the report map in it as
/// hexadecimal text.
pub fn sdp_record() -> (r: String)
    ensures
        r@ == SDP_RECORD_HEAD@ + crate::text::hex(REPORT_MAP@) + SDP_RECORD_TAIL@,
{
    let map: [u8; 65] = REPORT_MAP;
    let mut record: String = SDP_RECORD_HEAD.to_owned();
    let mut i: usize = 0;
    while i < 65
        invariant
            i <= 65,
            record@ == SDP_RECORD_HEAD@ + crate::text::hex(map@.take(i as int)),
        decreases 65 - i,
    {
        push_hex_pair(&mut record, map[i]);
        i += 1;
        assert(map@.take(i as int).drop_last() =~= map@.take(i - 1));
        assert(record@ =~= SDP_RECORD_HEAD@ + crate::text::hex(map@.take(i as int)));
    }
    assert(map@.take(i as int) =~= map@);
    record.append(SDP_RECORD_TAIL);
    record
}

/// The role that a profile plays on a connection.
#[derive(Debug, Clone, Copy, PartialEq, Eq, Structural)]
pub enum ProfileRole {
    Client,
    Server,
}

/// What BlueZ is asked to register so that it advertises HID.
#[derive(Debug)]
pub struct HidProfile {
    pub uuid: u128,
    pub service_record: String,
    pub role: ProfileRole,
    pub require_authentication: bool,
    pub require_authorization: bool,
    pub auto_connect: bool,
}

/// The profile of the keyboard: the HID service class as a server with the SDP
/// record, which a host must be bonded to use, but need not be authorised anew
/// each time -- the Pi runs headless, with nobody to ask.
pub fn hid_profile() -> (r: HidProfile)
    ensures
        r.uuid == HID_UUID,
        r.service_record@ == SDP_RECORD_HEAD@ + crate::text::hex(REPORT_MAP@) + SDP_RECORD_TAIL@,
        r.role == ProfileRole::Server,
        r.require_authentication,
        !r.require_authorization,
        r.auto_connect,
{
    HidProfile {
        uuid: HID_UUID,
        service_record: sdp_record(),
        role: ProfileRole::Server,
        require_authentication: true,
        require_authorization: false,
        auto_connect: true,
    }
}

/// How the Bluetooth adapter is set up before the profile is registered.
#[derive(Debug)]
pub struct AdapterSettings {
    pub powered: bool,
    pub alias: String,
    pub pairable: bool,
    pub discoverable: bool,
}

/// The adapter of a keyboard that shows as `alias` on the host's Bluetooth
/// list, and can be found and paired with.
pub fn adapter_settings(alias: &str) -> (r: AdapterSettings)
    ensures
        r.powered,
        r.alias@ == alias@,
        r.pairable,
        r.discoverable,
{
    AdapterSettings { powered: true, alias: alias.to_owned(), pairable: true, discoverable: true }
}

/// A Bluetooth device address, most significant octet first.
#[derive(Debug, Clone, Copy)]
pub struct HostAddress {
    pub octets: [u8; 6],
}

impl PartialEq for HostAddress {
    fn eq(&self, other: &Self) -> (r: bool) {
        let mut same: bool = true;
        let mut i: usize = 0;
        while i < 6
            invariant
                i <= 6,
                same <==> forall|j: int| 0 <= j < i ==> self.octets@[j] == other.octets@[j],
            decreases 6 - i,
        {
            same = same && self.octets[i] == other.octets[i];
            i += 1;
        }
        assert(same ==> self.octets@ =~= other.octets@);
        same
    }
}

impl vstd::std_specs::cmp::PartialEqSpecImpl for HostAddress {
    open spec fn obeys_eq_spec() -> bool {
        true
    }

    open spec fn eq_spec(&self, other: &Self) -> bool {
        self.octets@ == other.octets@
    }
}

impl Eq for HostAddress {

}

/// The two upper-case hexadecimal digits of an octet.
pub open spec fn octet_text(octet: u8) -> Seq<char> {
    seq!["0123456789ABCDEF"@[octet as int / 16], "0123456789ABCDEF"@[octet as int % 16]]
}

/// An address as it is written: six pairs of upper-case hexadecimal digits with
/// colons between them.
pub open spec fn address_text(octets: Seq<u8>) -> Seq<char> {
    octet_text(octets[0]) + seq![':'] + octet_text(octets[1]) + seq![':'] + octet_text(octets[2])
        + seq![':'] + octet_text(octets[3]) + seq![':'] + octet_text(octets[4]) + seq![':']
        + octet_text(octets[5])
}

/// `Display` of `bluer::Address`, on an address given by its octets: the text is
/// the six octets as pairs of upper-case hexadecimal digits, joined by colons.
#[verifier::external_body]
fn display_address(octets: [u8; 6]) -> (r: String)
    ensures
        r@ == address_text(octets@),
{
    bluer::Address::new(octets).to_string()
}

/// The two channels of a link came from two different hosts.
#[derive(Debug)]
pub struct ChannelMismatch {
    pub ctrl: HostAddress,
    pub intr: HostAddress,
}

impl ChannelMismatch {
    /// What to tell the user.
    pub fn message(&self) -> (r: String)
        ensures
            r@ == "control channel from "@ + address_text(self.ctrl.octets@)
                + " but interrupt from "@ + address_text(self.intr.octets@),
    {
        let ctrl: String = display_address(self.ctrl.octets);
        let intr: String = display_address(self.intr.octets);
        let mut out: String = "control channel from ".to_owned();
        out.append(ctrl.as_str());
        out.append(" but interrupt from ");
        out.append(intr.as_str());
        out
    }
}

/// Which host a link is to, given where its control and its interrupt channel
/// came from: both must come from the same one.
pub fn link_peer(ctrl: HostAddress, intr: HostAddress) -> (r: Result<HostAddress, ChannelMismatch>)
    ensures
        ctrl.octets@ == intr.octets@ ==> r == Ok::<HostAddress, ChannelMismatch>(ctrl),
        ctrl.octets@ != intr.octets@ ==> r == Err::<HostAddress, ChannelMismatch>(
            ChannelMismatch { ctrl, intr },
        ),
{
    if ctrl != intr {
        return Err(ChannelMismatch { ctrl, intr });
    }
    Ok(ctrl)
}

/// What to do next about a host that should be trusted.
#[derive(Debug, Clone, Copy, PartialEq, Eq, Structural)]
pub enum TrustStep {
    /// Ask BlueZ whether the host is paired.
    AskPaired,
    /// Ask BlueZ whether the host is trusted already.
    AskTrusted,
    /// Mark the host trusted.
    MarkTrusted,
    /// Warn that the host is not paired yet, and leave it at that. Not fatal:
    /// it can still reach us by connecting inbound.
    WarnNotPaired,
    /// Nothing is left to do.
    Done,
}

impl TrustStep {
    /// The step to begin with.
    pub fn first() -> (r: TrustStep)
        ensures
            r == TrustStep::AskPaired,
    {
        TrustStep::AskPaired
    }

    /// The step after this one, given BlueZ's answer where it is a question.
    pub open spec fn after(self, answer: Option<bool>) -> TrustStep {
        match self {
            TrustStep::AskPaired => if answer == Some(true) {
                TrustStep::AskTrusted
            } else {
                TrustStep::WarnNotPaired
            },
            TrustStep::AskTrusted => if answer == Some(true) {
                TrustStep::Done
            } else {
                TrustStep::MarkTrusted
            },
            TrustStep::MarkTrusted | TrustStep::WarnNotPaired | TrustStep::Done => TrustStep::Done,
        }
    }

    /// The step after this one. `answer` is what BlueZ said where this step was
    /// a question, `None` if it could not say; not knowing counts as "no".
    pub fn next(self, answer: Option<bool>) -> (r: TrustStep)
        ensures
            r == self.after(answer),
    {
        let yes: bool = match answer {
            Some(answer) => answer,
            None => false,
        };
        match self {
            TrustStep::AskPaired => if yes {
                TrustStep::AskTrusted
            } else {
                TrustStep::WarnNotPaired
            },
            TrustStep::AskTrusted => if yes {
                TrustStep::Done
            } else {
                TrustStep::MarkTrusted
            },
            TrustStep::MarkTrusted | TrustStep::WarnNotPaired | TrustStep::Done => TrustStep::Done,
        }
    }
}

/// A host is marked trusted exactly when BlueZ says that it is paired and does
/// not say that it is trusted already; a host that is not known to be paired is
/// only warned about.
pub proof fn lemma_only_paired_hosts_are_trusted(paired: Option<bool>, trusted: Option<bool>)
    ensures
        TrustStep::AskPaired.after(paired).after(trusted) == TrustStep::MarkTrusted <==> paired
            == Some(true) && trusted != Some(true),
        TrustStep::AskPaired.after(paired) == TrustStep::WarnNotPaired <==> paired != Some(true),
        TrustStep::AskPaired.after(paired) != TrustStep::MarkTrusted,
{
}

/// Trusting ends: a warning or a mark is the last thing done, and whatever BlueZ
/// answers, three steps from the first question nothing is left to do.
pub proof fn lemma_trusting_ends(
    first: Option<bool>,
    second: Option<bool>,
    third: Option<bool>,
)
    ensures
        TrustStep::WarnNotPaired.after(first) == TrustStep::Done,
        TrustStep::MarkTrusted.after(first) == TrustStep::Done,
        TrustStep::Done.after(first) == TrustStep::Done,
        TrustStep::AskPaired.after(first).after(second).after(third) == TrustStep::Done,
{
}

/// Each question is asked once, the second only if the first was answered yes,
/// and a plain yes to both leaves nothing to do.
pub proof fn lemma_trust_questions(paired: Option<bool>, trusted: Option<bool>)
    ensures
        TrustStep::AskPaired.after(paired) == TrustStep::AskTrusted <==> paired == Some(true),
        TrustStep::AskPaired.after(paired) != TrustStep::AskPaired,
        TrustStep::AskPaired.after(paired) != TrustStep::Done,
        TrustStep::AskTrusted.after(trusted) == TrustStep::Done <==> trusted == Some(true),
        TrustStep::AskTrusted.after(trusted) == TrustStep::MarkTrusted <==> trusted != Some(true),
{
}

/// An address is written as 17 characters: the octets in their order, two
/// digits each, from which the octet reads back and which are upper case, with
/// colons between them.
pub proof fn lemma_address_reads_back(octets: Seq<u8>, i: int)
    requires
        octets.len() == 6,
        0 <= i < 6,
    ensures
        ({
            let text = address_text(octets);
            let high = text[3 * i];
            let low = text[3 * i + 1];
            &&& text.len() == 17
            &&& 0 <= crate::text::digit_value(high) < 16
            &&& 0 <= crate::text::digit_value(low) < 16
            &&& 16 * crate::text::digit_value(high) + crate::text::digit_value(low) == octets[i]
            &&& !('a' as int <= high as int <= 'f' as int)
            &&& !('a' as int <= low as int <= 'f' as int)
            &&& i < 5 ==> text[3 * i + 2] == ':'
        }),
{
    reveal_strlit("0123456789ABCDEF");
    assert(i == 0 || i == 1 || i == 2 || i == 3 || i == 4 || i == 5);
}

/// What a host finds: control on port 17, interrupt on port 19, the HID service
/// class, and around the report map this text, to the letter.
pub proof fn lemma_what_is_published()
    ensures
        PSM_CTRL == 0x0011,
        PSM_INTR == 0x0013,
        HID_UUID == 0x1124_0000_1000_8000_00805f9b34fb,
        SDP_RECORD_HEAD@ == r#"<?xml version="1.0" encoding="UTF-8" ?>
<record>
  <attribute id="0x0001"><sequence><uuid value="0x1124" /></sequence></attribute>
  <attribute id="0x0004">
    <sequence>
      <sequence><uuid value="0x0100" /><uint16 value="0x0011" /></sequence>
      <sequence><uuid value="0x0011" /></sequence>
    </sequence>
  </attribute>
  <attribute id="0x0005"><sequence><uuid value="0x1002" /></sequence></attribute>
  <attribute id="0x0006">
    <sequence><uint16 value="0x656e" /><uint16 value="0x006a" /><uint16 value="0x0100" /></sequence>
  </attribute>
  <attribute id="0x0009">
    <sequence><sequence><uuid value="0x1124" /><uint16 value="0x0100" /></sequence></sequence>
  </attribute>
  <attribute id="0x000d">
    <sequence>
      <sequence>
        <sequence><uuid value="0x0100" /><uint16 value="0x0013" /></sequence>
        <sequence><uuid value="0x0011" /></sequence>
      </sequence>
    </sequence>
  </attribute>
  <attribute id="0x0100"><text value="rpi-hub Keyboard" /></attribute>
  <attribute id="0x0101"><text value="USB keyboard bridged over Bluetooth" /></attribute>
  <attribute id="0x0102"><text value="rpi-hub" /></attribute>
  <attribute id="0x0200"><uint16 value="0x0100" /></attribute>
  <attribute id="0x0201"><uint16 value="0x0111" /></attribute>
  <attribute id="0x0202"><uint8 value="0x40" /></attribute>
  <attribute id="0x0203"><uint8 value="0x00" /></attribute>
  <attribute id="0x0204"><boolean value="true" /></attribute>
  <attribute id="0x0205"><boolean value="true" /></attribute>
  <attribute id="0x0206">
    <sequence>
      <sequence>
        <uint8 value="0x22" />
        <text encoding="hex" value=""#@,
        SDP_RECORD_TAIL@ == r#"" />
      </sequence>
    </sequence>
  </attribute>
  <attribute id="0x0207">
    <sequence><sequence><uint16 value="0x0409" /><uint16 value="0x0100" /></sequence></sequence>
  </attribute>
  <attribute id="0x020b"><uint16 value="0x0100" /></attribute>
  <attribute id="0x020c"><uint16 value="0x0c80" /></attribute>
  <attribute id="0x020d"><boolean value="false" /></attribute>
  <attribute id="0x020e"><boolean value="false" /></attribute>
  <attribute id="0x020f"><uint16 value="0x0640" /></attribute>
  <attribute id="0x0210"><uint16 value="0x0320" /></attribute>
</record>
"#@,
{
}

} // verus!
