//! The bridge itself: what to do with the wired keyboard and the host, one
//! decision at a time.
//!
//! The program around this module does the waiting, sending and reading. It
//! performs the [`Action`] it is given, and reports what came of it as an
//! [`Event`].
use vstd::prelude::*;
use vstd::string::*;

use crate::input::KeyEvent;
use crate::keymap::ModifierLayout;
use crate::report::{Held, KeyboardState, KEY_SLOTS, ROLLOVER_ERROR};
use crate::text::{push_decimal, push_hex_pair};

verus! {

/// What the command line asks for.
#[derive(Debug, Clone, Copy, PartialEq, Eq, Structural)]
pub enum Startup {
    /// List the keyboard-like devices and exit.
    List,
    /// Refuse: no device to capture was named.
    NoDevice,
    /// Capture the devices and run the bridge.
    Bridge,
}

impl Startup {
    /// Decide from the `--list` switch and the number of `--device` arguments.
    /// Listing wins over everything else.
    pub fn from_args(list: bool, devices: usize) -> (r: Startup)
        ensures
            list ==> r == Startup::List,
            !list && devices == 0 ==> r == Startup::NoDevice,
            !list && devices > 0 ==> r == Startup::Bridge,
    {
        if list {
            return Startup::List;
        }
        if devices == 0 {
            return Startup::NoDevice;
        }
        Startup::Bridge
    }
}

/// Why the pump stopped. The two cases look alike and are not alike at all.
#[derive(Debug, Clone, Copy, PartialEq, Eq, Structural)]
pub enum PumpEnd {
    /// The host's L2CAP link broke: it slept, wandered out of range, or was
    /// disconnected. Recoverable -- wait for it to come back.
    HostGone,
    /// Every keyboard node stopped reading, which in practice means the keyboard
    /// was unplugged or the USB port reset it. Fatal: the evdev file descriptors
    /// are dead, and nothing in this process reopens them. The device nodes that
    /// come back on replug are *new* nodes (and often new eventN numbers), so
    /// the only honest move is to exit and be restarted onto them.
    InputGone,
}

/// Why the bridge gives up.
#[derive(Debug, Clone, Copy, PartialEq, Eq, Structural)]
pub enum StopReason {
    /// Waiting for a host failed.
    WaitFailed,
    /// The keyboard went away.
    InputGone,
}

/// Where the bridge is between two events.
#[derive(Debug, Clone, Copy, PartialEq, Eq, Structural)]
pub enum Phase {
    /// No link; waiting for a host.
    AwaitingHost,
    /// A host connected and is being marked trusted. It is done here and not at
    /// startup, because a host that pairs after we boot is not paired then.
    Trusting,
    /// The blank report that opens a link is being sent.
    Greeting,
    /// Waiting for the next key event.
    Pumping,
    /// A report that shows the last key event is being sent.
    Sending,
    /// The blank report that closes a link is being sent.
    Releasing(PumpEnd),
    /// Over.
    Stopped(StopReason),
}

/// What happened outside.
#[derive(Debug, Clone, Copy, PartialEq, Eq, Structural)]
pub enum Event {
    /// A host opened both channels, or let us in.
    HostConnected,
    /// Waiting for a host failed.
    WaitFailed,
    /// The attempt to trust the host is over, whether or not it worked.
    TrustDone,
    /// The report went out.
    Sent,
    /// The report could not be sent.
    SendFailed,
    /// The keyboard sent a key event.
    Key(KeyEvent),
    /// Every keyboard node stopped reading.
    InputClosed,
}

/// What to do next.
#[derive(Debug, Clone, Copy)]
pub enum Action {
    /// Wait for a host, and report `HostConnected` or `WaitFailed`.
    AwaitHost,
    /// Mark the connected host trusted, and report `TrustDone`.
    TrustPeer,
    /// Send this wire report, and report `Sent` or `SendFailed`.
    Send([u8; 10]),
    /// Wait for a key event, and report `Key` or `InputClosed`.
    NextKey,
    /// Stop.
    Stop(StopReason),
}

/// An action, with the bytes of a report as a sequence.
#[verifier::ext_equal]
pub enum Todo {
    AwaitHost,
    TrustPeer,
    Send(Seq<u8>),
    NextKey,
    Stop(StopReason),
}

impl View for Action {
    type V = Todo;

    open spec fn view(&self) -> Todo {
        match *self {
            Action::AwaitHost => Todo::AwaitHost,
            Action::TrustPeer => Todo::TrustPeer,
            Action::Send(report) => Todo::Send(report@),
            Action::NextKey => Todo::NextKey,
            Action::Stop(reason) => Todo::Stop(reason),
        }
    }
}

/// The state of the bridge: what the keyboard holds, and the phase.
#[verifier::ext_equal]
pub struct Session {
    pub held: Held,
    pub phase: Phase,
}

impl Session {
    /// Before the first host.
    pub open spec fn start(layout: ModifierLayout) -> Session {
        Session { held: Held::nothing(layout), phase: Phase::AwaitingHost }
    }

    pub open spec fn in_phase(self, phase: Phase) -> Session {
        Session { phase, ..self }
    }

    /// The same, with nothing held any more.
    pub open spec fn released(self) -> Session {
        Session { held: Held::nothing(self.held.layout), ..self }
    }

    /// After a link has been closed: losing the keyboard ends the bridge, losing
    /// the host does not.
    pub open spec fn ended(self, end: PumpEnd) -> Session {
        match end {
            PumpEnd::HostGone => self.in_phase(Phase::AwaitingHost),
            PumpEnd::InputGone => self.in_phase(Phase::Stopped(StopReason::InputGone)),
        }
    }

    /// When the pump stops: let go of everything, and tell the host so if there
    /// was anything to let go of.
    pub open spec fn closing(self, end: PumpEnd) -> Session {
        if self.held.report() != self.released().held.report() {
            self.released().in_phase(Phase::Releasing(end))
        } else {
            self.released().ended(end)
        }
    }

    /// After `event`. An event that the phase does not wait for changes nothing.
    pub open spec fn after(self, event: Event) -> Session {
        match (self.phase, event) {
            (Phase::AwaitingHost, Event::HostConnected) => self.in_phase(Phase::Trusting),
            (Phase::AwaitingHost, Event::WaitFailed) => self.in_phase(
                Phase::Stopped(StopReason::WaitFailed),
            ),
            (Phase::Trusting, Event::TrustDone) => self.released().in_phase(Phase::Greeting),
            (Phase::Greeting, Event::Sent) => self.in_phase(Phase::Pumping),
            (Phase::Greeting, Event::SendFailed) => self.in_phase(Phase::Pumping),
            (Phase::Pumping, Event::Key(key)) => {
                let held = self.held.after(key.code, key.pressed);
                if held.report() != self.held.report() {
                    Session { held, phase: Phase::Sending }
                } else {
                    Session { held, ..self }
                }
            },
            (Phase::Pumping, Event::InputClosed) => self.closing(PumpEnd::InputGone),
            (Phase::Sending, Event::Sent) => self.in_phase(Phase::Pumping),
            (Phase::Sending, Event::SendFailed) => self.closing(PumpEnd::HostGone),
            (Phase::Releasing(end), Event::Sent) => self.ended(end),
            (Phase::Releasing(end), Event::SendFailed) => self.ended(end),
            _ => self,
        }
    }

    /// After a sequence of events.
    pub open spec fn after_all(self, events: Seq<Event>) -> Session
        decreases events.len(),
    {
        if events.len() == 0 {
            self
        } else {
            self.after_all(events.drop_last()).after(events.last())
        }
    }

    /// The report that a host acts on after a sequence of events: the last one
    /// that reached it on its link, and a blank one on a fresh link.
    pub open spec fn shown_after(self, events: Seq<Event>) -> Seq<u8>
        decreases events.len(),
    {
        let blank = Held::nothing(self.held.layout).wire_report();
        if events.len() == 0 {
            blank
        } else {
            let before = self.after_all(events.drop_last());
            match (before.todo(), events.last()) {
                (Todo::AwaitHost, Event::HostConnected) => blank,
                (Todo::Send(report), Event::Sent) => report,
                _ => self.shown_after(events.drop_last()),
            }
        }
    }

    /// The key events that were handled on the link: those since the host was
    /// greeted.
    pub open spec fn link_keys(self, events: Seq<Event>) -> Seq<KeyEvent>
        decreases events.len(),
    {
        if events.len() == 0 {
            seq![]
        } else {
            let before = self.after_all(events.drop_last());
            let keys = self.link_keys(events.drop_last());
            match (before.phase, events.last()) {
                (Phase::Trusting, Event::TrustDone) => seq![],
                (Phase::Pumping, Event::Key(key)) => keys.push(key),
                _ => keys,
            }
        }
    }

    /// What the phase asks for: where a report is being sent, it is the one that
    /// shows what is held.
    pub open spec fn todo(self) -> Todo {
        match self.phase {
            Phase::AwaitingHost => Todo::AwaitHost,
            Phase::Trusting => Todo::TrustPeer,
            Phase::Greeting => Todo::Send(self.held.wire_report()),
            Phase::Pumping => Todo::NextKey,
            Phase::Sending => Todo::Send(self.held.wire_report()),
            Phase::Releasing(_) => Todo::Send(self.held.wire_report()),
            Phase::Stopped(reason) => Todo::Stop(reason),
        }
    }
}

/// The bridge between one keyboard and its hosts.
#[derive(Debug)]
pub struct Bridge {
    keyboard: KeyboardState,
    phase: Phase,
}

impl View for Bridge {
    type V = Session;

    closed spec fn view(&self) -> Session {
        Session { held: self.keyboard@, phase: self.phase }
    }
}

impl Bridge {
    /// A bridge that holds nothing and waits for its first host.
    pub fn new(layout: ModifierLayout) -> (r: Bridge)
        ensures
            r@ == Session::start(layout),
    {
        Bridge { keyboard: KeyboardState::new(layout), phase: Phase::AwaitingHost }
    }

    /// What the bridge is waiting for.
    pub fn action(&self) -> (r: Action)
        ensures
            r@ == self@.todo(),
    {
        match self.phase {
            Phase::AwaitingHost => Action::AwaitHost,
            Phase::Trusting => Action::TrustPeer,
            Phase::Greeting => Action::Send(self.keyboard.wire_report()),
            Phase::Pumping => Action::NextKey,
            Phase::Sending => Action::Send(self.keyboard.wire_report()),
            Phase::Releasing(_) => Action::Send(self.keyboard.wire_report()),
            Phase::Stopped(reason) => Action::Stop(reason),
        }
    }

    /// Where the bridge is.
    pub fn phase(&self) -> (r: Phase)
        ensures
            r == self@.phase,
    {
        self.phase
    }

    /// The report that shows what is held.
    pub fn report(&self) -> (r: [u8; 8])
        ensures
            r@ == self@.held.report(),
            self@.held.valid(),
    {
        self.keyboard.report()
    }

    fn end(&mut self, end: PumpEnd)
        ensures
            final(self)@ == old(self)@.ended(end),
    {
        match end {
            // The host went away; wait for it to come back.
            PumpEnd::HostGone => {
                self.phase = Phase::AwaitingHost;
            },
            // Losing the keyboard is not "the host went away", and going back to
            // wait for a host would spin forever against a dead channel: every
            // future pump would end at once. Stop instead -- a restart reopens
            // the device nodes.
            PumpEnd::InputGone => {
                self.phase = Phase::Stopped(StopReason::InputGone);
            },
        }
    }

    fn close(&mut self, end: PumpEnd)
        ensures
            final(self)@ == old(self)@.closing(end),
    {
        // Tell the host to let go of everything before the channel disappears.
        if self.keyboard.release_all() {
            self.phase = Phase::Releasing(end);
        } else {
            self.end(end);
        }
    }

    /// Take note of what happened, and say what to do next.
    pub fn step(&mut self, event: Event) -> (action: Action)
        ensures
            final(self)@ == old(self)@.after(event),
            action@ == final(self)@.todo(),
    {
        match (self.phase, event) {
            (Phase::AwaitingHost, Event::HostConnected) => {
                self.phase = Phase::Trusting;
            },
            (Phase::AwaitingHost, Event::WaitFailed) => {
                self.phase = Phase::Stopped(StopReason::WaitFailed);
            },
            (Phase::Trusting, Event::TrustDone) => {
                // A fresh link starts with nothing held. If the previous link
                // died mid-chord the Mac must not inherit a stuck modifier it
                // never saw pressed.
                self.keyboard.release_all();
                self.phase = Phase::Greeting;
            },
            (Phase::Greeting, Event::Sent) | (Phase::Greeting, Event::SendFailed) => {
                self.phase = Phase::Pumping;
            },
            (Phase::Pumping, Event::Key(key)) => {
                // Events that do not change what the host can see -- a repeated
                // press of a held key, an unmapped key -- are not sent. Staying
                // quiet keeps the interrupt channel for things that matter.
                if self.keyboard.apply(key.code, key.pressed) {
                    self.phase = Phase::Sending;
                }
            },
            (Phase::Pumping, Event::InputClosed) => {
                self.close(PumpEnd::InputGone);
            },
            (Phase::Sending, Event::Sent) => {
                self.phase = Phase::Pumping;
            },
            (Phase::Sending, Event::SendFailed) => {
                self.close(PumpEnd::HostGone);
            },
            (Phase::Releasing(end), Event::Sent) | (Phase::Releasing(end), Event::SendFailed) => {
                self.end(end);
            },
            _ => {},
        }
        self.action()
    }
}

/// A key code as the log shows it: right-aligned in three columns.
pub open spec fn code_column(code: u16) -> Seq<char> {
    if code < 10 {
        "  "@ + crate::text::decimal(code as nat)
    } else if code < 100 {
        " "@ + crate::text::decimal(code as nat)
    } else {
        crate::text::decimal(code as nat)
    }
}

/// Bytes in hexadecimal, with commas between them.
pub open spec fn byte_list(bytes: Seq<u8>) -> Seq<char>
    decreases bytes.len(),
{
    if bytes.len() == 0 {
        seq![]
    } else if bytes.len() == 1 {
        crate::text::hex_pair(bytes[0])
    } else {
        byte_list(bytes.drop_last()) + ", "@ + crate::text::hex_pair(bytes.last())
    }
}

/// The log line of a key event.
pub open spec fn trace_text(key: KeyEvent, report: Seq<u8>, changed: bool) -> Seq<char> {
    let action = if key.pressed {
        "down"@
    } else {
        "up  "@
    };
    let note = if changed {
        ""@
    } else {
        "  (no change, not sent)"@
    };
    "evdev "@ + code_column(key.code) + " "@ + action + " -> ["@ + byte_list(report) + "]"@ + note
}

/// The log line of a key event: its code, its direction, the report as it is
/// after the event, and whether the event changed anything.
pub fn trace_line(key: KeyEvent, report: &[u8; 8], changed: bool) -> (r: String)
    ensures
        r@ == trace_text(key, report@, changed),
{
    let mut out: String = "evdev ".to_owned();
    if key.code < 10 {
        out.append("  ");
    } else if key.code < 100 {
        out.append(" ");
    }
    push_decimal(&mut out, key.code);
    assert(out@ =~= "evdev "@ + code_column(key.code));
    out.append(" ");
    if key.pressed {
        out.append("down");
    } else {
        out.append("up  ");
    }
    out.append(" -> [");
    let ghost head = out@;
    push_hex_pair(&mut out, report[0]);
    assert(report@.take(1).len() == 1);
    let mut i: usize = 1;
    while i < 8
        invariant
            1 <= i <= 8,
            out@ == head + byte_list(report@.take(i as int)),
        decreases 8 - i,
    {
        out.append(", ");
        push_hex_pair(&mut out, report[i]);
        i += 1;
        assert(report@.take(i as int).drop_last() =~= report@.take(i - 1));
        assert(out@ =~= head + byte_list(report@.take(i as int)));
    }
    assert(report@.take(8) =~= report@);
    out.append("]");
    if !changed {
        out.append("  (no change, not sent)");
    } else {
        proof {
            reveal_strlit("");
        }
        assert(out@ =~= out@ + ""@);
    }
    out
}

/// What holds of every session that grew out of events: see the laws below.
proof fn lemma_sessions(layout: ModifierLayout, events: Seq<Event>)
    ensures
        ({
            let now = Session::start(layout).after_all(events);
            let shown = Session::start(layout).shown_after(events);
            &&& now.held.valid()
            &&& now.held.layout == layout
            &&& now.phase != Phase::Pumping && now.phase != Phase::Sending ==> now.held
                == Held::nothing(layout)
            &&& now.phase == Phase::Pumping || now.phase == Phase::Greeting || now.phase
                == Phase::Trusting ==> shown == now.held.wire_report()
        }),
    decreases events.len(),
{
    let start = Session::start(layout);
    if events.len() > 0 {
        lemma_sessions(layout, events.drop_last());
        let before = start.after_all(events.drop_last());
        let now = start.after_all(events);
        crate::report::lemma_reports_tell_states_apart(before.held, Held::nothing(layout));
        if let Event::Key(key) = events.last() {
            crate::report::lemma_events_keep_states_valid(before.held, key.code, key.pressed);
            let held = before.held.after(key.code, key.pressed);
            crate::report::lemma_reports_tell_states_apart(before.held, held);
        }
    }
}

/// The host sees what is held: whenever the bridge waits for the next key, the
/// report that the host acts on is the one that shows the keyboard's state.
pub proof fn lemma_host_sees_what_is_held(layout: ModifierLayout, events: Seq<Event>)
    ensures
        Session::start(layout).after_all(events).phase == Phase::Pumping ==> Session::start(
            layout,
        ).shown_after(events) == Session::start(layout).after_all(events).held.wire_report(),
{
    lemma_sessions(layout, events);
}

/// While a link is up the keyboard's state is what the key events of that link
/// left held, and nothing else.
pub proof fn lemma_link_holds_what_its_keys_left(layout: ModifierLayout, events: Seq<Event>)
    ensures
        ({
            let now = Session::start(layout).after_all(events);
            let keys = Session::start(layout).link_keys(events);
            now.phase == Phase::Greeting || now.phase == Phase::Pumping || now.phase
                == Phase::Sending ==> now.held == crate::history::held_after(layout, keys)
        }),
    decreases events.len(),
{
    if events.len() > 0 {
        let start = Session::start(layout);
        let rest = events.drop_last();
        lemma_link_holds_what_its_keys_left(layout, rest);
        lemma_sessions(layout, rest);
        lemma_sessions(layout, events);
        let keys = start.link_keys(rest);
        if let Event::Key(key) = events.last() {
            assert(keys.push(key).drop_last() =~= keys);
            assert(keys.push(key).last() == key);
        }
    }
}

/// The host is never shown a key that is up: whenever the bridge waits for the
/// next key, the report that the host acts on has either the rollover error in
/// every slot, and more than six keys of the link are down, or only keys of the
/// link that are down. And its modifier bits are those of the modifiers that are
/// down.
pub proof fn lemma_host_is_shown_no_key_that_is_up(
    layout: ModifierLayout,
    events: Seq<Event>,
    slot: int,
    bit: u8,
)
    requires
        Session::start(layout).after_all(events).phase == Phase::Pumping,
        0 <= slot < KEY_SLOTS,
        crate::history::is_modifier_bit(bit),
    ensures
        ({
            let shown = Session::start(layout).shown_after(events);
            let keys = Session::start(layout).link_keys(events);
            let down = crate::history::keys_down(layout, keys);
            &&& shown.len() == 10
            &&& shown[2] & bit != 0 <==> crate::history::modifiers_down(layout, keys).contains(bit)
            &&& shown[4 + slot] == 0 || down.contains(shown[4 + slot]) || (shown.skip(4)
                == crate::report::all_slots(ROLLOVER_ERROR) && down.len() > KEY_SLOTS)
        }),
{
    let start = Session::start(layout);
    let keys = start.link_keys(events);
    let held = crate::history::held_after(layout, keys);
    lemma_host_sees_what_is_held(layout, events);
    lemma_link_holds_what_its_keys_left(layout, events);
    crate::history::lemma_no_key_that_is_up_is_reported(layout, keys);
    crate::history::lemma_modifier_byte_shows_modifiers_down(layout, keys, bit);
    assert(held.wire_report().skip(4) =~= held.slots);
    assert(held.wire_report()[4 + slot] == held.slots[slot]);
    assert(held.slots.contains(held.slots[slot]));
}

/// Nothing is held between links: from the moment that a link ends until the
/// next one carries its first key, the keyboard's state is blank, so that no
/// host inherits a key from another one or from a link that broke mid-chord.
pub proof fn lemma_nothing_is_held_between_links(layout: ModifierLayout, events: Seq<Event>)
    ensures
        ({
            let now = Session::start(layout).after_all(events);
            now.phase != Phase::Pumping && now.phase != Phase::Sending ==> now.held
                == Held::nothing(layout)
        }),
{
    lemma_sessions(layout, events);
}

/// Every link begins with a blank report, before any key is read.
pub proof fn lemma_links_begin_blank(session: Session)
    requires
        session.phase == Phase::AwaitingHost,
    ensures
        ({
            let trusting = session.after(Event::HostConnected);
            let greeting = trusting.after(Event::TrustDone);
            &&& trusting.todo() == Todo::TrustPeer
            &&& greeting.todo() == Todo::Send(Held::nothing(session.held.layout).wire_report())
            &&& greeting.after(Event::Sent).todo() == Todo::NextKey
            &&& greeting.after(Event::SendFailed).todo() == Todo::NextKey
        }),
{
}

/// A key event is sent exactly when it changes the report, and what is sent is
/// the new report; otherwise the bridge stays silent and reads on.
pub proof fn lemma_only_changes_are_sent(session: Session, key: KeyEvent)
    requires
        session.phase == Phase::Pumping,
    ensures
        ({
            let now = session.after(Event::Key(key));
            let held = session.held.after(key.code, key.pressed);
            &&& now.held == held
            &&& held.report() != session.held.report() ==> now.todo() == Todo::Send(
                held.wire_report(),
            )
            &&& held.report() == session.held.report() ==> now.todo() == Todo::NextKey
        }),
{
}

/// When the keyboard goes away the bridge stops, and the host is not left with
/// a key down: either the report that it acts on is blank already, or it is sent
/// a blank one before the stop.
pub proof fn lemma_lost_input_lets_go_and_stops(layout: ModifierLayout, events: Seq<Event>)
    requires
        Session::start(layout).after_all(events).phase == Phase::Pumping,
    ensures
        ({
            let now = Session::start(layout).after_all(events);
            let shown = Session::start(layout).shown_after(events);
            let blank = Held::nothing(layout).wire_report();
            let closed = now.after(Event::InputClosed);
            let stop = Todo::Stop(StopReason::InputGone);
            if shown == blank {
                closed.todo() == stop
            } else {
                &&& closed.todo() == Todo::Send(blank)
                &&& closed.after(Event::Sent).todo() == stop
                &&& closed.after(Event::SendFailed).todo() == stop
            }
        }),
{
    lemma_sessions(layout, events);
    let now = Session::start(layout).after_all(events);
    let nothing = Held::nothing(layout);
    crate::report::lemma_reports_tell_states_apart(now.held, nothing);
    crate::report::lemma_report_shape(now.held);
    crate::report::lemma_report_shape(nothing);
}

/// When the host goes away the bridge waits for one again, after it has tried
/// to tell the old one to let go of what was held; it never stops on that
/// account.
pub proof fn lemma_lost_host_is_waited_for(session: Session)
    requires
        session.phase == Phase::Sending,
    ensures
        ({
            let lost = session.after(Event::SendFailed);
            let nothing = Held::nothing(session.held.layout);
            if session.held.report() == nothing.report() {
                lost.todo() == Todo::AwaitHost
            } else {
                &&& lost.todo() == Todo::Send(nothing.wire_report())
                &&& lost.after(Event::Sent).todo() == Todo::AwaitHost
                &&& lost.after(Event::SendFailed).todo() == Todo::AwaitHost
            }
        }),
{
}

/// The bridge stops for two reasons only -- waiting for a host failed, or the
/// keyboard went away -- and once it has stopped nothing starts it again.
pub proof fn lemma_stopped_stays_stopped(session: Session, event: Event)
    ensures
        session.phase is Stopped ==> session.after(event) == session,
        !(session.phase is Stopped) && session.after(event).phase is Stopped ==> (session.phase
            == Phase::AwaitingHost && event == Event::WaitFailed) || (session.phase
            == Phase::Pumping && event == Event::InputClosed) || session.phase == Phase::Releasing(
            PumpEnd::InputGone,
        ),
{
}

/// A bridge begins with no host and nothing held: it waits for a host, and its
/// report is blank.
pub proof fn lemma_bridge_begins_waiting(layout: ModifierLayout)
    ensures
        Session::start(layout).todo() == Todo::AwaitHost,
        Session::start(layout).held.report() == Seq::new(8, |i: int| 0u8),
        Session::start(layout).held.layout == layout,
{
    crate::report::lemma_nothing_held_is_a_blank_report(layout);
}

/// An action asks for what its name says, and a report is sent as it is.
pub proof fn lemma_actions_say_what_to_do(report: [u8; 10], reason: StopReason)
    ensures
        Action::AwaitHost@ == Todo::AwaitHost,
        Action::TrustPeer@ == Todo::TrustPeer,
        Action::Send(report)@ == Todo::Send(report@),
        Action::NextKey@ == Todo::NextKey,
        Action::Stop(reason)@ == Todo::Stop(reason),
{
}

/// Whatever is sent is the report of what is held.
pub proof fn lemma_what_is_sent_is_what_is_held(session: Session)
    ensures
        session.todo() matches Todo::Send(report) ==> report == session.held.wire_report()
            && report.skip(2) == session.held.report(),
{
    assert(session.held.wire_report().skip(2) =~= session.held.report());
}

/// A report that went out leads back to reading: whatever is held stays held,
/// and the next thing to do is to read a key.
pub proof fn lemma_sent_report_leads_back_to_reading(session: Session)
    requires
        session.phase == Phase::Sending,
    ensures
        session.after(Event::Sent).todo() == Todo::NextKey,
        session.after(Event::Sent).phase == Phase::Pumping,
        session.after(Event::Sent).held == session.held,
{
}

/// One report for one change: from waiting for a key, an event that changes the
/// report is followed by one send, and the send by waiting for the next key;
/// an event that does not is followed by that at once. Either way the state is
/// what the event made it.
pub proof fn lemma_one_report_for_one_change(session: Session, key: KeyEvent)
    requires
        session.phase == Phase::Pumping,
    ensures
        ({
            let held = session.held.after(key.code, key.pressed);
            let now = session.after(Event::Key(key));
            if held.report() == session.held.report() {
                &&& now.todo() == Todo::NextKey
                &&& now.phase == Phase::Pumping
                &&& now.held == held
            } else {
                &&& now.todo() == Todo::Send(held.wire_report())
                &&& now.phase == Phase::Sending
                &&& now.held == held
                &&& now.after(Event::Sent).todo() == Todo::NextKey
                &&& now.after(Event::Sent).phase == Phase::Pumping
                &&& now.after(Event::Sent).held == held
            }
        }),
{
}

/// An event that the pending action does not wait for changes nothing, so that
/// nothing is lost or done twice on its account.
pub proof fn lemma_events_out_of_turn_change_nothing(session: Session, event: Event)
    requires
        match session.todo() {
            Todo::AwaitHost => event != Event::HostConnected && event != Event::WaitFailed,
            Todo::TrustPeer => event != Event::TrustDone,
            Todo::Send(_) => event != Event::Sent && event != Event::SendFailed,
            Todo::NextKey => !(event is Key) && event != Event::InputClosed,
            Todo::Stop(_) => true,
        },
    ensures
        session.after(event).held == session.held,
        session.after(event).phase == session.phase,
        session.after(event).todo() == session.todo(),
{
}

/// The greeting and the blank report that closes a link are best-effort: whether
/// or not they got through, the first leads to reading keys and the second to
/// the end of the link, and what is held does not change.
pub proof fn lemma_blank_reports_are_best_effort(session: Session, event: Event)
    requires
        event == Event::Sent || event == Event::SendFailed,
    ensures
        session.phase == Phase::Greeting || session.phase is Releasing ==> session.after(event).held
            == session.held,
        session.phase == Phase::Greeting ==> session.after(event).todo() == Todo::NextKey,
        session.phase == Phase::Releasing(PumpEnd::HostGone) ==> session.after(event).todo()
            == Todo::AwaitHost,
        session.phase == Phase::Releasing(PumpEnd::InputGone) ==> session.after(event).todo()
            == Todo::Stop(StopReason::InputGone),
{
}

/// A session goes from event to event: nothing happens without one, and each one
/// acts on what the ones before it left.
pub proof fn lemma_sessions_grow_by_one_event(session: Session, events: Seq<Event>, event: Event)
    ensures
        session.after_all(seq![]) == session,
        session.after_all(events.push(event)) == session.after_all(events).after(event),
{
    assert(events.push(event).drop_last() =~= events);
}

/// Waiting for a host ends in one of two ways: a host connects, and is trusted
/// next; or the waiting fails, and the bridge stops and says so. What is held
/// does not change in either.
pub proof fn lemma_waiting_ends_in_trust_or_stop(session: Session)
    requires
        session.todo() == Todo::AwaitHost,
    ensures
        session.after(Event::HostConnected).todo() == Todo::TrustPeer,
        session.after(Event::HostConnected).held == session.held,
        session.after(Event::WaitFailed).todo() == Todo::Stop(StopReason::WaitFailed),
        session.after(Event::WaitFailed).held == session.held,
{
}

/// Once a host is trusted, nothing is held and a blank report greets it; then,
/// whether or not that got through, the bridge reads keys, with nothing held
/// yet.
pub proof fn lemma_trusted_host_is_greeted_and_served(session: Session)
    requires
        session.todo() == Todo::TrustPeer,
    ensures
        ({
            let greeting = session.after(Event::TrustDone);
            let blank = seq![0xA1u8, 0x01, 0, 0, 0, 0, 0, 0, 0, 0];
            &&& greeting.todo() == Todo::Send(blank)
            &&& greeting.held == Held::nothing(session.held.layout)
            &&& greeting.after(Event::Sent).todo() == Todo::NextKey
            &&& greeting.after(Event::Sent).held == greeting.held
            &&& greeting.after(Event::SendFailed).todo() == Todo::NextKey
            &&& greeting.after(Event::SendFailed).held == greeting.held
        }),
{
    assert(Held::nothing(session.held.layout).wire_report() =~= seq![
        0xA1u8,
        0x01,
        0,
        0,
        0,
        0,
        0,
        0,
        0,
        0,
    ]);
}

/// How a link ends, from any state. The keyboard goes away while a key is waited
/// for, or the host while a report is sent. If the report was blank the end
/// comes at once; if not, one blank report is sent first, and the end comes
/// whether or not it got through. The end is a stop if the keyboard went away,
/// and waiting for a host if the host did; and nothing is held then.
pub proof fn lemma_how_links_end(session: Session, end: PumpEnd)
    requires
        match end {
            PumpEnd::InputGone => session.phase == Phase::Pumping,
            PumpEnd::HostGone => session.phase == Phase::Sending,
        },
    ensures
        ({
            let closed = match end {
                PumpEnd::InputGone => session.after(Event::InputClosed),
                PumpEnd::HostGone => session.after(Event::SendFailed),
            };
            let last = match end {
                PumpEnd::InputGone => Todo::Stop(StopReason::InputGone),
                PumpEnd::HostGone => Todo::AwaitHost,
            };
            let zeros = seq![0u8, 0, 0, 0, 0, 0, 0, 0];
            let blank = seq![0xA1u8, 0x01] + zeros;
            &&& closed.held == Held::nothing(session.held.layout)
            &&& session.held.report() == zeros ==> closed.todo() == last
            &&& session.held.report() != zeros ==> {
                &&& closed.todo() == Todo::Send(blank)
                &&& closed.after(Event::Sent).todo() == last
                &&& closed.after(Event::Sent).held == closed.held
                &&& closed.after(Event::SendFailed).todo() == last
                &&& closed.after(Event::SendFailed).held == closed.held
            }
        }),
{
    let nothing = Held::nothing(session.held.layout);
    assert(nothing.report() =~= seq![0u8, 0, 0, 0, 0, 0, 0, 0]);
    assert(nothing.wire_report() =~= seq![0xA1u8, 0x01] + seq![0u8, 0, 0, 0, 0, 0, 0, 0]);
}

/// The code column of a log line ends in the code, is at least three characters
/// wide and no wider than it must be, and is filled up with spaces in front.
pub proof fn lemma_code_column_is_right_aligned(code: u16, i: int)
    ensures
        ({
            let digits = crate::text::decimal(code as nat);
            let column = code_column(code);
            let pad = column.len() - digits.len();
            &&& crate::text::decimal_value(digits) == code
            &&& column.len() == if digits.len() < 3 {
                3
            } else {
                digits.len()
            }
            &&& column.skip(pad) == digits
            &&& 0 <= i < pad ==> column[i] == ' '
        }),
{
    reveal_strlit("  ");
    reveal_strlit(" ");
    let digits = crate::text::decimal(code as nat);
    crate::text::lemma_decimal_reads_back(code as nat);
    let column = code_column(code);
    assert(column.skip(column.len() - digits.len()) =~= digits);
}

/// The bytes of a log line: two digits each, from which the byte reads back,
/// with a comma and a space between one and the next.
pub proof fn lemma_byte_list_reads_back(bytes: Seq<u8>, i: int)
    requires
        0 <= i < bytes.len(),
    ensures
        ({
            let text = byte_list(bytes);
            let high = crate::text::digit_value(text[4 * i]);
            let low = crate::text::digit_value(text[4 * i + 1]);
            &&& text.len() == 4 * bytes.len() - 2
            &&& 0 <= high < 16
            &&& 0 <= low < 16
            &&& 16 * high + low == bytes[i]
            &&& !('A' as int <= text[4 * i] as int <= 'F' as int)
            &&& !('A' as int <= text[4 * i + 1] as int <= 'F' as int)
            &&& i + 1 < bytes.len() ==> text[4 * i + 2] == ',' && text[4 * i + 3] == ' '
        }),
    decreases bytes.len(),
{
    reveal_strlit(", ");
    crate::text::lemma_hex_pair_reads_back(bytes.last());
    if bytes.len() > 1 {
        let rest = bytes.drop_last();
        if i < rest.len() {
            lemma_byte_list_reads_back(rest, i);
        } else {
            lemma_byte_list_reads_back(rest, 0);
        }
    }
}

/// The log line, put together: the code in its column, the direction, the
/// report in brackets, and a note if nothing changed.
pub proof fn lemma_trace_text(key: KeyEvent, report: Seq<u8>)
    ensures
        trace_text(key, report, true) == "evdev "@ + code_column(key.code) + " "@ + (
        if key.pressed {
            "down"@
        } else {
            "up  "@
        }) + " -> ["@ + byte_list(report) + "]"@,
        trace_text(key, report, false) == trace_text(key, report, true)
            + "  (no change, not sent)"@,
{
    reveal_strlit("");
    assert(""@ =~= Seq::<char>::empty());
    assert(trace_text(key, report, true) =~= "evdev "@ + code_column(key.code) + " "@ + (
    if key.pressed {
        "down"@
    } else {
        "up  "@
    }) + " -> ["@ + byte_list(report) + "]"@);
    assert(trace_text(key, report, false) =~= trace_text(key, report, true)
        + "  (no change, not sent)"@);
}

} // verus!
