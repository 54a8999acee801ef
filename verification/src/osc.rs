//! The OSC connection: its states, the decisions of the task that sends
//! the chatbox datagrams, and of the panel that shows the connection.

use vstd::prelude::*;
use crate::chatbox::{chatbox_datagram, chatbox_packet};
use crate::media::PlayerProgress;

verus! {

/// The state of a connection to the OSC receiver.
#[derive(Debug)]
pub enum OscConnState {
    Connecting,
    Connected,
    /// The connection ended; with the error's message when one ended it.
    Closed(Option<String>),
}

/// A connection to the OSC receiver at an address.
pub struct OscConnection {
    pub addr: String,
    pub state: OscConnState,
}

/// The state a connection takes on a report: the reported state, or
/// `Closed(None)` when the sending task's channel has closed.
pub open spec fn applied_state(report: Option<OscConnState>) -> OscConnState {
    match report {
        Some(s) => s,
        None => OscConnState::Closed(None),
    }
}

impl OscConnection {
    /// A connection that is being set up.
    pub fn new(addr: String) -> (conn: Self)
        ensures
            conn.addr == addr,
            conn.state is Connecting,
    {
        OscConnection { addr, state: OscConnState::Connecting }
    }

    /// Takes in what the sending task reported: `None` when the task is gone
    /// and its channel closed. Returns whether to stop listening, which is
    /// when the connection is now closed.
    pub fn apply_report(&mut self, report: Option<OscConnState>) -> (stop: bool)
        ensures
            final(self).addr == old(self).addr,
            final(self).state == applied_state(report),
            stop <==> final(self).state is Closed,
    {
        match report {
            None => {
                self.state = OscConnState::Closed(None);
                true
            },
            Some(s) => {
                let stop = match s {
                    OscConnState::Closed(_) => true,
                    _ => false,
                };
                self.state = s;
                stop
            },
        }
    }
}

/// What the connection panel shows.
#[derive(Debug, Clone, Copy, PartialEq, Eq, Structural)]
pub enum OscPanel {
    /// A "disconnect" button.
    Disconnect,
    /// The text "connecting..".
    Connecting,
    /// The address input and a "connect" button.
    AddressForm,
}

/// The panel for a connection state, or for no connection.
pub open spec fn panel_for(state: Option<OscConnState>) -> OscPanel {
    match state {
        Some(OscConnState::Connected) => OscPanel::Disconnect,
        Some(OscConnState::Connecting) => OscPanel::Connecting,
        _ => OscPanel::AddressForm,
    }
}

/// Once a connection is closed, for whatever reason, the panel offers the
/// address form again, so that the user can reconnect; while the
/// connection is being set up or is up, it does not.
pub proof fn closed_connection_offers_form(state: OscConnState)
    ensures
        (panel_for(Some(state)) == OscPanel::AddressForm) <==> (state is Closed),
        panel_for(None) == OscPanel::AddressForm,
{
}

/// The OSC side of the window: the current connection, if any.
pub struct OscManagement {
    pub conn: Option<OscConnection>,
}

pub open spec fn default_address_text() -> Seq<char> {
    seq!['1', '2', '7', '.', '0', '.', '0', '.', '1', ':', '9', '0', '0', '0']
}

/// The address offered before the user types one: the local chatbox port.
pub fn default_address() -> (addr: String)
    ensures
        addr@ == default_address_text(),
{
    let a = String::from_str("127.0.0.1:9000");
    proof {
        reveal_strlit("127.0.0.1:9000");
    }
    a
}

impl OscManagement {
    /// No connection yet.
    pub fn new() -> (m: Self)
        ensures
            m.conn is None,
    {
        OscManagement { conn: None }
    }

    /// Starts a connection to `addr`, replacing any earlier one.
    pub fn connect(&mut self, addr: String)
        ensures
            final(self).conn matches Some(c) && c.addr == addr && c.state is Connecting,
    {
        self.conn = Some(OscConnection::new(addr));
    }

    /// What the panel shows: "disconnect" while connected, "connecting.."
    /// while connecting, else the address form.
    pub fn panel(&self) -> (p: OscPanel)
        ensures
            p == panel_for(
                match self.conn {
                    Some(c) => Some(c.state),
                    None => None,
                },
            ),
    {
        match &self.conn {
            Some(c) => match &c.state {
                OscConnState::Connected => OscPanel::Disconnect,
                OscConnState::Connecting => OscPanel::Connecting,
                OscConnState::Closed(_) => OscPanel::AddressForm,
            },
            None => OscPanel::AddressForm,
        }
    }
}

/// The datagram to send for what the player channel delivered: nothing
/// for an empty snapshot, else the chatbox packet.
pub fn datagram_for(update: &Option<PlayerProgress>, filled: usize) -> (d: Option<Vec<u8>>)
    ensures
        update is None <==> d is None,
        d matches Some(bytes) ==> bytes@ == chatbox_packet(update.unwrap()@, filled as nat),
{
    match update {
        Some(data) => Some(chatbox_datagram(data, filled)),
        None => None,
    }
}

/// The sending task's memory: whether a send has succeeded yet.
pub struct SenderState {
    pub connected: bool,
}

/// What the sending task does after a send: the state to report, if any,
/// and whether to stop.
pub struct SendStep {
    pub report: Option<OscConnState>,
    pub stop: bool,
}

/// What the sending task reports after a send: `Connected` on the first
/// success, nothing on a later one, and `Closed` with the error's message
/// on a failure.
pub open spec fn send_report(connected: bool, sent: Result<usize, String>) -> Option<OscConnState> {
    match sent {
        Ok(_) => if connected { None } else { Some(OscConnState::Connected) },
        Err(e) => Some(OscConnState::Closed(Some(e))),
    }
}

/// Whether the task knows itself connected after a send outcome.
pub open spec fn connected_after(connected: bool, ok: bool) -> bool {
    connected || ok
}

impl SenderState {
    /// Nothing sent yet.
    pub fn new() -> (s: Self)
        ensures
            !s.connected,
    {
        SenderState { connected: false }
    }

    /// Decides on the outcome of a send: the first success reports
    /// `Connected`; a failure reports `Closed` with its message and stops.
    pub fn after_send(&mut self, sent: Result<usize, String>) -> (step: SendStep)
        ensures
            final(self).connected == connected_after(old(self).connected, sent is Ok),
            step.report == send_report(old(self).connected, sent),
            step.stop == sent is Err,
    {
        match sent {
            Ok(_) => {
                let report = if !self.connected {
                    Some(OscConnState::Connected)
                } else {
                    None
                };
                self.connected = true;
                SendStep { report, stop: false }
            },
            Err(e) => SendStep { report: Some(OscConnState::Closed(Some(e))), stop: true },
        }
    }

    /// The state reported when the socket cannot be bound or connected: the
    /// task ends at once with that error's message.
    pub fn setup_failed(msg: String) -> (r: OscConnState)
        ensures
            r == OscConnState::Closed(Some(msg)),
    {
        OscConnState::Closed(Some(msg))
    }

    /// The state reported when the task ends, whatever ended it.
    pub fn finish(&self) -> (r: OscConnState)
        ensures
            r == OscConnState::Closed(None),
    {
        OscConnState::Closed(None)
    }
}

/// What a send's outcome makes the task report: a failed send always
/// reports `Closed` with that send's error, whether or not an earlier send
/// succeeded, and never `Connected`; a successful send never reports
/// `Closed`, and reports `Connected` exactly when no send has succeeded
/// before it.
pub proof fn send_outcome_reports(connected: bool, sent: Result<usize, String>)
    ensures
        sent matches Err(e) ==> send_report(connected, sent) == Some(OscConnState::Closed(Some(e))),
        send_report(connected, sent) matches Some(OscConnState::Connected) ==> sent is Ok && !connected,
        send_report(connected, sent) matches Some(OscConnState::Closed(_)) ==> sent is Err,
        !(send_report(connected, sent) matches Some(OscConnState::Connecting)),
        sent is Ok ==> (send_report(connected, sent) is None <==> connected),
{
}

/// The reports of a sending task whose socket is up, for the outcomes of
/// its sends in order: each send's report, until a failure stops the task
/// or the sends run out (the task is shut down), then `finish`'s
/// `Closed(None)`.
pub open spec fn sender_reports(connected: bool, sends: Seq<Result<usize, String>>) -> Seq<OscConnState>
    decreases sends.len(),
{
    if sends.len() == 0 {
        seq![OscConnState::Closed(None)]
    } else {
        let here = match send_report(connected, sends[0]) {
            Some(r) => seq![r],
            None => Seq::empty(),
        };
        if sends[0] is Err {
            here + seq![OscConnState::Closed(None)]
        } else {
            here + sender_reports(connected_after(connected, true), sends.drop_first())
        }
    }
}

/// All that a sending task reports: when its socket cannot be set up, the
/// setup error alone; else the reports of its sends.
pub open spec fn task_reports(setup_error: Option<String>, sends: Seq<Result<usize, String>>) -> Seq<OscConnState> {
    match setup_error {
        Some(e) => seq![OscConnState::Closed(Some(e))],
        None => sender_reports(false, sends),
    }
}

/// What the panel's listener receives: the first `received` reports, in
/// order, then `None` if it then finds the channel closed.
pub open spec fn delivered(reports: Seq<OscConnState>, received: nat, channel_closed: bool) -> Seq<Option<OscConnState>> {
    reports.take(received as int).map_values(|r: OscConnState| Some(r)) + (if channel_closed {
        seq![None]
    } else {
        Seq::empty()
    })
}

/// The states the listener gives its connection, one per report taken in
/// through `apply_report`, up to the first that makes it stop.
pub open spec fn listener_states(reports: Seq<Option<OscConnState>>) -> Seq<OscConnState>
    decreases reports.len(),
{
    if reports.len() == 0 {
        Seq::empty()
    } else if applied_state(reports[0]) is Closed {
        seq![applied_state(reports[0])]
    } else {
        seq![applied_state(reports[0])] + listener_states(reports.drop_first())
    }
}

proof fn sender_reports_shape(connected: bool, sends: Seq<Result<usize, String>>)
    ensures
        sender_reports(connected, sends).len() > 0,
        sender_reports(connected, sends).last() is Closed,
        forall|i: int| 0 <= i < sender_reports(connected, sends).len() ==> !(#[trigger] sender_reports(connected, sends)[i] is Connecting),
        forall|i: int| 0 < i < sender_reports(connected, sends).len() ==> !(#[trigger] sender_reports(connected, sends)[i] is Connected),
        connected ==> forall|i: int| 0 <= i < sender_reports(connected, sends).len() ==> !(#[trigger] sender_reports(connected, sends)[i] is Connected),
        !connected && sends.len() > 0 && sends[0] is Ok ==> sender_reports(connected, sends)[0] is Connected,
    decreases sends.len(),
{
    if sends.len() > 0 && sends[0] is Ok {
        sender_reports_shape(true, sends.drop_first());
    }
}

proof fn listener_states_shape(reports: Seq<Option<OscConnState>>)
    requires
        forall|i: int| 0 <= i < reports.len() ==> !(#[trigger] applied_state(reports[i]) is Connecting),
        forall|i: int| 0 < i < reports.len() ==> !(#[trigger] applied_state(reports[i]) is Connected),
    ensures
        listener_states(reports).len() <= reports.len(),
        forall|i: int| 0 <= i < listener_states(reports).len() ==> #[trigger] listener_states(reports)[i] == applied_state(reports[i]),
        forall|i: int| 0 <= i < listener_states(reports).len() - 1 ==> !(#[trigger] listener_states(reports)[i] is Closed),
        (exists|j: int| 0 <= j < reports.len() && #[trigger] applied_state(reports[j]) is Closed) ==> listener_states(reports).len() > 0
            && listener_states(reports).last() is Closed,
    decreases reports.len(),
{
    if reports.len() > 0 && !(applied_state(reports[0]) is Closed) {
        let rest = reports.drop_first();
        assert forall|i: int| 0 <= i < rest.len() implies !(#[trigger] applied_state(rest[i]) is Connecting) by {
            assert(rest[i] == reports[i + 1]);
        }
        assert forall|i: int| 0 < i < rest.len() implies !(#[trigger] applied_state(rest[i]) is Connected) by {
            assert(rest[i] == reports[i + 1]);
        }
        listener_states_shape(rest);
        if exists|j: int| 0 <= j < reports.len() && #[trigger] applied_state(reports[j]) is Closed {
            let j = choose|j: int| 0 <= j < reports.len() && #[trigger] applied_state(reports[j]) is Closed;
            assert(j > 0);
            assert(rest[j - 1] == reports[j]);
            assert(applied_state(rest[j - 1]) is Closed);
        }
    }
}

/// The life of a connection as its panel sees it. The connection starts
/// `Connecting` (`OscConnection::new`); the sending task reports through
/// `after_send`, `setup_failed` and `finish`; the listener takes each report
/// in with `apply_report` until one makes it stop. Whatever the sends'
/// outcomes, however many reports arrive and whether the channel then
/// closes, the states given to the connection are never `Connecting`
/// again, `Connected` comes at most once and only first, nothing follows a
/// `Closed`, and once every report has arrived or the channel has closed
/// the connection ends `Closed`. When the first send succeeds, the first
/// state is `Connected`.
pub proof fn connection_life(
    setup_error: Option<String>,
    sends: Seq<Result<usize, String>>,
    received: nat,
    channel_closed: bool,
)
    requires
        received <= task_reports(setup_error, sends).len(),
    ensures
        ({
            let states = listener_states(delivered(task_reports(setup_error, sends), received, channel_closed));
            &&& forall|i: int| 0 <= i < states.len() ==> !(#[trigger] states[i] is Connecting)
            &&& forall|i: int| 0 < i < states.len() ==> !(#[trigger] states[i] is Connected)
            &&& forall|i: int| 0 <= i < states.len() - 1 ==> !(#[trigger] states[i] is Closed)
            &&& (channel_closed || received == task_reports(setup_error, sends).len()) ==> states.len() > 0
                && states.last() is Closed
            &&& (setup_error is None && sends.len() > 0 && sends[0] is Ok && received > 0) ==> states[0] is Connected
        }),
{
    let reports = task_reports(setup_error, sends);
    let q = delivered(reports, received, channel_closed);
    if setup_error is None {
        sender_reports_shape(false, sends);
    }
    assert forall|i: int| 0 <= i < received implies #[trigger] q[i] == Some(reports[i]) by {}
    assert(q.len() == received + (if channel_closed { 1int } else { 0int }));
    assert forall|i: int| 0 <= i < q.len() implies !(#[trigger] applied_state(q[i]) is Connecting) by {
        if i < received {
            assert(q[i] == Some(reports[i]));
        }
    }
    assert forall|i: int| 0 < i < q.len() implies !(#[trigger] applied_state(q[i]) is Connected) by {
        if i < received {
            assert(q[i] == Some(reports[i]));
        }
    }
    listener_states_shape(q);
    if channel_closed {
        assert(applied_state(q[q.len() - 1]) is Closed);
    } else if received == reports.len() {
        assert(q[received - 1] == Some(reports[received - 1]));
        assert(applied_state(q[received - 1]) is Closed);
    }
    if setup_error is None && sends.len() > 0 && sends[0] is Ok && received > 0 {
        assert(q[0] == Some(reports[0]));
        let states = listener_states(q);
        assert(states[0] == applied_state(q[0]));
    }
}

} // verus!
