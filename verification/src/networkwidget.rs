//! The Wi-Fi connection manager and its widget.
//!
//! The manager is a state machine. It never talks to the kernel itself: it
//! says which query it wants answered, and is handed the answer.

use vstd::prelude::*;
use crate::network::codec::ByteOrder;
use crate::network::nl80211_stream::{message_of, Event, NlPayload};
use crate::network::query::{
    asks_interface, asks_station, default_interface, fetch_signal, fetch_ssid, first_managed,
    quality, quality_percent, scan_message, signal_of, ssid_of, Request, DUMP_LIMIT,
};
use crate::ui::Alignment;

verus! {

/// The number of ticks between two signal queries.
pub const TICK_PERIOD: u8 = 100;

/// The icon of a link that is down; the icons of a link that is up are
/// numbered below it, weakest first.
pub const ICON_DISCONNECTED: usize = 5;

/// Whether the interface is associated with a network.
#[derive(Clone, Copy, Debug, PartialEq, Eq, Structural)]
pub enum Connection {
    Connected,
    Disconnected,
}

/// A query that the manager wants sent to the kernel.
#[derive(Clone, Copy, Debug, PartialEq, Eq, Structural)]
pub enum NetRequest {
    /// Nothing to ask.
    Nothing,
    /// The network name and the signal of this interface.
    Link(u32),
    /// The signal of this interface only.
    Signal(u32),
}

impl NetRequest {
    /// The requests to send for this query, in the order to send them:
    /// none for nothing, the interface and then its station for a link, the
    /// station alone for a signal.
    pub fn queries(&self, order: ByteOrder) -> (q: Vec<Request>)
        ensures
            match *self {
                NetRequest::Nothing => q@.len() == 0,
                NetRequest::Link(ifindex) => {
                    &&& q@.len() == 2
                    &&& asks_interface(q@[0], order, ifindex)
                    &&& asks_station(q@[1], order, ifindex)
                },
                NetRequest::Signal(ifindex) => {
                    &&& q@.len() == 1
                    &&& asks_station(q@[0], order, ifindex)
                },
            },
    {
        let mut q: Vec<Request> = Vec::new();
        match *self {
            NetRequest::Nothing => {},
            NetRequest::Link(ifindex) => {
                q.push(Request::interface(order, ifindex));
                q.push(Request::station(order, ifindex));
            },
            NetRequest::Signal(ifindex) => {
                q.push(Request::station(order, ifindex));
            },
        }
        q
    }
}

/// The answer to the request at place `i`, or one without payload when
/// fewer answers came.
pub open spec fn answer_at(answers: Seq<NlPayload>, i: int) -> NlPayload {
    if 0 <= i < answers.len() {
        answers[i]
    } else {
        NlPayload::Empty
    }
}

/// Whether `after` is what the answers to a link query make of `before`:
/// the interface is recorded; a name that is not empty brings the link up
/// under it, and without one state and name stay; the signal is then taken
/// by the rule of `signal_after`.
pub open spec fn link_step(
    before: NetworkState,
    ifindex: u32,
    name: Option<Seq<char>>,
    reading: Option<i8>,
    after: NetworkState,
) -> bool {
    &&& after.ifindex == ifindex
    &&& after.ticks == before.ticks
    &&& if name is Some && name.unwrap().len() > 0 {
        after.state == Connection::Connected && after.ssid@ == name.unwrap()
    } else {
        after.state == before.state && after.ssid == before.ssid
    }
    &&& after.signal == signal_after(after.state, before.signal, reading)
}

/// Whether `after` is what the answer to a signal query makes of `before`.
pub open spec fn signal_step(before: NetworkState, reading: Option<i8>, after: NetworkState) -> bool {
    &&& after.ifindex == before.ifindex
    &&& after.ticks == before.ticks
    &&& after.state == before.state
    &&& after.ssid == before.ssid
    &&& after.signal == signal_after(before.state, before.signal, reading)
}

/// What a display needs of the Wi-Fi state.
#[derive(Clone, Debug)]
pub struct WifiSnapshot {
    pub state: Connection,
    pub ssid: String,
    pub signal: usize,
}

/// The Wi-Fi state: connection, network name, signal quality in percent,
/// the interface last heard of and the tick counter.
#[derive(Clone, Debug)]
pub struct NetworkState {
    pub ticks: u8,
    pub ifindex: u32,
    pub state: Connection,
    pub ssid: String,
    pub signal: usize,
}

/// The name shown while the link is down.
pub open spec fn sentinel() -> Seq<char> {
    "Disconnected"@
}

/// Whether a fetched network name counts as one: it is there and not empty.
pub open spec fn names_network(ssid: Option<String>) -> bool {
    ssid matches Some(s) && s@.len() > 0
}

/// The request that a tick fires when the counter stands at `ticks`.
pub open spec fn tick_request(state: Connection, ifindex: u32, ticks: u8) -> NetRequest {
    if ticks + 1 >= TICK_PERIOD && state == Connection::Connected {
        NetRequest::Signal(ifindex)
    } else {
        NetRequest::Nothing
    }
}

/// The counter after a tick at `ticks`.
pub open spec fn next_ticks(ticks: u8) -> u8 {
    if ticks + 1 >= TICK_PERIOD {
        0
    } else {
        (ticks + 1) as u8
    }
}

/// The quality after the answer to a signal query: while the link is up, a
/// signal that was found gives its quality; otherwise the quality stays.
pub open spec fn signal_after(state: Connection, signal: usize, reading: Option<i8>) -> int {
    match reading {
        Some(dbm) => if state == Connection::Connected {
            quality(dbm as int)
        } else {
            signal as int
        },
        None => signal as int,
    }
}

/// A stronger signal never leaves a lower quality behind, whatever the
/// state it is applied to; and while the link is up the quality left behind
/// is the clamped rescale of the signal.
pub proof fn lemma_signal_after(state: Connection, signal: usize, a: i8, b: i8)
    requires
        a <= b,
    ensures
        signal_after(state, signal, Some(a)) <= signal_after(state, signal, Some(b)),
        state == Connection::Connected ==> signal_after(state, signal, Some(a)) == quality(
            a as int,
        ),
        state == Connection::Connected ==> 0 <= signal_after(state, signal, Some(a)) <= 100,
{
}

/// The request that an event of the stream leads to: the link of the
/// interface that a connect names, and nothing otherwise.
pub open spec fn event_request(event: Event) -> NetRequest {
    match event {
        Event::Connect(_, Some(ifindex)) => NetRequest::Link(ifindex),
        _ => NetRequest::Nothing,
    }
}

impl NetworkState {
    /// What holds of every state that the manager produces: the quality is
    /// a percentage, the counter is below its period, a link that is down
    /// shows the sentinel name and no signal, and a link that is up has a
    /// name.
    pub open spec fn wf(&self) -> bool {
        &&& self.signal <= 100
        &&& self.ticks < TICK_PERIOD
        &&& self.state == Connection::Disconnected ==> self.ssid@ == sentinel() && self.signal
            == 0
        &&& self.state == Connection::Connected ==> self.ssid@.len() > 0
    }

    /// Whether the state is the one of a link that is down.
    pub open spec fn is_down(&self) -> bool {
        &&& self.state == Connection::Disconnected
        &&& self.ssid@ == sentinel()
        &&& self.signal == 0
    }

    /// The state at startup, before any answer has come: the link is down,
    /// and `ifindex` is the interface that discovery found, 0 for none.
    pub fn new(ifindex: u32) -> (s: Self)
        ensures
            s.wf(),
            s.is_down(),
            s.ifindex == ifindex,
            s.ticks == 0,
    {
        NetworkState {
            ticks: 0,
            ifindex,
            state: Connection::Disconnected,
            ssid: "Disconnected".to_owned(),
            signal: 0,
        }
    }

    /// What to ask at startup: the link of the interface that discovery
    /// found, or nothing when it found none.
    pub fn startup_request(&self) -> (r: NetRequest)
        ensures
            r == if self.ifindex != 0 {
                NetRequest::Link(self.ifindex)
            } else {
                NetRequest::Nothing
            },
    {
        if self.ifindex != 0 {
            NetRequest::Link(self.ifindex)
        } else {
            NetRequest::Nothing
        }
    }

    /// Picks the default interface out of the answers to an interface dump.
    ///
    /// The answers are taken in order, at most `DUMP_LIMIT` of them. In
    /// each, the interface index is expected before the interface type; the
    /// first answer whose type is station decides, with the index that came
    /// before it. An answer without payload, or with a broken index or type,
    /// is passed over. The result is 0 when no answer decides.
    pub fn get_default_ifindex(order: ByteOrder, dump: &Vec<NlPayload>) -> (ifindex: u32)
        ensures
            ifindex == default_interface(order, dump@),
    {
        let n: usize = if dump.len() <= DUMP_LIMIT {
            dump.len()
        } else {
            DUMP_LIMIT
        };
        let ghost looked = dump@.take(n as int);
        assert(dump@.len() <= DUMP_LIMIT ==> looked =~= dump@);
        assert(default_interface(order, dump@) == first_managed(order, looked));
        assert(looked.skip(0) =~= looked);
        let mut i: usize = 0;
        while i < n
            invariant
                i <= n <= dump@.len(),
                looked == dump@.take(n as int),
                default_interface(order, dump@) == first_managed(order, looked.skip(i as int)),
            decreases n - i,
        {
            proof {
                assert(looked.skip(i as int)[0] == dump@[i as int]);
                assert(looked.skip(i as int).skip(1) =~= looked.skip(i + 1));
            }
            match &dump[i] {
                NlPayload::Payload(m) => {
                    assert(message_of(dump@[i as int]) == Some(m@));
                    match scan_message(order, &m.attrs) {
                        Some(ifindex) => {
                            return ifindex;
                        },
                        None => {},
                    }
                },
                NlPayload::Empty => {},
            }
            i = i + 1;
        }
        0
    }

    /// The link went down: the name is the sentinel again and the signal 0.
    /// The interface and the tick counter stay.
    pub fn disconnected(&mut self)
        ensures
            final(self).is_down(),
            final(self).ifindex == old(self).ifindex,
            final(self).ticks == old(self).ticks,
            old(self).wf() ==> final(self).wf(),
    {
        self.state = Connection::Disconnected;
        self.signal = 0;
        self.ssid = "Disconnected".to_owned();
    }

    /// Takes the answer to the name query for `ifindex`. The interface is
    /// recorded. With a name that is not empty the link is up under that
    /// name. Without one, because the answer had no payload, no name in it
    /// or a broken one, state and name stay as they were. The quality stays
    /// either way.
    pub fn set_ssid(&mut self, ifindex: u32, ssid: Option<String>)
        ensures
            final(self).ifindex == ifindex,
            final(self).ticks == old(self).ticks,
            final(self).signal == old(self).signal,
            names_network(ssid) ==> {
                &&& final(self).state == Connection::Connected
                &&& final(self).ssid@ == ssid.unwrap()@
            },
            !names_network(ssid) ==> {
                &&& final(self).state == old(self).state
                &&& final(self).ssid == old(self).ssid
            },
            old(self).wf() ==> final(self).wf(),
    {
        self.ifindex = ifindex;
        match ssid {
            Some(name) => {
                if !name.as_str().is_empty() {
                    self.state = Connection::Connected;
                    self.ssid = name;
                }
            },
            None => {},
        }
    }

    /// Takes the answer to a signal query. While the link is up, a signal
    /// that was found replaces the quality; otherwise nothing changes.
    pub fn set_wifi_quality(&mut self, signal: Option<i8>)
        ensures
            final(self).state == old(self).state,
            final(self).ssid == old(self).ssid,
            final(self).ifindex == old(self).ifindex,
            final(self).ticks == old(self).ticks,
            final(self).signal == signal_after(old(self).state, old(self).signal, signal),
            old(self).wf() ==> final(self).wf(),
    {
        match signal {
            Some(dbm) => {
                match self.state {
                    Connection::Connected => {
                        self.signal = quality_percent(dbm as i32);
                    },
                    Connection::Disconnected => {},
                }
            },
            None => {},
        }
    }

    /// A connect notification for `ifindex` was answered: `ssid` and
    /// `signal` are what the two queries gave. The name is taken as by
    /// `set_ssid`, then the signal as by `set_wifi_quality`: with a name the
    /// link is up, with the quality of the signal if one was found; without
    /// a name state and name stay, and a link that is down stays down.
    pub fn connected(&mut self, ifindex: u32, ssid: Option<String>, signal: Option<i8>)
        ensures
            final(self).ifindex == ifindex,
            final(self).ticks == old(self).ticks,
            names_network(ssid) ==> {
                &&& final(self).state == Connection::Connected
                &&& final(self).ssid@ == ssid.unwrap()@
            },
            !names_network(ssid) ==> {
                &&& final(self).state == old(self).state
                &&& final(self).ssid == old(self).ssid
            },
            final(self).signal == signal_after(final(self).state, old(self).signal, signal),
            old(self).wf() ==> final(self).wf(),
    {
        self.set_ssid(ifindex, ssid);
        self.set_wifi_quality(signal);
    }

    /// Takes the answers to the requests of `request`, one for each request
    /// and in their order. An answer that is missing counts as one without
    /// payload. An answer without payload, without the attribute asked for
    /// or with a broken one changes nothing of what it was asked for.
    pub fn answered(&mut self, request: NetRequest, order: ByteOrder, answers: &Vec<NlPayload>)
        ensures
            match request {
                NetRequest::Nothing => *final(self) == *old(self),
                NetRequest::Link(ifindex) => link_step(
                    *old(self),
                    ifindex,
                    ssid_of(answer_at(answers@, 0)),
                    signal_of(order, answer_at(answers@, 1)),
                    *final(self),
                ),
                NetRequest::Signal(_) => signal_step(
                    *old(self),
                    signal_of(order, answer_at(answers@, 0)),
                    *final(self),
                ),
            },
            old(self).wf() ==> final(self).wf(),
    {
        match request {
            NetRequest::Nothing => {},
            NetRequest::Link(ifindex) => {
                let ssid = if answers.len() > 0 {
                    fetch_ssid(&answers[0])
                } else {
                    None
                };
                let signal = if answers.len() > 1 {
                    fetch_signal(order, &answers[1])
                } else {
                    None
                };
                self.connected(ifindex, ssid, signal);
            },
            NetRequest::Signal(_) => {
                let signal = if answers.len() > 0 {
                    fetch_signal(order, &answers[0])
                } else {
                    None
                };
                self.set_wifi_quality(signal);
            },
        }
    }

    /// Counts one tick. Every `TICK_PERIOD`th tick the counter starts over
    /// and, while the link is up, the signal is asked for again.
    pub fn tick(&mut self) -> (r: NetRequest)
        ensures
            r == tick_request(old(self).state, old(self).ifindex, old(self).ticks),
            final(self).ticks == next_ticks(old(self).ticks),
            final(self).state == old(self).state,
            final(self).ssid == old(self).ssid,
            final(self).signal == old(self).signal,
            final(self).ifindex == old(self).ifindex,
            old(self).wf() ==> final(self).wf(),
    {
        if self.ticks >= TICK_PERIOD - 1 {
            self.ticks = 0;
            match self.state {
                Connection::Connected => NetRequest::Signal(self.ifindex),
                Connection::Disconnected => NetRequest::Nothing,
            }
        } else {
            self.ticks = self.ticks + 1;
            NetRequest::Nothing
        }
    }

    /// Takes one event of the stream. A connect that names its interface
    /// asks for that link and changes nothing yet; a disconnect takes the
    /// link down; every other event, a connect without interface among
    /// them, changes nothing.
    pub fn handle(&mut self, event: Event) -> (r: NetRequest)
        ensures
            r == event_request(event),
            final(self).ifindex == old(self).ifindex,
            final(self).ticks == old(self).ticks,
            event is Disconnect ==> final(self).is_down(),
            !(event is Disconnect) ==> *final(self) == *old(self),
            old(self).wf() ==> final(self).wf(),
    {
        match event {
            Event::Connect(_, Some(ifindex)) => NetRequest::Link(ifindex),
            Event::Disconnect => {
                self.disconnected();
                NetRequest::Nothing
            },
            _ => NetRequest::Nothing,
        }
    }

    /// A copy of what a display needs.
    pub fn snapshot(&self) -> (snap: WifiSnapshot)
        ensures
            snap.state == self.state,
            snap.ssid@ == self.ssid@,
            snap.signal == self.signal,
    {
        WifiSnapshot { state: self.state, ssid: self.ssid.clone(), signal: self.signal }
    }
}

/// The Wi-Fi widget: where it draws, and which icon it shows.
#[derive(Clone, Copy, Debug)]
pub struct NetworkWidget {
    alignment: Alignment,
}

/// The icon for a state: one of five levels by quality while the link is up,
/// and the icon of a link that is down otherwise.
pub open spec fn network_icon(state: Connection, signal: usize) -> int {
    match state {
        Connection::Connected => if signal / 25 > 4 {
            4
        } else {
            signal as int / 25
        },
        Connection::Disconnected => ICON_DISCONNECTED as int,
    }
}

impl NetworkWidget {
    /// The alignment of the widget.
    pub closed spec fn spec_alignment(&self) -> Alignment {
        self.alignment
    }

    /// A widget that draws from the left.
    pub fn new() -> (w: Self)
        ensures
            w.spec_alignment() == Alignment::Left,
    {
        NetworkWidget { alignment: Alignment::Left }
    }

    /// Makes the widget draw from the right.
    pub fn right_aligned(&mut self)
        ensures
            final(self).spec_alignment() == Alignment::Right,
    {
        self.alignment = Alignment::Right;
    }

    /// The alignment of the widget.
    pub fn alignment(&self) -> (a: Alignment)
        ensures
            a == self.spec_alignment(),
    {
        self.alignment
    }

    /// The number of the icon to draw for `state`.
    pub fn icon(&self, state: &NetworkState) -> (i: usize)
        ensures
            i == network_icon(state.state, state.signal),
            i <= ICON_DISCONNECTED,
    {
        match state.state {
            Connection::Connected => {
                let level: usize = state.signal / 25;
                if level > 4 {
                    4
                } else {
                    level
                }
            },
            Connection::Disconnected => ICON_DISCONNECTED,
        }
    }
}

} // verus!
