use statusbar::network::codec::{encode_u32, Attr, ByteOrder};
use statusbar::network::eventstream::EventStream;
use statusbar::network::nl80211_stream::{
    Event, GenlMessage, Nl80211Command, NlPayload,
};
use statusbar::network::codec::NetError;
use statusbar::network::query::{
    fetch_signal, fetch_ssid, quality_percent, scan_message, Endpoint, Request, DUMP_LIMIT,
    FAMILY_NAME, GROUP_NAME,
};
use statusbar::networkwidget::{Connection, NetRequest, NetworkState, NetworkWidget};
use statusbar::ui::Alignment;

fn interface(ifindex: u32, iftype: u16) -> NlPayload {
    NlPayload::Payload(GenlMessage {
        cmd: Nl80211Command::GetInterface,
        version: 1,
        attrs: vec![
            Attr { kind: 3, payload: ifindex.to_le_bytes().to_vec() },
            Attr { kind: 5, payload: iftype.to_le_bytes().to_vec() },
        ],
    })
}

fn answer(attrs: Vec<Attr>) -> NlPayload {
    NlPayload::Payload(GenlMessage { cmd: Nl80211Command::GetInterface, version: 1, attrs })
}

fn station(signal: u8) -> NlPayload {
    // The signal, one byte padded to a word, inside the station group.
    let nested = vec![8, 0, 1, 0, 0x10, 0, 0, 0, 5, 0, 7, 0, signal, 0, 0, 0];
    answer(vec![
        Attr { kind: 3, payload: vec![5, 0, 0, 0] },
        Attr { kind: 21, payload: nested },
    ])
}

#[test]
fn quality_is_the_clamped_rescale() {
    assert_eq!(quality_percent(-60), 80);
    assert_eq!(quality_percent(-100), 0);
    assert_eq!(quality_percent(-50), 100);
    assert_eq!(quality_percent(-75), 50);
    assert_eq!(quality_percent(-99), 2);
    assert_eq!(quality_percent(-51), 98);
    assert_eq!(quality_percent(-150), 0);
    assert_eq!(quality_percent(0), 100);
    assert_eq!(quality_percent(-128), 0);
    assert_eq!(quality_percent(127), 100);
    assert_eq!(quality_percent(i32::MIN), 0);
    assert_eq!(quality_percent(i32::MAX), 100);
}

#[test]
fn quality_matches_the_formula_and_never_falls() {
    let mut last = 0usize;
    for dbm in -150..=0i32 {
        let q = quality_percent(dbm);
        assert_eq!(q as i32, (2 * (dbm + 100)).clamp(0, 100));
        assert!(q >= last);
        last = q;
    }
}

#[test]
fn default_interface_is_the_first_managed_one() {
    let dump = vec![interface(3, 1), interface(7, 2), interface(9, 2)];
    assert_eq!(NetworkState::get_default_ifindex(ByteOrder::Little, &dump), 7);
}

#[test]
fn default_interface_is_zero_without_managed_one() {
    let dump = vec![interface(3, 1), interface(7, 3)];
    assert_eq!(NetworkState::get_default_ifindex(ByteOrder::Little, &dump), 0);
    assert_eq!(NetworkState::get_default_ifindex(ByteOrder::Little, &Vec::new()), 0);
}

#[test]
fn default_interface_reads_the_given_byte_order() {
    let dump = vec![answer(vec![
        Attr { kind: 3, payload: vec![0, 0, 0, 4] },
        Attr { kind: 5, payload: vec![0, 2] },
    ])];
    assert_eq!(NetworkState::get_default_ifindex(ByteOrder::Big, &dump), 4);
    assert_eq!(NetworkState::get_default_ifindex(ByteOrder::Little, &dump), 0);
}

#[test]
fn default_interface_passes_over_answers_without_payload() {
    let dump = vec![NlPayload::Empty, interface(7, 2)];
    assert_eq!(NetworkState::get_default_ifindex(ByteOrder::Little, &dump), 7);
}

#[test]
fn default_interface_passes_over_broken_answers() {
    let broken = answer(vec![
        Attr { kind: 3, payload: vec![3, 0] },
        Attr { kind: 5, payload: vec![2, 0] },
    ]);
    let dump = vec![broken, interface(9, 2)];
    assert_eq!(NetworkState::get_default_ifindex(ByteOrder::Little, &dump), 9);
}

#[test]
fn default_interface_wants_the_index_before_the_type() {
    // The type comes first: the index seen so far is none, so 0 decides.
    let swapped = answer(vec![
        Attr { kind: 5, payload: vec![2, 0] },
        Attr { kind: 3, payload: vec![3, 0, 0, 0] },
    ]);
    assert_eq!(
        NetworkState::get_default_ifindex(ByteOrder::Little, &vec![swapped, interface(9, 2)]),
        0
    );
}

#[test]
fn default_interface_takes_the_index_seen_last() {
    let m = answer(vec![
        Attr { kind: 3, payload: vec![3, 0, 0, 0] },
        Attr { kind: 2, payload: b"phy0".to_vec() },
        Attr { kind: 3, payload: vec![4, 0, 0, 0] },
        Attr { kind: 5, payload: vec![2, 0] },
    ]);
    assert_eq!(NetworkState::get_default_ifindex(ByteOrder::Little, &vec![m]), 4);
}

#[test]
fn default_interface_looks_at_a_bounded_number_of_answers() {
    let mut dump = Vec::new();
    for i in 0..DUMP_LIMIT {
        dump.push(interface(i as u32 + 1, 1));
    }
    dump.push(interface(999, 2));
    assert_eq!(NetworkState::get_default_ifindex(ByteOrder::Little, &dump), 0);
    dump.remove(0);
    assert_eq!(NetworkState::get_default_ifindex(ByteOrder::Little, &dump), 999);
}

#[test]
fn scan_message_of_one_answer() {
    assert_eq!(scan_message(ByteOrder::Little, &Vec::new()), None);
    let attrs = vec![
        Attr { kind: 3, payload: vec![6, 0, 0, 0] },
        Attr { kind: 5, payload: vec![2, 0] },
    ];
    assert_eq!(scan_message(ByteOrder::Little, &attrs), Some(6));
}

#[test]
fn ssid_is_read_from_the_answer() {
    let a = answer(vec![
        Attr { kind: 3, payload: vec![5, 0, 0, 0] },
        Attr { kind: 52, payload: b"HomeNet".to_vec() },
    ]);
    assert_eq!(fetch_ssid(&a), Some("HomeNet".to_string()));
}

#[test]
fn ssid_absent_is_none() {
    let a = answer(vec![Attr { kind: 3, payload: vec![5, 0, 0, 0] }]);
    assert_eq!(fetch_ssid(&a), None);
    assert_eq!(fetch_ssid(&NlPayload::Empty), None);
    let bad = answer(vec![Attr { kind: 52, payload: vec![0xff] }]);
    assert_eq!(fetch_ssid(&bad), None);
}

#[test]
fn signal_is_read_from_the_station_group() {
    assert_eq!(fetch_signal(ByteOrder::Little, &station(0xc4)), Some(-60));
    assert_eq!(fetch_signal(ByteOrder::Little, &station(0xa6)), Some(-90));
}

#[test]
fn signal_absent_is_none() {
    assert_eq!(fetch_signal(ByteOrder::Little, &NlPayload::Empty), None);
    let no_group = answer(vec![Attr { kind: 3, payload: vec![5, 0, 0, 0] }]);
    assert_eq!(fetch_signal(ByteOrder::Little, &no_group), None);
    let no_signal = answer(vec![Attr { kind: 21, payload: vec![8, 0, 1, 0, 0, 0, 0, 0] }]);
    assert_eq!(fetch_signal(ByteOrder::Little, &no_signal), None);
    let broken_group = answer(vec![Attr { kind: 21, payload: vec![9, 0, 7, 0, 1] }]);
    assert_eq!(fetch_signal(ByteOrder::Little, &broken_group), None);
    let wide_signal = answer(vec![Attr { kind: 21, payload: vec![6, 0, 7, 0, 1, 2, 0, 0] }]);
    assert_eq!(fetch_signal(ByteOrder::Little, &wide_signal), None);
}

#[test]
fn requests_carry_command_flags_and_filter() {
    let dump = Request::interface_dump();
    assert_eq!(dump.cmd, Nl80211Command::GetInterface);
    assert_eq!(dump.flags, 0x301);
    assert_eq!(dump.encode(), vec![5, 1, 0, 0]);

    let one = Request::interface(ByteOrder::Little, 7);
    assert_eq!(one.cmd, Nl80211Command::GetInterface);
    assert_eq!(one.flags, 1);
    assert_eq!(one.encode(), vec![5, 1, 0, 0, 8, 0, 3, 0, 7, 0, 0, 0]);

    let sta = Request::station(ByteOrder::Big, 7);
    assert_eq!(sta.cmd, Nl80211Command::GetStation);
    assert_eq!(sta.flags, 1);
    assert_eq!(sta.encode(), vec![17, 1, 0, 0, 0, 8, 0, 3, 0, 0, 0, 7]);
}

#[test]
fn requests_say_how_many_answers_to_read() {
    assert_eq!(Request::interface_dump().answer_limit(), DUMP_LIMIT);
    assert_eq!(Request::interface(ByteOrder::Little, 7).answer_limit(), 1);
    assert_eq!(Request::station(ByteOrder::Little, 7).answer_limit(), 1);
    let half = Request { cmd: Nl80211Command::GetInterface, flags: 0x0101, attrs: Vec::new() };
    assert_eq!(half.answer_limit(), 1);
}

#[test]
fn endpoint_needs_both_ids() {
    assert_eq!(Endpoint::resolve(Some(28), Some(5)), Ok(Endpoint { family: 28, group: 5 }));
    assert_eq!(Endpoint::resolve(None, Some(5)), Err(NetError::TransportUnavailable));
    assert_eq!(Endpoint::resolve(Some(28), None), Err(NetError::TransportUnavailable));
    assert_eq!(Endpoint::resolve(None, None), Err(NetError::TransportUnavailable));
    assert_eq!(FAMILY_NAME, "nl80211");
    assert_eq!(GROUP_NAME, "mlme");
}

#[test]
fn request_decodes_as_the_message_it_is() {
    let raw = Request::station(ByteOrder::Little, 12).encode();
    let m = GenlMessage::decode(ByteOrder::Little, &raw).unwrap();
    assert_eq!(m.cmd, Nl80211Command::GetStation);
    assert_eq!(m.version, 1);
    assert_eq!(m.attrs.len(), 1);
    assert_eq!(m.attrs[0].kind, 3);
    assert_eq!(m.attrs[0].payload, 12u32.to_le_bytes().to_vec());
}

#[test]
fn manager_starts_disconnected() {
    let state = NetworkState::new(0);
    assert_eq!(state.state, Connection::Disconnected);
    assert_eq!(state.ssid, "Disconnected");
    assert_eq!(state.signal, 0);
    assert_eq!(state.startup_request(), NetRequest::Nothing);
    assert_eq!(NetworkState::new(4).startup_request(), NetRequest::Link(4));
}

#[test]
fn manager_connects_and_disconnects() {
    let mut state = NetworkState::new(0);
    let request = state.handle(Event::Connect(Some(0), Some(5)));
    assert_eq!(request, NetRequest::Link(5));
    assert_eq!(state.state, Connection::Disconnected);

    let ssid = fetch_ssid(&answer(vec![Attr { kind: 52, payload: b"HomeNet".to_vec() }]));
    let signal = fetch_signal(ByteOrder::Little, &station(0xc4));
    assert_eq!(ssid, Some("HomeNet".to_string()));
    assert_eq!(signal, Some(-60));
    state.connected(5, ssid, signal);
    let snap = state.snapshot();
    assert_eq!(snap.state, Connection::Connected);
    assert_eq!(snap.ssid, "HomeNet");
    assert_eq!(snap.signal, 80);
    assert_eq!(state.ifindex, 5);

    assert_eq!(state.handle(Event::Disconnect), NetRequest::Nothing);
    let snap = state.snapshot();
    assert_eq!(snap.state, Connection::Disconnected);
    assert_eq!(snap.ssid, "Disconnected");
    assert_eq!(snap.signal, 0);
}

#[test]
fn manager_follows_the_event_stream() {
    let stream = EventStream::new(ByteOrder::Little);
    let mut state = NetworkState::new(0);
    let mut raw = vec![46u8, 1, 0, 0];
    raw.extend(encode_u32(ByteOrder::Little, 3, 5));
    let event = stream.decode_next(&raw).unwrap();
    assert_eq!(state.handle(event), NetRequest::Link(5));
}

#[test]
fn manager_ignores_events_without_interface() {
    let mut state = NetworkState::new(3);
    state.connected(3, Some("Cafe".to_string()), Some(-70));
    for event in [
        Event::Connect(Some(1), None),
        Event::Connect(None, None),
        Event::Unspecified,
        Event::GetWiPhy,
        Event::GetInterface,
        Event::UnrecognizedConst(200),
    ] {
        assert_eq!(state.handle(event), NetRequest::Nothing);
        assert_eq!(state.state, Connection::Connected);
        assert_eq!(state.ssid, "Cafe");
        assert_eq!(state.signal, 60);
        assert_eq!(state.ifindex, 3);
    }
}

#[test]
fn manager_stays_down_without_a_name() {
    let mut state = NetworkState::new(0);
    state.connected(5, None, Some(-60));
    assert_eq!(state.state, Connection::Disconnected);
    assert_eq!(state.ssid, "Disconnected");
    assert_eq!(state.signal, 0);
    assert_eq!(state.ifindex, 5);

    state.connected(5, Some(String::new()), Some(-60));
    assert_eq!(state.state, Connection::Disconnected);
    assert_eq!(state.ssid, "Disconnected");
    assert_eq!(state.signal, 0);

    state.connected(5, Some("Net".to_string()), None);
    assert_eq!(state.state, Connection::Connected);
    assert_eq!(state.signal, 0);
}

#[test]
fn manager_stays_up_when_an_answer_has_no_name() {
    let mut state = NetworkState::new(0);
    state.connected(5, Some("Net".to_string()), Some(-60));

    state.set_ssid(6, None);
    assert_eq!(state.state, Connection::Connected);
    assert_eq!(state.ssid, "Net");
    assert_eq!(state.signal, 80);
    assert_eq!(state.ifindex, 6);

    state.set_ssid(7, Some(String::new()));
    assert_eq!(state.state, Connection::Connected);
    assert_eq!(state.ssid, "Net");
    assert_eq!(state.signal, 80);

    state.connected(8, None, None);
    assert_eq!(state.state, Connection::Connected);
    assert_eq!(state.ssid, "Net");
    assert_eq!(state.signal, 80);
    assert_eq!(state.ifindex, 8);

    state.connected(8, None, Some(-70));
    assert_eq!(state.state, Connection::Connected);
    assert_eq!(state.ssid, "Net");
    assert_eq!(state.signal, 60);

    state.set_ssid(8, Some("Other".to_string()));
    assert_eq!(state.ssid, "Other");
    assert_eq!(state.signal, 60);
}

#[test]
fn manager_keeps_state_and_name_over_answers_without_ssid() {
    let connected = || {
        let mut state = NetworkState::new(0);
        state.connected(5, Some("HomeNet".to_string()), Some(-60));
        state
    };
    let without_payload = NlPayload::Empty;
    let without_ssid = answer(vec![Attr { kind: 3, payload: vec![5, 0, 0, 0] }]);
    for first in [without_payload, without_ssid] {
        let mut state = connected();
        assert_eq!(fetch_ssid(&first), None);
        state.set_ssid(5, fetch_ssid(&first));
        assert_eq!(state.state, Connection::Connected);
        assert_eq!(state.ssid, "HomeNet");
        assert_eq!(state.signal, 80);

        let mut state = connected();
        state.answered(NetRequest::Link(5), ByteOrder::Little, &vec![first, NlPayload::Empty]);
        assert_eq!(state.state, Connection::Connected);
        assert_eq!(state.ssid, "HomeNet");
        assert_eq!(state.signal, 80);
    }
}

#[test]
fn manager_keeps_state_and_name_over_an_overlong_ssid() {
    // The answer to the interface request: its SSID attribute declares 20
    // bytes, the message holds 12 behind the header.
    let raw = [5u8, 1, 0, 0, 20, 0, 52, 0, b'H', b'o', b'm', b'e', b'N', b'e', b't', 0];
    assert_eq!(
        GenlMessage::decode(ByteOrder::Little, &raw).err(),
        Some(NetError::MalformedMessage)
    );
    let first = NlPayload::decode(ByteOrder::Little, Some(&raw));
    assert_eq!(fetch_ssid(&first), None);

    let mut state = NetworkState::new(0);
    state.connected(5, Some("Cafe".to_string()), Some(-70));
    state.set_ssid(5, fetch_ssid(&first));
    assert_eq!(state.state, Connection::Connected);
    assert_eq!(state.ssid, "Cafe");
    assert_eq!(state.signal, 60);

    let mut down = NetworkState::new(0);
    down.answered(NetRequest::Link(5), ByteOrder::Little, &vec![first, station(0xc4)]);
    assert_eq!(down.state, Connection::Disconnected);
    assert_eq!(down.ssid, "Disconnected");
    assert_eq!(down.signal, 0);
    assert_eq!(down.ifindex, 5);
}

#[test]
fn queries_name_the_requests_to_send() {
    assert!(NetRequest::Nothing.queries(ByteOrder::Little).is_empty());

    let link = NetRequest::Link(7).queries(ByteOrder::Little);
    assert_eq!(link.len(), 2);
    assert_eq!(link[0].cmd, Nl80211Command::GetInterface);
    assert_eq!(link[0].flags, 1);
    assert_eq!(link[0].attrs, vec![8, 0, 3, 0, 7, 0, 0, 0]);
    assert_eq!(link[1].cmd, Nl80211Command::GetStation);
    assert_eq!(link[1].flags, 1);
    assert_eq!(link[1].attrs, vec![8, 0, 3, 0, 7, 0, 0, 0]);

    let signal = NetRequest::Signal(9).queries(ByteOrder::Big);
    assert_eq!(signal.len(), 1);
    assert_eq!(signal[0].cmd, Nl80211Command::GetStation);
    assert_eq!(signal[0].flags, 1);
    assert_eq!(signal[0].attrs, vec![0, 8, 0, 3, 0, 0, 0, 9]);
}

#[test]
fn answers_are_applied_in_the_order_of_the_requests() {
    let name = answer(vec![Attr { kind: 52, payload: b"HomeNet".to_vec() }]);
    let mut state = NetworkState::new(0);
    state.answered(NetRequest::Link(5), ByteOrder::Little, &vec![name, station(0xc4)]);
    assert_eq!(state.state, Connection::Connected);
    assert_eq!(state.ssid, "HomeNet");
    assert_eq!(state.signal, 80);
    assert_eq!(state.ifindex, 5);

    state.answered(NetRequest::Signal(5), ByteOrder::Little, &vec![station(0xa6)]);
    assert_eq!(state.signal, 20);
    assert_eq!(state.ssid, "HomeNet");

    state.answered(NetRequest::Signal(5), ByteOrder::Little, &Vec::new());
    assert_eq!(state.signal, 20);
    state.answered(NetRequest::Signal(5), ByteOrder::Little, &vec![NlPayload::Empty]);
    assert_eq!(state.signal, 20);
    state.answered(NetRequest::Nothing, ByteOrder::Little, &vec![station(0xc4)]);
    assert_eq!(state.signal, 20);

    // A name without a second answer: the link is up, the quality stays.
    let name = answer(vec![Attr { kind: 52, payload: b"Lab".to_vec() }]);
    state.answered(NetRequest::Link(6), ByteOrder::Little, &vec![name]);
    assert_eq!(state.ssid, "Lab");
    assert_eq!(state.signal, 20);
    assert_eq!(state.ifindex, 6);
}

#[test]
fn quality_after_a_reading_never_falls_with_the_signal() {
    for up in [true, false] {
        let mut last = 0usize;
        for dbm in -128..=0i8 {
            let mut state = NetworkState::new(5);
            if up {
                state.connected(5, Some("Net".to_string()), None);
            }
            state.set_wifi_quality(Some(dbm));
            if up {
                assert_eq!(state.signal as i32, (2 * (dbm as i32 + 100)).clamp(0, 100));
            } else {
                assert_eq!(state.signal, 0);
            }
            assert!(state.signal >= last);
            last = state.signal;
        }
    }
}

#[test]
fn manager_asks_for_the_signal_every_hundredth_tick() {
    let mut state = NetworkState::new(5);
    state.connected(5, Some("HomeNet".to_string()), Some(-60));
    for round in 0..3 {
        for i in 1..=100 {
            let request = state.tick();
            if i == 100 {
                assert_eq!(request, NetRequest::Signal(5), "round {}", round);
            } else {
                assert_eq!(request, NetRequest::Nothing);
            }
        }
    }
    state.set_wifi_quality(Some(-55));
    assert_eq!(state.signal, 90);
    assert_eq!(state.ssid, "HomeNet");
    state.set_wifi_quality(None);
    assert_eq!(state.signal, 90);
}

#[test]
fn manager_asks_nothing_while_down() {
    let mut state = NetworkState::new(5);
    for _ in 0..250 {
        assert_eq!(state.tick(), NetRequest::Nothing);
    }
    state.set_wifi_quality(Some(-55));
    assert_eq!(state.signal, 0);
}

#[test]
fn set_ssid_records_interface_and_name() {
    let mut state = NetworkState::new(0);
    state.set_ssid(8, Some("Lab".to_string()));
    assert_eq!(state.ifindex, 8);
    assert_eq!(state.state, Connection::Connected);
    assert_eq!(state.ssid, "Lab");
    state.disconnected();
    assert_eq!(state.ifindex, 8);
    assert_eq!(state.ssid, "Disconnected");
}

#[test]
fn network_icon_follows_the_quality() {
    let mut widget = NetworkWidget::new();
    assert_eq!(widget.alignment(), Alignment::Left);
    widget.right_aligned();
    assert_eq!(widget.alignment(), Alignment::Right);

    let mut state = NetworkState::new(0);
    assert_eq!(widget.icon(&state), 5);
    state.connected(1, Some("n".to_string()), Some(-100));
    assert_eq!(widget.icon(&state), 0);
    state.set_wifi_quality(Some(-88));
    assert_eq!(widget.icon(&state), 0);
    state.set_wifi_quality(Some(-87));
    assert_eq!(widget.icon(&state), 1);
    state.set_wifi_quality(Some(-75));
    assert_eq!(widget.icon(&state), 2);
    state.set_wifi_quality(Some(-60));
    assert_eq!(widget.icon(&state), 3);
    state.set_wifi_quality(Some(-50));
    assert_eq!(widget.icon(&state), 4);
}
