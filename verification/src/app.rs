//! The application state and the one place where events change it.

use vstd::prelude::*;
use crate::batterywidget::{BatteryState, REFRESH_PERIOD};
use crate::event::Event;
use crate::hyprlandwidget::{workspace_step, HyprlandEvent, HyprlandState};
use crate::network::nl80211_stream::Event as NetEvent;
use crate::networkwidget::{event_request, next_ticks, tick_request, NetRequest, NetworkState};
use crate::pipemon::PipeWireEvent;
use crate::pipewirewidget::{audio_step, PipewireState};

verus! {

/// What an event asks of the application.
#[derive(Clone, Debug)]
pub enum Action {
    Render,
    UpdateHyprlandState(HyprlandEvent),
    UpdatePipeWireState(PipeWireEvent),
    UpdateNetworkState(NetEvent),
    Tick,
    /// Nothing to do.
    Nothing,
}

/// What the caller has to do after an action: read the battery again, and
/// send a query to the kernel.
#[derive(Clone, Copy, Debug, PartialEq, Eq, Structural)]
pub struct Effects {
    pub refresh_battery: bool,
    pub network: NetRequest,
}

/// The state of the whole bar.
#[derive(Clone, Debug)]
pub struct App {
    pub running: bool,
    pub hyprland_state: HyprlandState,
    pub battery_state: BatteryState,
    pub pipwire_state: PipewireState,
    pub network_state: NetworkState,
}

/// The action that an event asks for: mouse and resize events ask for
/// nothing, every other event for the action of its name.
pub open spec fn action_of(event: Event) -> Action {
    match event {
        Event::Tick => Action::Tick,
        Event::Render => Action::Render,
        Event::Mouse(_, _) => Action::Nothing,
        Event::Resize(_, _) => Action::Nothing,
        Event::UpdateHyprlandState(e) => Action::UpdateHyprlandState(e),
        Event::UpdatePipeWireState(e) => Action::UpdatePipeWireState(e),
        Event::UpdateNetworkState(e) => Action::UpdateNetworkState(e),
    }
}

/// Whether `after` and `effects` are what `action` makes of `before`.
pub open spec fn app_step(before: App, action: Action, after: App, effects: Effects) -> bool {
    &&& after.running == before.running
    &&& match action {
        Action::UpdateHyprlandState(e) => {
            &&& workspace_step(before.hyprland_state, e, after.hyprland_state)
            &&& after.battery_state == before.battery_state
            &&& after.pipwire_state == before.pipwire_state
            &&& after.network_state == before.network_state
            &&& effects == Effects { refresh_battery: false, network: NetRequest::Nothing }
        },
        Action::UpdatePipeWireState(e) => {
            &&& audio_step(before.pipwire_state, e, after.pipwire_state)
            &&& after.hyprland_state == before.hyprland_state
            &&& after.battery_state == before.battery_state
            &&& after.network_state == before.network_state
            &&& effects == Effects { refresh_battery: false, network: NetRequest::Nothing }
        },
        Action::UpdateNetworkState(e) => {
            &&& after.hyprland_state == before.hyprland_state
            &&& after.battery_state == before.battery_state
            &&& after.pipwire_state == before.pipwire_state
            &&& after.network_state.ifindex == before.network_state.ifindex
            &&& after.network_state.ticks == before.network_state.ticks
            &&& if e is Disconnect {
                after.network_state.is_down()
            } else {
                after.network_state == before.network_state
            }
            &&& effects == Effects { refresh_battery: false, network: event_request(e) }
        },
        Action::Tick => {
            &&& after.hyprland_state == before.hyprland_state
            &&& after.pipwire_state == before.pipwire_state
            &&& after.battery_state.capacity == before.battery_state.capacity
            &&& after.battery_state.state == before.battery_state.state
            &&& after.battery_state.ticks == if effects.refresh_battery {
                0
            } else {
                before.battery_state.ticks + 1
            }
            &&& after.network_state.state == before.network_state.state
            &&& after.network_state.ssid == before.network_state.ssid
            &&& after.network_state.signal == before.network_state.signal
            &&& after.network_state.ifindex == before.network_state.ifindex
            &&& after.network_state.ticks == next_ticks(before.network_state.ticks)
            &&& effects == Effects {
                refresh_battery: before.battery_state.ticks + 1 >= REFRESH_PERIOD,
                network: tick_request(
                    before.network_state.state,
                    before.network_state.ifindex,
                    before.network_state.ticks,
                ),
            }
        },
        Action::Render => {
            &&& after == before
            &&& effects == Effects { refresh_battery: false, network: NetRequest::Nothing }
        },
        Action::Nothing => {
            &&& after == before
            &&& effects == Effects { refresh_battery: false, network: NetRequest::Nothing }
        },
    }
}

impl App {
    /// What the methods keep: each part is well formed.
    pub open spec fn wf(&self) -> bool {
        &&& self.hyprland_state.wf()
        &&& self.battery_state.wf()
        &&& self.network_state.wf()
    }

    /// The application, running, around the states that startup found.
    pub fn new(
        hyprland_state: HyprlandState,
        battery_state: BatteryState,
        network_state: NetworkState,
    ) -> (app: Self)
        ensures
            app.running,
            app.hyprland_state == hyprland_state,
            app.battery_state == battery_state,
            app.network_state == network_state,
            app.pipwire_state.volume == 100,
            !app.pipwire_state.muted,
            app.pipwire_state.default_sink_name@ == Seq::<char>::empty(),
            app.pipwire_state.default_sink_id == 0,
    {
        App {
            running: true,
            hyprland_state,
            battery_state,
            pipwire_state: PipewireState::new(),
            network_state,
        }
    }

    /// The action that an event asks for.
    pub fn action_for(event: Event) -> (action: Action)
        ensures
            action == action_of(event),
    {
        match event {
            Event::Tick => Action::Tick,
            Event::Render => Action::Render,
            Event::Mouse(_, _) => Action::Nothing,
            Event::Resize(_, _) => Action::Nothing,
            Event::UpdateHyprlandState(event) => Action::UpdateHyprlandState(event),
            Event::UpdatePipeWireState(event) => Action::UpdatePipeWireState(event),
            Event::UpdateNetworkState(event) => Action::UpdateNetworkState(event),
        }
    }

    /// Carries out one action on the state, and says what is left for the
    /// caller to do.
    pub fn update(&mut self, action: Action) -> (effects: Effects)
        ensures
            app_step(*old(self), action, *final(self), effects),
            old(self).hyprland_state.wf() ==> final(self).hyprland_state.wf(),
            old(self).wf() ==> final(self).wf(),
    {
        let mut effects = Effects { refresh_battery: false, network: NetRequest::Nothing };
        match action {
            Action::UpdateHyprlandState(hyprland_event) => {
                self.hyprland_state.apply(hyprland_event);
            },
            Action::UpdatePipeWireState(pipewire_event) => {
                self.pipwire_state.apply(pipewire_event);
            },
            Action::UpdateNetworkState(network_event) => {
                effects.network = self.network_state.handle(network_event);
            },
            Action::Tick => {
                effects.refresh_battery = self.battery_state.tick();
                effects.network = self.network_state.tick();
            },
            _ => {},
        }
        effects
    }
}

} // verus!
