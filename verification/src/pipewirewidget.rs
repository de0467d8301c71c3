//! The audio state and its widget.

use vstd::prelude::*;
use crate::pipemon::PipeWireEvent;
use crate::ui::Alignment;

verus! {

/// The icon of a muted sink; the icons of a sink that sounds are numbered
/// below it, quietest first.
pub const ICON_MUTED: usize = 3;

/// Volume and mute of the default sink, and which sink that is.
#[derive(Clone, Debug)]
pub struct PipewireState {
    pub volume: u8,
    pub muted: bool,
    pub default_sink_name: String,
    pub default_sink_id: u32,
}

impl PipewireState {
    /// The state before anything is known: full volume, not muted, no
    /// default sink.
    pub fn new() -> (s: Self)
        ensures
            s.volume == 100,
            !s.muted,
            s.default_sink_name@ == Seq::<char>::empty(),
            s.default_sink_id == 0,
    {
        PipewireState {
            volume: 100,
            muted: false,
            default_sink_name: String::new(),
            default_sink_id: 0,
        }
    }

    /// Takes the name of the default sink. Its id is learnt later, when the
    /// node of that name is announced.
    pub fn set_default_sink_name(&mut self, name: String)
        ensures
            final(self).default_sink_name == name,
            final(self).volume == old(self).volume,
            final(self).muted == old(self).muted,
            final(self).default_sink_id == old(self).default_sink_id,
    {
        self.default_sink_name = name;
    }

    /// A node was announced: if it has the name of the default sink, its id
    /// is the default sink's from now on.
    pub fn set_default_sink_id(&mut self, name: String, id: u32)
        ensures
            final(self).default_sink_id == if name@ == old(self).default_sink_name@ {
                id
            } else {
                old(self).default_sink_id
            },
            final(self).default_sink_name == old(self).default_sink_name,
            final(self).volume == old(self).volume,
            final(self).muted == old(self).muted,
    {
        if name == self.default_sink_name {
            self.default_sink_id = id;
        }
    }

    /// The channel volumes of a node changed, given in percent: if the node
    /// is the default sink and has a channel, the volume is that of its
    /// first channel.
    pub fn update_volumes(&mut self, id: u32, volumes: Vec<u8>)
        ensures
            final(self).volume == if id == old(self).default_sink_id && volumes@.len() > 0 {
                volumes@[0]
            } else {
                old(self).volume
            },
            final(self).default_sink_name == old(self).default_sink_name,
            final(self).default_sink_id == old(self).default_sink_id,
            final(self).muted == old(self).muted,
    {
        if id == self.default_sink_id && volumes.len() > 0 {
            self.volume = volumes[0];
        }
    }

    /// The mute switch of a node changed: if the node is the default sink,
    /// the state follows.
    pub fn update_muted(&mut self, id: u32, muted: bool)
        ensures
            final(self).muted == if id == old(self).default_sink_id {
                muted
            } else {
                old(self).muted
            },
            final(self).default_sink_name == old(self).default_sink_name,
            final(self).default_sink_id == old(self).default_sink_id,
            final(self).volume == old(self).volume,
    {
        if id == self.default_sink_id {
            self.muted = muted;
        }
    }
}

/// Whether `after` is the audio state that `event` makes of `before`.
pub open spec fn audio_step(before: PipewireState, event: PipeWireEvent, after: PipewireState) -> bool {
    match event {
        PipeWireEvent::UpdateVolumes(id, volumes) => {
            &&& after.volume == if id == before.default_sink_id && volumes@.len() > 0 {
                volumes@[0]
            } else {
                before.volume
            }
            &&& after.muted == before.muted
            &&& after.default_sink_name == before.default_sink_name
            &&& after.default_sink_id == before.default_sink_id
        },
        PipeWireEvent::UpdateMuted(id, muted) => {
            &&& after.muted == if id == before.default_sink_id {
                muted
            } else {
                before.muted
            }
            &&& after.volume == before.volume
            &&& after.default_sink_name == before.default_sink_name
            &&& after.default_sink_id == before.default_sink_id
        },
        PipeWireEvent::SetDefaultSinkName(name) => {
            &&& after.default_sink_name == name
            &&& after.volume == before.volume
            &&& after.muted == before.muted
            &&& after.default_sink_id == before.default_sink_id
        },
        PipeWireEvent::UpdateNodeId(id, name) => {
            &&& after.default_sink_id == if name@ == before.default_sink_name@ {
                id
            } else {
                before.default_sink_id
            }
            &&& after.volume == before.volume
            &&& after.muted == before.muted
            &&& after.default_sink_name == before.default_sink_name
        },
    }
}

impl PipewireState {
    /// Takes one event of the audio server.
    pub fn apply(&mut self, event: PipeWireEvent)
        ensures
            audio_step(*old(self), event, *final(self)),
    {
        match event {
            PipeWireEvent::UpdateVolumes(id, items) => self.update_volumes(id, items),
            PipeWireEvent::UpdateMuted(id, muted) => self.update_muted(id, muted),
            PipeWireEvent::SetDefaultSinkName(name) => self.set_default_sink_name(name),
            PipeWireEvent::UpdateNodeId(id, name) => self.set_default_sink_id(name, id),
        }
    }
}

/// The audio widget: where it draws, and which icon it shows.
#[derive(Clone, Copy, Debug)]
pub struct PipewireWidget {
    alignment: Alignment,
}

/// The icon for a volume: the mute icon when muted, else one of three
/// levels, a new one every 34 percent.
pub open spec fn volume_icon(muted: bool, volume: u8) -> int {
    if muted {
        ICON_MUTED as int
    } else if volume / 34 > 2 {
        2
    } else {
        volume as int / 34
    }
}

impl PipewireWidget {
    /// The alignment of the widget.
    pub closed spec fn spec_alignment(&self) -> Alignment {
        self.alignment
    }

    /// A widget that draws from the left.
    pub fn new() -> (w: Self)
        ensures
            w.spec_alignment() == Alignment::Left,
    {
        PipewireWidget { alignment: Alignment::Left }
    }

    /// Makes the widget draw from the right.
    pub fn right_aligned(&mut self)
        ensures
            final(self).spec_alignment() == Alignment::Right,
    {
        self.alignment = Alignment::Right;
    }

    /// Makes the widget draw in the middle.
    pub fn center_aligned(&mut self)
        ensures
            final(self).spec_alignment() == Alignment::Center,
    {
        self.alignment = Alignment::Center;
    }

    /// The alignment of the widget.
    pub fn alignment(&self) -> (a: Alignment)
        ensures
            a == self.spec_alignment(),
    {
        self.alignment
    }

    /// The number of the icon to draw for `state`.
    pub fn icon(&self, state: &PipewireState) -> (i: usize)
        ensures
            i == volume_icon(state.muted, state.volume),
            i <= ICON_MUTED,
    {
        if state.muted {
            ICON_MUTED
        } else {
            let level: usize = state.volume as usize / 34;
            if level > 2 {
                2
            } else {
                level
            }
        }
    }
}

} // verus!
