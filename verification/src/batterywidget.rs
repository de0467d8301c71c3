//! The battery state and its widget.
//!
//! The state is refreshed from two short texts: whether the charger is
//! online, and the charge in percent. Both are taken the way a three-byte
//! read buffer holds them, one after the other in the same buffer.

use vstd::prelude::*;
use crate::ui::Alignment;

verus! {

/// The number of ticks between two refreshes.
pub const REFRESH_PERIOD: u8 = 100;

/// The size of the buffer that the two texts are read into.
pub const READ_LEN: usize = 3;

/// Whether the battery is being charged.
#[derive(Clone, Copy, Debug, PartialEq, Eq, Structural)]
pub enum BatteryChargingState {
    Charging,
    Discharging,
}

/// The charge in percent, the charging state and the tick counter.
#[derive(Clone, Copy, Debug)]
pub struct BatteryState {
    pub ticks: u8,
    pub capacity: usize,
    pub state: BatteryChargingState,
}

/// The buffer `buf` after `data` was read into it: the first bytes of
/// `data`, as many as fit, over what the buffer held.
pub open spec fn read_into(buf: Seq<u8>, data: Seq<u8>) -> Seq<u8> {
    Seq::new(
        buf.len(),
        |i: int|
            if i < data.len() {
                data[i]
            } else {
                buf[i]
            },
    )
}

/// Whether `b` is an ASCII digit.
pub open spec fn is_digit(b: u8) -> bool {
    0x30 <= b <= 0x39
}

/// The charging state that a buffer spells: charging when it starts with
/// the digit one.
pub open spec fn charging_of(buf: Seq<u8>) -> BatteryChargingState {
    if buf[0] == 0x31 {
        BatteryChargingState::Charging
    } else {
        BatteryChargingState::Discharging
    }
}

/// The charge that a three-byte buffer spells: 100 when the third byte is a
/// zero digit, one digit when the second byte is NUL, two digits otherwise.
/// `None` when a byte that should be a digit is none.
pub open spec fn capacity_of(buf: Seq<u8>) -> Option<int> {
    if buf[2] == 0x30 {
        Some(100)
    } else if buf[1] == 0 {
        if is_digit(buf[0]) {
            Some(buf[0] - 0x30)
        } else {
            None
        }
    } else if is_digit(buf[0]) && is_digit(buf[1]) {
        Some((buf[0] - 0x30) * 10 + (buf[1] - 0x30))
    } else {
        None
    }
}

/// The buffer after the charger text was read into a cleared buffer.
pub open spec fn charger_buffer(online: Seq<u8>) -> Seq<u8> {
    read_into(seq![0u8, 0u8, 0u8], online)
}

/// The buffer after the charge text was read over the charger text.
pub open spec fn charge_buffer(online: Seq<u8>, charge: Seq<u8>) -> Seq<u8> {
    read_into(charger_buffer(online), charge)
}

/// Reads `data` into the buffer.
fn fill(buf: &mut [u8; 3], data: &[u8])
    ensures
        final(buf)@ == read_into(old(buf)@, data@),
{
    let mut i: usize = 0;
    while i < READ_LEN && i < data.len()
        invariant
            i <= READ_LEN,
            i <= data@.len(),
            buf@.len() == 3,
            forall|j: int| 0 <= j < i ==> buf@[j] == data@[j],
            forall|j: int| i <= j < 3 ==> buf@[j] == old(buf)@[j],
        decreases READ_LEN - i,
    {
        buf[i] = data[i];
        i = i + 1;
    }
    assert(buf@ =~= read_into(old(buf)@, data@));
}

impl BatteryState {
    /// What holds of every state that is produced here: the charge is a
    /// percentage and the counter is below its period.
    pub open spec fn wf(&self) -> bool {
        &&& self.capacity <= 100
        &&& self.ticks < REFRESH_PERIOD
    }

    /// The state read from the two texts, with the counter at 0. Where the
    /// charge text spells no number the charge is 0.
    pub fn new(online: &[u8], charge: &[u8]) -> (s: Self)
        ensures
            s.wf(),
            s.ticks == 0,
            s.state == charging_of(charger_buffer(online@)),
            s.capacity == match capacity_of(charge_buffer(online@, charge@)) {
                Some(c) => c,
                None => 0,
            },
    {
        let mut new_battery_state = BatteryState {
            ticks: 0,
            capacity: 0,
            state: BatteryChargingState::Discharging,
        };
        new_battery_state.update(online, charge);
        new_battery_state
    }

    /// Refreshes the state from the two texts. Where the charge text spells
    /// no number the charge stays as it was. The counter stays.
    pub fn update(&mut self, online: &[u8], charge: &[u8])
        ensures
            final(self).ticks == old(self).ticks,
            final(self).state == charging_of(charger_buffer(online@)),
            final(self).capacity == match capacity_of(charge_buffer(online@, charge@)) {
                Some(c) => c,
                None => old(self).capacity as int,
            },
            old(self).wf() ==> final(self).wf(),
    {
        let mut buffer: [u8; 3] = [0, 0, 0];
        assert(buffer@ =~= seq![0u8, 0u8, 0u8]);
        fill(&mut buffer, online);
        self.state = if buffer[0] == 0x31 {
            BatteryChargingState::Charging
        } else {
            BatteryChargingState::Discharging
        };
        fill(&mut buffer, charge);
        let b0: u8 = buffer[0];
        let b1: u8 = buffer[1];
        let b2: u8 = buffer[2];
        if b2 == 0x30 {
            self.capacity = 100;
        } else if b1 == 0 {
            if 0x30 <= b0 && b0 <= 0x39 {
                self.capacity = (b0 - 0x30) as usize;
            }
        } else if 0x30 <= b0 && b0 <= 0x39 && 0x30 <= b1 && b1 <= 0x39 {
            self.capacity = ((b0 - 0x30) * 10 + (b1 - 0x30)) as usize;
        }
    }

    /// Counts one tick, and says whether a refresh is due: it is at every
    /// `REFRESH_PERIOD`th tick, when the counter starts over.
    pub fn tick(&mut self) -> (due: bool)
        ensures
            due == (old(self).ticks + 1 >= REFRESH_PERIOD),
            final(self).ticks == if due {
                0
            } else {
                old(self).ticks + 1
            },
            final(self).capacity == old(self).capacity,
            final(self).state == old(self).state,
            old(self).wf() ==> final(self).wf(),
    {
        if self.ticks >= REFRESH_PERIOD - 1 {
            self.ticks = 0;
            true
        } else {
            self.ticks = self.ticks + 1;
            false
        }
    }
}

/// The battery widget: where it draws, and which icon it shows.
#[derive(Clone, Copy, Debug)]
pub struct BatteryWidget {
    alignment: Alignment,
}

/// The level of the battery icon: the tens of the charge, at most 10.
pub open spec fn battery_level(capacity: usize) -> int {
    if capacity / 10 > 10 {
        10
    } else {
        capacity as int / 10
    }
}

impl BatteryWidget {
    /// The alignment of the widget.
    pub closed spec fn spec_alignment(&self) -> Alignment {
        self.alignment
    }

    /// A widget that draws from the left.
    pub fn new() -> (w: Self)
        ensures
            w.spec_alignment() == Alignment::Left,
    {
        BatteryWidget { alignment: Alignment::Left }
    }

    /// Makes the widget draw from the right.
    pub fn right_aligned(&mut self)
        ensures
            final(self).spec_alignment() == Alignment::Right,
    {
        self.alignment = Alignment::Right;
    }

    /// Makes the widget draw in the middle.
    pub fn center_aligned(&mut self)
        ensures
            final(self).spec_alignment() == Alignment::Center,
    {
        self.alignment = Alignment::Center;
    }

    /// The alignment of the widget.
    pub fn alignment(&self) -> (a: Alignment)
        ensures
            a == self.spec_alignment(),
    {
        self.alignment
    }

    /// The level of the icon to draw for `state`, out of eleven.
    pub fn icon(&self, state: &BatteryState) -> (level: usize)
        ensures
            level == battery_level(state.capacity),
            level <= 10,
    {
        let level: usize = state.capacity / 10;
        if level > 10 {
            10
        } else {
            level
        }
    }
}

} // verus!
