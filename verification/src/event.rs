//! The events that drive the status bar.

use vstd::prelude::*;
use crate::hyprlandwidget::HyprlandEvent;
use crate::network::nl80211_stream::Event as NetEvent;
use crate::pipemon::PipeWireEvent;

verus! {

/// One event of the main loop.
#[derive(Clone, Debug)]
pub enum Event {
    /// The bar is to be drawn.
    Render,
    /// The periodic tick.
    Tick,
    /// The window manager reported something.
    UpdateHyprlandState(HyprlandEvent),
    /// The audio server reported something.
    UpdatePipeWireState(PipeWireEvent),
    /// The kernel reported something about the Wi-Fi link.
    UpdateNetworkState(NetEvent),
    /// A mouse click or scroll at this column and row.
    Mouse(u16, u16),
    /// The terminal has this many columns and rows now.
    Resize(u16, u16),
}

} // verus!
