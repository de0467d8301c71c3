//! State and wire-format logic of a desktop status bar: the nl80211 attribute
//! codec and Wi-Fi connection manager, and the battery, audio and workspace
//! widget states.

pub mod app;
pub mod batterywidget;
pub mod event;
pub mod hyprlandwidget;
pub mod network;
pub mod networkwidget;
pub mod pipemon;
pub mod pipewirewidget;
pub mod ui;
