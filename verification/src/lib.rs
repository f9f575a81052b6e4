//! Verified core of a COSMIC panel applet that controls MPRIS media players:
//! the persisted settings and the decisions the panel button and the popup
//! window make from those settings and from the state of the players.
pub mod icon;
pub mod players;
pub mod config;
pub mod status;
pub mod panel;
pub mod popup;
pub mod settings;
pub mod laws;
