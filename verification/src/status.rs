//! What the applet knows of a media player's playback.
use vstd::prelude::*;
use crate::icon::AppIcon;

verus! {

/// Whether a player is playing, paused or stopped.
#[derive(Clone, Copy, Debug, PartialEq, Eq, Structural)]
pub enum PlaybackState {
    Playing,
    Paused,
    Stopped,
}

/// The icon of the play/pause button: pause while playing, play otherwise.
pub open spec fn toggle_icon(state: PlaybackState) -> AppIcon {
    if state == PlaybackState::Playing {
        AppIcon::Paused
    } else {
        AppIcon::Playing
    }
}

impl PlaybackState {
    /// The icon of the button that toggles playback for a player in this state.
    pub fn toggle_icon(&self) -> (icon: AppIcon)
        ensures
            icon == toggle_icon(*self),
    {
        match self {
            PlaybackState::Playing => AppIcon::Paused,
            PlaybackState::Paused => AppIcon::Playing,
            PlaybackState::Stopped => AppIcon::Playing,
        }
    }
}

/// A media player found on the session bus.
#[derive(Debug)]
pub struct DiscoveredPlayer {
    /// The name the player gives itself.
    pub identity: String,
    /// Whether it is playing at the moment.
    pub is_active: bool,
}

} // verus!
