//! The icons of the panel button and of the playback controls.
use vstd::prelude::*;

verus! {

/// The four playback icons the applet shows.
#[derive(Clone, Copy, Debug, PartialEq, Eq, Structural)]
pub enum AppIcon {
    Playing,
    Paused,
    Next,
    Previous,
}

/// The freedesktop icon name of each playback icon.
pub open spec fn icon_name(icon: AppIcon) -> Seq<char> {
    match icon {
        AppIcon::Playing => "media-playback-start-symbolic"@,
        AppIcon::Paused => "media-playback-pause-symbolic"@,
        AppIcon::Next => "media-skip-forward-symbolic"@,
        AppIcon::Previous => "media-skip-backward-symbolic"@,
    }
}

impl AppIcon {
    /// The themed icon name shown for this icon.
    pub fn to_str(&self) -> (name: &'static str)
        ensures
            name@ == icon_name(*self),
    {
        match self {
            AppIcon::Playing => "media-playback-start-symbolic",
            AppIcon::Paused => "media-playback-pause-symbolic",
            AppIcon::Next => "media-skip-forward-symbolic",
            AppIcon::Previous => "media-skip-backward-symbolic",
        }
    }
}

/// Distinct icons are shown under distinct icon names.
pub proof fn icon_names_are_distinct(a: AppIcon, b: AppIcon)
    requires
        a != b,
    ensures
        icon_name(a) != icon_name(b),
{
    reveal_strlit("media-playback-start-symbolic");
    reveal_strlit("media-playback-pause-symbolic");
    reveal_strlit("media-skip-forward-symbolic");
    reveal_strlit("media-skip-backward-symbolic");
    let sa = icon_name(a);
    let sb = icon_name(b);
    if sa.len() == sb.len() {
        match (a, b) {
            (AppIcon::Playing, AppIcon::Paused) | (AppIcon::Paused, AppIcon::Playing) => {
                assert(sa[15] != sb[15]);
            },
            (AppIcon::Next, AppIcon::Previous) | (AppIcon::Previous, AppIcon::Next) => {
                assert(sa[11] != sb[11]);
            },
            _ => {
                assert(sa[6] != sb[6]);
            },
        }
    }
}

} // verus!
