use vstd::prelude::*;

verus! {

/// The colour scheme of the interface.
#[derive(Clone, Copy, Debug, PartialEq, Eq, Structural)]
pub enum Theme {
    Terminal,
    Dark,
    Light,
}

impl Theme {
    /// The theme that follows `self` when the user cycles through them.
    pub open spec fn following(self) -> Theme {
        match self {
            Theme::Terminal => Theme::Dark,
            Theme::Dark => Theme::Light,
            Theme::Light => Theme::Terminal,
        }
    }

    pub open spec fn label_text(self) -> Seq<char> {
        match self {
            Theme::Terminal => "Terminal default"@,
            Theme::Dark => "Dark"@,
            Theme::Light => "Light"@,
        }
    }

    pub fn next(self) -> (r: Theme)
        ensures
            r == self.following(),
    {
        match self {
            Theme::Terminal => Theme::Dark,
            Theme::Dark => Theme::Light,
            Theme::Light => Theme::Terminal,
        }
    }

    pub fn label(self) -> (r: &'static str)
        ensures
            r@ == self.label_text(),
    {
        match self {
            Theme::Terminal => "Terminal default",
            Theme::Dark => "Dark",
            Theme::Light => "Light",
        }
    }
}

/// Cycling through the themes comes back to the first one after three steps, and visits
/// every theme on the way.
pub proof fn lemma_theme_cycle(t: Theme)
    ensures
        t.following().following().following() == t,
        t.following() != t,
        t.following().following() != t,
{
}

impl Default for Theme {
    fn default() -> (r: Theme)
        ensures
            r == Theme::Terminal,
    {
        Theme::Terminal
    }
}

/// What the user chose in the settings and keeps between sessions.
#[derive(Clone, Copy, Debug, PartialEq, Eq, Structural)]
pub struct Preferences {
    pub theme: Theme,
    pub compact_messages: bool,
    pub message_preview: bool,
    pub notification_sound: bool,
}

impl Default for Preferences {
    fn default() -> (r: Preferences)
        ensures
            r == (Preferences {
                theme: Theme::Terminal,
                compact_messages: false,
                message_preview: false,
                notification_sound: false,
            }),
    {
        Preferences {
            theme: Theme::Terminal,
            compact_messages: false,
            message_preview: false,
            notification_sound: false,
        }
    }
}

} // verus!
