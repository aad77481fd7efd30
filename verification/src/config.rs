//! User preferences: theme, feed density, timeline filters and server.

use vstd::prelude::*;

verus! {

/// The user's preferred theme.
#[derive(Debug, Clone, Copy, PartialEq, Eq, Structural)]
pub enum ThemeMode {
    Light,
    Dark,
    System,
}

/// How much of each post to render in feeds.
#[derive(Debug, Clone, Copy, PartialEq, Eq, Structural)]
pub enum FeedDensity {
    /// Just the header and text content: no card, media, or tags.
    TextOnly,
    /// Card, media, and tags too, but shown smaller.
    Compact,
    /// Everything, at full size.
    Full,
}

pub open spec fn theme_label(mode: ThemeMode) -> Seq<char> {
    match mode {
        ThemeMode::Light => "Light"@,
        ThemeMode::Dark => "Dark"@,
        ThemeMode::System => "System"@,
    }
}

pub open spec fn density_label(density: FeedDensity) -> Seq<char> {
    match density {
        FeedDensity::TextOnly => "Text only"@,
        FeedDensity::Compact => "Compact"@,
        FeedDensity::Full => "Full"@,
    }
}

impl Default for ThemeMode {
    fn default() -> (mode: Self)
        ensures
            mode == ThemeMode::System,
    {
        ThemeMode::System
    }
}

impl Default for FeedDensity {
    fn default() -> (density: Self)
        ensures
            density == FeedDensity::Full,
    {
        FeedDensity::Full
    }
}

impl ThemeMode {
    /// Every theme mode, in the order the settings page offers them.
    pub fn all() -> (modes: Vec<ThemeMode>)
        ensures
            modes@ == seq![ThemeMode::Light, ThemeMode::Dark, ThemeMode::System],
    {
        vec![ThemeMode::Light, ThemeMode::Dark, ThemeMode::System]
    }

    pub fn label(self) -> (label: &'static str)
        ensures
            label@ == theme_label(self),
    {
        match self {
            ThemeMode::Light => "Light",
            ThemeMode::Dark => "Dark",
            ThemeMode::System => "System",
        }
    }

    /// Position of this mode in [`ThemeMode::all`].
    pub fn position(self) -> (index: usize)
        ensures
            index < 3,
            Self::all_spec()[index as int] == self,
    {
        match self {
            ThemeMode::Light => 0,
            ThemeMode::Dark => 1,
            ThemeMode::System => 2,
        }
    }

    pub open spec fn all_spec() -> Seq<ThemeMode> {
        seq![ThemeMode::Light, ThemeMode::Dark, ThemeMode::System]
    }
}

impl FeedDensity {
    /// Every feed density, in the order the settings page offers them.
    pub fn all() -> (densities: Vec<FeedDensity>)
        ensures
            densities@ == Self::all_spec(),
    {
        vec![FeedDensity::TextOnly, FeedDensity::Compact, FeedDensity::Full]
    }

    pub open spec fn all_spec() -> Seq<FeedDensity> {
        seq![FeedDensity::TextOnly, FeedDensity::Compact, FeedDensity::Full]
    }

    pub fn label(self) -> (label: &'static str)
        ensures
            label@ == density_label(self),
    {
        match self {
            FeedDensity::TextOnly => "Text only",
            FeedDensity::Compact => "Compact",
            FeedDensity::Full => "Full",
        }
    }

    /// Position of this density in [`FeedDensity::all`].
    pub fn position(self) -> (index: usize)
        ensures
            index < 3,
            Self::all_spec()[index as int] == self,
    {
        match self {
            FeedDensity::TextOnly => 0,
            FeedDensity::Compact => 1,
            FeedDensity::Full => 2,
        }
    }
}

/// Persisted preferences.
#[derive(Debug, Clone)]
pub struct TootConfig {
    pub server: String,
    /// Hide boosted (reblogged) statuses from timelines.
    pub hide_boosts: bool,
    /// Hide reply statuses from timelines.
    pub hide_replies: bool,
    /// How much of each post to render in feeds.
    pub feed_density: FeedDensity,
    /// Preferred theme.
    pub theme_mode: ThemeMode,
}

pub open spec fn is_default_config(config: TootConfig) -> bool {
    &&& config.server@ == Seq::<char>::empty()
    &&& !config.hide_boosts
    &&& !config.hide_replies
    &&& config.feed_density == FeedDensity::Full
    &&& config.theme_mode == ThemeMode::System
}

impl Default for TootConfig {
    fn default() -> (config: Self)
        ensures
            is_default_config(config),
    {
        TootConfig {
            server: String::new(),
            hide_boosts: false,
            hide_replies: false,
            feed_density: FeedDensity::Full,
            theme_mode: ThemeMode::System,
        }
    }
}

impl TootConfig {
    /// Resolve the configuration to run with from what the config store
    /// gave back: `None` when no store could be opened, `Ok` for a clean
    /// read, `Err` for a read that hit errors but still produced a
    /// (partially defaulted) configuration.
    pub fn config(stored: Option<Result<TootConfig, TootConfig>>) -> (config: TootConfig)
        ensures
            match stored {
                Some(Ok(read)) => config == read,
                Some(Err(partial)) => config == partial,
                None => is_default_config(config),
            },
    {
        match stored {
            Some(Ok(read)) => read,
            Some(Err(partial)) => partial,
            None => TootConfig::default(),
        }
    }
}

} // verus!
