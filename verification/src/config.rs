//! The shell's persisted settings, over plain values: the theme choice,
//! the monospace font, the syntax-theme names, and the recent-files list
//! with its move-to-front rule. Writing these to disk and asking the
//! system whether it prefers dark are the shell's work; the rules that
//! pick a theme name and keep the recent list are decided here.

use std::collections::VecDeque;
use vstd::prelude::*;

verus! {

/// How many recently opened files the shell remembers.
pub const RECENT_FILES_KEPT: usize = 10;

/// The appearance the user picked: a fixed dark or light theme, or
/// whatever the system prefers.
#[derive(Clone, Copy, Debug, PartialEq, Eq, Structural)]
pub enum AppTheme {
    Dark,
    Light,
    System,
}

/// Whether `theme` resolves to dark, given the system's preference.
pub open spec fn resolves_dark(theme: AppTheme, system_prefers_dark: bool) -> bool {
    match theme {
        AppTheme::Dark => true,
        AppTheme::Light => false,
        AppTheme::System => system_prefers_dark,
    }
}

/// The appearance settings.
#[derive(Clone, Debug)]
pub struct Config {
    pub app_theme: AppTheme,
    pub font_name: String,
    pub font_size: usize,
    pub syntax_theme_dark: String,
    pub syntax_theme_light: String,
}

impl Config {
    /// The syntax-theme name that applies under the chosen theme, given
    /// whether the system currently prefers dark.
    pub fn syntax_theme(&self, system_prefers_dark: bool) -> (name: &str)
        ensures
            name@ == if resolves_dark(self.app_theme, system_prefers_dark) {
                self.syntax_theme_dark@
            } else {
                self.syntax_theme_light@
            },
    {
        let dark = match self.app_theme {
            AppTheme::Dark => true,
            AppTheme::Light => false,
            AppTheme::System => system_prefers_dark,
        };
        if dark {
            self.syntax_theme_dark.as_str()
        } else {
            self.syntax_theme_light.as_str()
        }
    }
}

impl Default for Config {
    fn default() -> (c: Config)
        ensures
            c.app_theme == AppTheme::System,
            c.font_name@ == "Fira Mono"@,
            c.font_size == 20,
            c.syntax_theme_dark@ == "COSMIC Dark"@,
            c.syntax_theme_light@ == "COSMIC Light"@,
    {
        Config {
            app_theme: AppTheme::System,
            font_name: "Fira Mono".to_string(),
            font_size: 20,
            syntax_theme_dark: "COSMIC Dark".to_string(),
            syntax_theme_light: "COSMIC Light".to_string(),
        }
    }
}

/// Keeps every entry that differs from the path being remembered.
pub open spec fn differs_from(path_chars: Seq<char>) -> spec_fn(String) -> bool {
    |p: String| p@ != path_chars
}

/// Session state the shell persists between runs: the recently opened
/// files, most recent first.
#[derive(Clone, Debug)]
pub struct ConfigState {
    pub recent_files: VecDeque<String>,
}

impl Default for ConfigState {
    fn default() -> (c: ConfigState)
        ensures
            c.recent_files@ == Seq::<String>::empty(),
    {
        ConfigState { recent_files: VecDeque::new() }
    }
}

impl ConfigState {
    /// Moves `path` to the front of the recent list: entries equal to it
    /// are dropped, the others keep their order, and only the most recent
    /// `RECENT_FILES_KEPT` entries survive.
    pub fn remember_recent(&mut self, path: String)
        ensures
            final(self).recent_files@ == {
                let all = seq![path] + old(self).recent_files@.filter(differs_from(path@));
                all.take(vstd::math::min(all.len() as int, RECENT_FILES_KEPT as int))
            },
    {
        let mut kept: VecDeque<String> = VecDeque::new();
        let n = self.recent_files.len();
        let mut i: usize = 0;
        while i < n
            invariant
                self == old(self),
                n == self.recent_files@.len(),
                i <= n,
                kept@ == old(self).recent_files@.take(i as int).filter(differs_from(path@)),
            decreases n - i,
        {
            let ghost prefix = old(self).recent_files@.take(i as int);
            let ghost extended = old(self).recent_files@.take(i + 1);
            proof {
                reveal(Seq::filter);
                assert(extended.drop_last() =~= prefix);
            }
            let entry = &self.recent_files[i];
            if !(*entry == path) {
                kept.push_back(entry.clone());
            }
            i = i + 1;
        }
        proof {
            assert(old(self).recent_files@.take(n as int) =~= old(self).recent_files@);
        }
        kept.push_front(path);
        kept.truncate(RECENT_FILES_KEPT);
        self.recent_files = kept;
        proof {
            let all = seq![path] + old(self).recent_files@.filter(differs_from(path@));
            if all.len() <= RECENT_FILES_KEPT {
                assert(final(self).recent_files@ =~= all.take(all.len() as int));
            }
        }
    }
}

} // verus!
