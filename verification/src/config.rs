//! The configuration: saved entries and theme settings.
use vstd::prelude::*;
use vstd::string::StringExecFns;

verus! {

/// A saved shell command.
#[derive(Debug, Clone)]
pub struct Entry {
    /// Display name.
    pub name: String,
    /// The shell command to run.
    pub command: String,
    /// Optional notes (empty when the configuration gives none).
    pub notes: String,
}

/// The whole configuration file.
#[derive(Debug)]
pub struct Config {
    pub entries: Vec<Entry>,
    pub theme: ThemeConfig,
}

/// The `[theme]` table. Colors are `"#rrggbb"` hex strings.
#[derive(Debug)]
pub struct ThemeConfig {
    pub border: String,
    pub header: String,
    pub highlight_bg: String,
    pub highlight_fg: String,
}

impl Default for ThemeConfig {
    fn default() -> (t: Self)
        ensures
            t.border@ == "#60a5fa"@,
            t.header@ == "#06b6d4"@,
            t.highlight_bg@ == "#d4d4d8"@,
            t.highlight_fg@ == "#18181b"@,
    {
        ThemeConfig {
            border: String::from_str("#60a5fa"),
            header: String::from_str("#06b6d4"),
            highlight_bg: String::from_str("#d4d4d8"),
            highlight_fg: String::from_str("#18181b"),
        }
    }
}

} // verus!
