//! Where the configuration file is looked for.
use vstd::prelude::*;
use vstd::string::StringExecFns;

verus! {

/// What the command line asks for.
#[derive(Debug, Clone, PartialEq, Eq)]
pub enum CliRequest {
    /// Print the usage text and stop.
    Help,
    /// Print the version and stop.
    Version,
    /// Run the launcher on the configuration file at this path.
    Path(String),
}

/// The request that the first argument and the environment make: `-h` or
/// `--help` asks for help, `-v` or `--version` for the version, and any
/// other argument is the configuration path. Without an argument the path is
/// `$XDG_CONFIG_HOME/sfav/config.toml` when that variable is set and not
/// empty, else `$HOME/.config/sfav/config.toml`, with `.` for an unset `HOME`.
pub open spec fn config_request(
    arg: Option<Seq<char>>,
    xdg: Option<Seq<char>>,
    home: Option<Seq<char>>,
) -> CliRequestView {
    match arg {
        Some(a) => if a == "-h"@ || a == "--help"@ {
            CliRequestView::Help
        } else if a == "-v"@ || a == "--version"@ {
            CliRequestView::Version
        } else {
            CliRequestView::Path(a)
        },
        None => match xdg {
            Some(x) if x.len() > 0 => CliRequestView::Path(x + "/sfav/config.toml"@),
            _ => {
                let h = match home {
                    Some(h) => h,
                    None => "."@,
                };
                CliRequestView::Path(h + "/.config/sfav/config.toml"@)
            },
        },
    }
}

/// A [`CliRequest`] with the path as a sequence of characters.
pub enum CliRequestView {
    Help,
    Version,
    Path(Seq<char>),
}

impl View for CliRequest {
    type V = CliRequestView;

    open spec fn view(&self) -> CliRequestView {
        match self {
            CliRequest::Help => CliRequestView::Help,
            CliRequest::Version => CliRequestView::Version,
            CliRequest::Path(p) => CliRequestView::Path(p@),
        }
    }
}

/// Views an optional string as an optional character sequence.
pub open spec fn opt_view(s: Option<String>) -> Option<Seq<char>> {
    match s {
        Some(v) => Some(v@),
        None => None,
    }
}

/// Resolves the configuration path from the first command-line argument
/// and the values of `XDG_CONFIG_HOME` and `HOME` (each `None` when absent).
pub fn config_path(arg: Option<String>, xdg: Option<String>, home: Option<String>) -> (r: CliRequest)
    ensures
        r@ == config_request(opt_view(arg), opt_view(xdg), opt_view(home)),
{
    if let Some(a) = arg {
        if a == String::from_str("-h") || a == String::from_str("--help") {
            return CliRequest::Help;
        }
        if a == String::from_str("-v") || a == String::from_str("--version") {
            return CliRequest::Version;
        }
        return CliRequest::Path(a);
    }
    if let Some(x) = xdg {
        if !x.as_str().is_empty() {
            return CliRequest::Path(x.concat("/sfav/config.toml"));
        }
    }
    let h = match home {
        Some(h) => h,
        None => String::from_str("."),
    };
    CliRequest::Path(h.concat("/.config/sfav/config.toml"))
}

/// Any first argument other than the help and version flags is the path,
/// whatever the environment says.
pub proof fn law_argument_is_the_path(
    a: Seq<char>,
    xdg: Option<Seq<char>>,
    home: Option<Seq<char>>,
)
    requires
        a != "-h"@,
        a != "--help"@,
        a != "-v"@,
        a != "--version"@,
    ensures
        config_request(Some(a), xdg, home) == CliRequestView::Path(a),
{
}

} // verus!
