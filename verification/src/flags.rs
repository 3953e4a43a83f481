//! Execution flags for a playground command: release channel, compilation
//! mode, language edition, and the warn switch, with their textual parsers.
//!
//! Parsing never aborts a command: a malformed value keeps the default and
//! adds a line naming the offending field and value to an error text that is
//! later shown to the user.

use vstd::prelude::*;
use crate::text::str_eq;

verus! {

/// Compiler release track.
#[derive(Clone, Copy, Debug, PartialEq, Eq, Structural)]
pub enum Channel {
    Stable,
    Beta,
    Nightly,
}

/// Language edition selector.
#[derive(Clone, Copy, Debug, PartialEq, Eq, Structural)]
pub enum Edition {
    E2015,
    E2018,
}

/// Optimization level.
#[derive(Clone, Copy, Debug, PartialEq, Eq, Structural)]
pub enum Mode {
    Debug,
    Release,
}

/// The three flags every playground request carries.
#[derive(Clone, Copy, Debug, PartialEq, Eq, Structural)]
pub struct CommandFlags {
    pub channel: Channel,
    pub mode: Mode,
    pub edition: Edition,
}

/// Raw string values of the recognized command parameters, as handed over by
/// the command dispatcher; unrecognized parameters are never looked at.
pub struct FlagParams {
    pub channel: Option<String>,
    pub mode: Option<String>,
    pub edition: Option<String>,
    pub warn: Option<String>,
}

pub open spec fn spec_parse_channel(s: Seq<char>) -> Option<Channel> {
    if s == "stable"@ {
        Some(Channel::Stable)
    } else if s == "beta"@ {
        Some(Channel::Beta)
    } else if s == "nightly"@ {
        Some(Channel::Nightly)
    } else {
        None
    }
}

pub open spec fn channel_error_text(s: Seq<char>) -> Seq<char> {
    "invalid release channel `"@ + s + "`"@
}

pub open spec fn spec_parse_edition(s: Seq<char>) -> Option<Edition> {
    if s == "2015"@ {
        Some(Edition::E2015)
    } else if s == "2018"@ {
        Some(Edition::E2018)
    } else {
        None
    }
}

pub open spec fn edition_error_text(s: Seq<char>) -> Seq<char> {
    "invalid edition `"@ + s + "`"@
}

pub open spec fn spec_parse_mode(s: Seq<char>) -> Option<Mode> {
    if s == "debug"@ {
        Some(Mode::Debug)
    } else if s == "release"@ {
        Some(Mode::Release)
    } else {
        None
    }
}

pub open spec fn mode_error_text(s: Seq<char>) -> Seq<char> {
    "invalid compilation mode `"@ + s + "`"@
}

pub open spec fn spec_parse_warn(s: Seq<char>) -> Option<bool> {
    if s == "true"@ {
        Some(true)
    } else if s == "false"@ {
        Some(false)
    } else {
        None
    }
}

impl Channel {
    /// Parse a channel name; any other value is an error naming it.
    pub fn from_str(s: &str) -> (r: Result<Channel, String>)
        ensures
            match spec_parse_channel(s@) {
                Some(c) => r == Ok::<Channel, String>(c),
                None => r matches Err(m) && m@ == channel_error_text(s@),
            },
    {
        if str_eq(s, "stable") {
            Ok(Channel::Stable)
        } else if str_eq(s, "beta") {
            Ok(Channel::Beta)
        } else if str_eq(s, "nightly") {
            Ok(Channel::Nightly)
        } else {
            let mut m = String::from_str("invalid release channel `");
            m.append(s);
            m.append("`");
            proof {
                assert(m@ =~= channel_error_text(s@));
            }
            Err(m)
        }
    }
}

impl Edition {
    /// Parse an edition year; any other value is an error naming it.
    pub fn from_str(s: &str) -> (r: Result<Edition, String>)
        ensures
            match spec_parse_edition(s@) {
                Some(e) => r == Ok::<Edition, String>(e),
                None => r matches Err(m) && m@ == edition_error_text(s@),
            },
    {
        if str_eq(s, "2015") {
            Ok(Edition::E2015)
        } else if str_eq(s, "2018") {
            Ok(Edition::E2018)
        } else {
            let mut m = String::from_str("invalid edition `");
            m.append(s);
            m.append("`");
            proof {
                assert(m@ =~= edition_error_text(s@));
            }
            Err(m)
        }
    }
}

impl Mode {
    /// Parse a compilation mode; any other value is an error naming it.
    pub fn from_str(s: &str) -> (r: Result<Mode, String>)
        ensures
            match spec_parse_mode(s@) {
                Some(x) => r == Ok::<Mode, String>(x),
                None => r matches Err(m) && m@ == mode_error_text(s@),
            },
    {
        if str_eq(s, "debug") {
            Ok(Mode::Debug)
        } else if str_eq(s, "release") {
            Ok(Mode::Release)
        } else {
            let mut m = String::from_str("invalid compilation mode `");
            m.append(s);
            m.append("`");
            proof {
                assert(m@ =~= mode_error_text(s@));
            }
            Err(m)
        }
    }
}

/// Parse a boolean literal, as the warn flag takes it.
pub fn parse_warn(s: &str) -> (r: Option<bool>)
    ensures
        r == spec_parse_warn(s@),
{
    if str_eq(s, "true") {
        Some(true)
    } else if str_eq(s, "false") {
        Some(false)
    } else {
        None
    }
}

/// The channel the parsed flags end up with: the given one if present and
/// valid, the default otherwise.
pub open spec fn spec_channel_choice(p: FlagParams) -> Channel {
    match p.channel {
        Some(s) => match spec_parse_channel(s@) {
            Some(c) => c,
            None => Channel::Nightly,
        },
        None => Channel::Nightly,
    }
}

pub open spec fn spec_mode_choice(p: FlagParams) -> Mode {
    match p.mode {
        Some(s) => match spec_parse_mode(s@) {
            Some(m) => m,
            None => Mode::Debug,
        },
        None => Mode::Debug,
    }
}

pub open spec fn spec_edition_choice(p: FlagParams) -> Edition {
    match p.edition {
        Some(s) => match spec_parse_edition(s@) {
            Some(e) => e,
            None => Edition::E2018,
        },
        None => Edition::E2018,
    }
}

pub open spec fn spec_warn_choice(p: FlagParams) -> bool {
    match p.warn {
        Some(s) => match spec_parse_warn(s@) {
            Some(w) => w,
            None => false,
        },
        None => false,
    }
}

/// The flags that parsing the given parameters yields.
pub open spec fn spec_flags(p: FlagParams) -> CommandFlags {
    CommandFlags {
        channel: spec_channel_choice(p),
        mode: spec_mode_choice(p),
        edition: spec_edition_choice(p),
    }
}

pub open spec fn spec_channel_error(p: FlagParams) -> Seq<char> {
    match p.channel {
        Some(s) => if spec_parse_channel(s@) is None {
            channel_error_text(s@) + "\n"@
        } else {
            Seq::<char>::empty()
        },
        None => Seq::<char>::empty(),
    }
}

pub open spec fn spec_mode_error(p: FlagParams) -> Seq<char> {
    match p.mode {
        Some(s) => if spec_parse_mode(s@) is None {
            mode_error_text(s@) + "\n"@
        } else {
            Seq::<char>::empty()
        },
        None => Seq::<char>::empty(),
    }
}

pub open spec fn spec_edition_error(p: FlagParams) -> Seq<char> {
    match p.edition {
        Some(s) => if spec_parse_edition(s@) is None {
            edition_error_text(s@) + "\n"@
        } else {
            Seq::<char>::empty()
        },
        None => Seq::<char>::empty(),
    }
}

pub open spec fn spec_warn_error(p: FlagParams) -> Seq<char> {
    match p.warn {
        Some(s) => if spec_parse_warn(s@) is None {
            "invalid warn bool\n"@
        } else {
            Seq::<char>::empty()
        },
        None => Seq::<char>::empty(),
    }
}

/// The accumulated parse-error text, one line per malformed flag, in the
/// fixed order channel, mode, edition, warn.
pub open spec fn spec_flag_errors(p: FlagParams) -> Seq<char> {
    spec_channel_error(p) + spec_mode_error(p) + spec_edition_error(p) + spec_warn_error(p)
}

/// A valid flag value parses to its exact enum and contributes no error
/// text; an invalid one keeps the default and contributes a line naming the
/// field and the offending value; and with every given value valid the whole
/// error text is empty.
pub proof fn lemma_flag_parsing(p: FlagParams)
    ensures
        match p.channel {
            Some(s) => match spec_parse_channel(s@) {
                Some(c) => spec_flags(p).channel == c && spec_channel_error(p).len() == 0,
                None => spec_flags(p).channel == Channel::Nightly && spec_channel_error(p)
                    == channel_error_text(s@) + "\n"@,
            },
            None => spec_flags(p).channel == Channel::Nightly && spec_channel_error(p).len() == 0,
        },
        match p.mode {
            Some(s) => match spec_parse_mode(s@) {
                Some(m) => spec_flags(p).mode == m && spec_mode_error(p).len() == 0,
                None => spec_flags(p).mode == Mode::Debug && spec_mode_error(p)
                    == mode_error_text(s@) + "\n"@,
            },
            None => spec_flags(p).mode == Mode::Debug && spec_mode_error(p).len() == 0,
        },
        match p.edition {
            Some(s) => match spec_parse_edition(s@) {
                Some(e) => spec_flags(p).edition == e && spec_edition_error(p).len() == 0,
                None => spec_flags(p).edition == Edition::E2018 && spec_edition_error(p)
                    == edition_error_text(s@) + "\n"@,
            },
            None => spec_flags(p).edition == Edition::E2018 && spec_edition_error(p).len() == 0,
        },
        match p.warn {
            Some(s) => match spec_parse_warn(s@) {
                Some(w) => spec_warn_choice(p) == w && spec_warn_error(p).len() == 0,
                None => spec_warn_choice(p) == false && spec_warn_error(p)
                    == "invalid warn bool\n"@,
            },
            None => spec_warn_choice(p) == false && spec_warn_error(p).len() == 0,
        },
        spec_channel_error(p).len() == 0 && spec_mode_error(p).len() == 0 && spec_edition_error(
            p,
        ).len() == 0 && spec_warn_error(p).len() == 0 ==> spec_flag_errors(p).len() == 0,
{
}

/// Parse all recognized flags, falling back to the defaults on malformed
/// values. Returns the flags, whether warnings are requested, and the
/// accumulated parse-error text.
pub fn parse_flags(params: &FlagParams) -> (r: (CommandFlags, bool, String))
    ensures
        r.0 == spec_flags(*params),
        r.1 == spec_warn_choice(*params),
        r.2@ == spec_flag_errors(*params),
{
    let mut errors = String::new();

    let mut flags = CommandFlags {
        channel: Channel::Nightly,
        mode: Mode::Debug,
        edition: Edition::E2018,
    };
    let mut warnings = false;

    match &params.channel {
        Some(s) => match Channel::from_str(s.as_str()) {
            Ok(c) => {
                flags.channel = c;
            },
            Err(e) => {
                errors.append(e.as_str());
                errors.append("\n");
            },
        },
        None => {},
    }
    proof {
        assert(errors@ =~= spec_channel_error(*params));
    }

    match &params.mode {
        Some(s) => match Mode::from_str(s.as_str()) {
            Ok(m) => {
                flags.mode = m;
            },
            Err(e) => {
                errors.append(e.as_str());
                errors.append("\n");
            },
        },
        None => {},
    }
    proof {
        assert(errors@ =~= spec_channel_error(*params) + spec_mode_error(*params));
    }

    match &params.edition {
        Some(s) => match Edition::from_str(s.as_str()) {
            Ok(e) => {
                flags.edition = e;
            },
            Err(e) => {
                errors.append(e.as_str());
                errors.append("\n");
            },
        },
        None => {},
    }
    proof {
        assert(errors@ =~= spec_channel_error(*params) + spec_mode_error(*params)
            + spec_edition_error(*params));
    }

    match &params.warn {
        Some(s) => match parse_warn(s.as_str()) {
            Some(w) => {
                warnings = w;
            },
            None => {
                errors.append("invalid warn bool\n");
            },
        },
        None => {},
    }
    proof {
        assert(errors@ =~= spec_flag_errors(*params));
    }

    (flags, warnings, errors)
}

} // verus!
