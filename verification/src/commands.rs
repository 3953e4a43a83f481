//! The three user-facing commands. Each one turns a command body and its
//! parameters into either an immediate reply (no remote call) or a prepared
//! request for the caller to send, together with everything needed to render
//! the response afterwards.

use vstd::prelude::*;
use crate::extract::{extract_code, extract_code_spec};
use crate::flags::{
    parse_flags, spec_flag_errors, spec_flags, spec_warn_choice, Channel, CommandFlags, Edition,
    FlagParams, Mode,
};
use crate::text::{contains_seq, contains_sub};

verus! {

/// Whether submitted code is a runnable program or a library fragment.
#[derive(Clone, Copy, Debug, PartialEq, Eq, Structural)]
pub enum CrateType {
    Binary,
    Library,
}

/// The payload for the remote execute endpoint.
#[derive(Debug)]
pub struct PlaygroundRequest {
    pub channel: Channel,
    pub edition: Edition,
    pub code: String,
    pub crate_type: CrateType,
    pub mode: Mode,
    pub tests: bool,
}

/// The payload for the remote UB-check endpoint.
#[derive(Debug)]
pub struct MiriRequest {
    pub edition: Edition,
    pub code: String,
}

/// A prepared execute request, with what the response handling needs later:
/// the resolved flags (for the paste URL), the warn switch, and the
/// accumulated flag parse errors.
#[derive(Debug)]
pub struct PendingRun {
    pub request: PlaygroundRequest,
    pub flags: CommandFlags,
    pub warn: bool,
    pub flag_parse_errors: String,
}

/// A prepared UB-check request, with the same response-handling context.
#[derive(Debug)]
pub struct PendingMiri {
    pub request: MiriRequest,
    pub flags: CommandFlags,
    pub warn: bool,
    pub flag_parse_errors: String,
}

/// What a `play` or `eval` command asks the caller to do.
#[derive(Debug)]
pub enum PlayAction {
    Reply(String),
    Run(PendingRun),
}

/// What a `miri` command asks the caller to do.
#[derive(Debug)]
pub enum MiriAction {
    Reply(String),
    Run(PendingMiri),
}

/// The substring that marks a program entry point.
pub open spec fn entry_point_marker() -> Seq<char> {
    "fn main"@
}

/// A snippet with the entry-point marker is a runnable program, anything
/// else a library fragment. A marker inside a string literal misclassifies;
/// that is a known, accepted limit of the heuristic.
pub open spec fn spec_crate_type(code: Seq<char>) -> CrateType {
    if contains_seq(code, entry_point_marker()) {
        CrateType::Binary
    } else {
        CrateType::Library
    }
}

/// Classify a snippet by the entry-point heuristic.
pub fn classify_crate_type(code: &str) -> (r: CrateType)
    ensures
        r == spec_crate_type(code@),
{
    if contains_sub(code, "fn main") {
        CrateType::Binary
    } else {
        CrateType::Library
    }
}

/// The fixed reply for a command body without a fenced code block.
pub open spec fn missing_code_block_text() -> Seq<char> {
    "Missing code block. Please use the following markdown:\n```rust\n    code here\n```"@
}

/// The fixed reply for `eval` input that already has an entry point.
pub open spec fn eval_entry_point_text() -> Seq<char> {
    "code passed to ?eval should not contain `fn main`"@
}

/// The run that a snippet and a parameter set lead to.
pub open spec fn spec_pending_run(p: PendingRun, code: Seq<char>, params: FlagParams) -> bool {
    &&& p.request.code@ == code
    &&& p.request.channel == spec_flags(params).channel
    &&& p.request.edition == spec_flags(params).edition
    &&& p.request.mode == spec_flags(params).mode
    &&& p.request.crate_type == spec_crate_type(code)
    &&& p.request.tests == false
    &&& p.flags == spec_flags(params)
    &&& p.warn == spec_warn_choice(params)
    &&& p.flag_parse_errors@ == spec_flag_errors(params)
}

/// The UB-check run that a snippet and a parameter set lead to.
pub open spec fn spec_pending_miri(p: PendingMiri, code: Seq<char>, params: FlagParams) -> bool {
    &&& p.request.code@ == code
    &&& p.request.edition == spec_flags(params).edition
    &&& p.flags == spec_flags(params)
    &&& p.warn == spec_warn_choice(params)
    &&& p.flag_parse_errors@ == spec_flag_errors(params)
}

/// Parse the flags and build the execute request for this snippet.
pub fn prepare_run(code: String, params: &FlagParams) -> (r: PendingRun)
    ensures
        spec_pending_run(r, code@, *params),
{
    let (flags, warn, flag_parse_errors) = parse_flags(params);
    let crate_type = classify_crate_type(code.as_str());
    PendingRun {
        request: PlaygroundRequest {
            channel: flags.channel,
            edition: flags.edition,
            code,
            crate_type,
            mode: flags.mode,
            tests: false,
        },
        flags,
        warn,
        flag_parse_errors,
    }
}

/// The synthetic program shell `eval` puts around an expression.
pub open spec fn eval_header() -> Seq<char> {
    "fn main() {\n    println!(\"{:?}\", {\n"@
}

pub open spec fn eval_footer() -> Seq<char> {
    "    });\n}"@
}

pub open spec fn eval_indent() -> Seq<char> {
    "        "@
}

/// The rest of the indented block, one character of the snippet at a time:
/// a newline closes the line and, if more follows, opens an indented one; a
/// carriage return directly before a newline is dropped; the end of the
/// snippet closes the last line.
pub open spec fn wrapped_tail(s: Seq<char>) -> Seq<char>
    decreases s.len(),
{
    if s.len() == 0 {
        "\n"@
    } else if s[0] == '\n' {
        if s.len() == 1 {
            "\n"@
        } else {
            "\n"@ + eval_indent() + wrapped_tail(s.skip(1))
        }
    } else if s[0] == '\r' && s.len() >= 2 && s[1] == '\n' {
        wrapped_tail(s.skip(1))
    } else {
        seq![s[0]] + wrapped_tail(s.skip(1))
    }
}

/// The snippet as an indented block: every line indented and closed by a
/// newline; an empty snippet stays empty.
pub open spec fn wrap_lines(s: Seq<char>) -> Seq<char> {
    if s.len() == 0 {
        Seq::<char>::empty()
    } else {
        eval_indent() + wrapped_tail(s)
    }
}

/// The full program `eval` submits for a snippet.
pub open spec fn wrapped_code(code: Seq<char>) -> Seq<char> {
    eval_header() + wrap_lines(code) + eval_footer()
}

/// Wrap a snippet into the synthetic program that prints its debug form.
pub fn wrap_code(code: &str) -> (r: String)
    ensures
        r@ == wrapped_code(code@),
{
    let n = code.unicode_len();
    let mut out = String::from_str("fn main() {\n    println!(\"{:?}\", {\n");
    if n > 0 {
        out.append("        ");
        proof {
            assert(code@.skip(0) =~= code@);
            assert(out@ =~= eval_header() + eval_indent());
        }
        let mut i: usize = 0;
        while i < n
            invariant
                n == code@.len(),
                n > 0,
                i <= n,
                out@ + wrapped_tail(code@.skip(i as int)) == eval_header() + eval_indent()
                    + wrapped_tail(code@),
            decreases n - i,
        {
            let ghost prev = out@;
            let ghost s = code@.skip(i as int);
            proof {
                assert(s.len() == n - i);
                assert(s[0] == code@[i as int]);
                assert(s.skip(1) =~= code@.skip(i + 1));
            }
            let c = code.get_char(i);
            if c == '\n' {
                if i + 1 < n {
                    out.append("\n");
                    out.append("        ");
                    proof {
                        assert(out@ + wrapped_tail(code@.skip(i + 1)) =~= prev + wrapped_tail(s));
                    }
                }
            } else if c == '\r' && i + 1 < n && code.get_char(i + 1) == '\n' {
                proof {
                    assert(s[1] == code@[i + 1]);
                    assert(wrapped_tail(s) == wrapped_tail(code@.skip(i + 1)));
                }
            } else {
                out.push(c);
                proof {
                    assert(out@ + wrapped_tail(code@.skip(i + 1)) =~= prev + wrapped_tail(s));
                }
            }
            i += 1;
        }
        proof {
            assert(code@.skip(n as int) =~= Seq::<char>::empty());
        }
        out.append("\n");
    }
    out.append("    });\n}");
    proof {
        assert(out@ =~= wrapped_code(code@));
    }
    out
}

/// play: run the submitted code as it stands. A body without a code block
/// gets the fixed reply and asks for no remote call.
pub fn play(body: &str, params: &FlagParams) -> (r: PlayAction)
    ensures
        match extract_code_spec(body@) {
            None => r matches PlayAction::Reply(m) && m@ == missing_code_block_text(),
            Some(code) => r matches PlayAction::Run(p) && spec_pending_run(p, code, *params),
        },
{
    match extract_code(body) {
        Some(code) => PlayAction::Run(prepare_run(code, params)),
        None => PlayAction::Reply(
            "Missing code block. Please use the following markdown:\n```rust\n    code here\n```".to_owned(),
        ),
    }
}

/// eval: wrap the snippet into a program that prints its value. A snippet
/// that already has an entry point gets the usage reply and asks for no
/// remote call; so does a body without a code block.
pub fn eval(body: &str, params: &FlagParams) -> (r: PlayAction)
    ensures
        match extract_code_spec(body@) {
            None => r matches PlayAction::Reply(m) && m@ == missing_code_block_text(),
            Some(code) => if contains_seq(code, entry_point_marker()) {
                r matches PlayAction::Reply(m) && m@ == eval_entry_point_text()
            } else {
                r matches PlayAction::Run(p) && spec_pending_run(p, wrapped_code(code), *params)
            },
        },
{
    let code = match extract_code(body) {
        Some(x) => x,
        None => {
            return PlayAction::Reply(
                "Missing code block. Please use the following markdown:\n```rust\n    code here\n```".to_owned(),
            );
        },
    };
    if contains_sub(code.as_str(), "fn main") {
        return PlayAction::Reply("code passed to ?eval should not contain `fn main`".to_owned());
    }
    let full_code = wrap_code(code.as_str());
    PlayAction::Run(prepare_run(full_code, params))
}

/// miri: run the snippet through the UB-check endpoint instead; the flag
/// handling and the missing-code-block reply are the same as for play.
pub fn miri(body: &str, params: &FlagParams) -> (r: MiriAction)
    ensures
        match extract_code_spec(body@) {
            None => r matches MiriAction::Reply(m) && m@ == missing_code_block_text(),
            Some(code) => r matches MiriAction::Run(p) && spec_pending_miri(p, code, *params),
        },
{
    let code = match extract_code(body) {
        Some(x) => x,
        None => {
            return MiriAction::Reply(
                "Missing code block. Please use the following markdown:\n```rust\n    code here\n```".to_owned(),
            );
        },
    };
    let (flags, warn, flag_parse_errors) = parse_flags(params);
    MiriAction::Run(
        PendingMiri {
            request: MiriRequest { edition: flags.edition, code },
            flags,
            warn,
            flag_parse_errors,
        },
    )
}

/// The help text for play and eval, around the command's own name.
pub open spec fn play_help_text(name: Seq<char>) -> Seq<char> {
    "Compile and run rust code. All code is executed on https://play.rust-lang.org.\n```?"@
        + name
        + " mode={} channel={} edition={} warn={} ``\u{200B}`code``\u{200B}` ```\nOptional arguments:\n    \tmode: debug, release (default: debug)\n    \tchannel: stable, beta, nightly (default: nightly)\n    \tedition: 2015, 2018 (default: 2018)\n    \twarn: boolean flag to enable compilation warnings\n    "@
}

/// Build the usage message for the named run command.
pub fn play_and_eval_help(name: &str) -> (r: String)
    ensures
        r@ == play_help_text(name@),
{
    let mut m = String::from_str(
        "Compile and run rust code. All code is executed on https://play.rust-lang.org.\n```?",
    );
    m.append(name);
    m.append(
        " mode={} channel={} edition={} warn={} ``\u{200B}`code``\u{200B}` ```\nOptional arguments:\n    \tmode: debug, release (default: debug)\n    \tchannel: stable, beta, nightly (default: nightly)\n    \tedition: 2015, 2018 (default: 2018)\n    \twarn: boolean flag to enable compilation warnings\n    ",
    );
    proof {
        assert(m@ =~= play_help_text(name@));
    }
    m
}

/// The help text for miri.
pub open spec fn miri_help_text() -> Seq<char> {
    "Execute this program in the Miri interpreter to detect certain cases of undefined behavior\n(like out-of-bounds memory access). All code is executed on https://play.rust-lang.org.\n```?{} edition={{}} warn={{}} ``\u{200B}`code``\u{200B}` ```\nOptional arguments:\n    \tedition: 2015, 2018 (default: 2018)\n    \twarn: boolean flag to enable compilation warnings"@
}

/// Build the usage message for the miri command.
pub fn miri_help() -> (r: String)
    ensures
        r@ == miri_help_text(),
{
    "Execute this program in the Miri interpreter to detect certain cases of undefined behavior\n(like out-of-bounds memory access). All code is executed on https://play.rust-lang.org.\n```?{} edition={{}} warn={{}} ``\u{200B}`code``\u{200B}` ```\nOptional arguments:\n    \tedition: 2015, 2018 (default: 2018)\n    \twarn: boolean flag to enable compilation warnings".to_owned()
}

} // verus!
