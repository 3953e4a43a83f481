//! Rendering of a remote execution result into the reply text, and the
//! decision whether that reply fits inline or must be offloaded to a paste.

use vstd::prelude::*;

verus! {

/// The remote service's answer: whether the run succeeded, and the two
/// output streams, taken verbatim from its response.
#[derive(Debug)]
pub struct PlayResult {
    pub success: bool,
    pub stdout: String,
    pub stderr: String,
}

/// Longest reply the chat platform accepts inline, in characters.
pub const MAX_MESSAGE_LEN: usize = 2000;

/// Which stream(s) the reply shows: both when warnings are requested,
/// otherwise the one that matters for the outcome.
pub open spec fn spec_rendered(success: bool, stdout: Seq<char>, stderr: Seq<char>, warn: bool) -> Seq<char> {
    if warn {
        stderr + "\n"@ + stdout
    } else if success {
        stdout
    } else {
        stderr
    }
}

/// The reply for a run with no output: the parse errors and an explicitly
/// empty fenced block.
pub open spec fn spec_empty_reply(errors: Seq<char>) -> Seq<char> {
    errors + "``` ```"@
}

/// The inline reply: the parse errors, then the rendered output fenced.
pub open spec fn spec_inline_reply(errors: Seq<char>, rendered: Seq<char>) -> Seq<char> {
    errors + "```\n"@ + rendered + "```"@
}

/// Pick and concatenate the streams to show for this result.
pub fn render_play_result(result: &PlayResult, warn: bool) -> (r: String)
    ensures
        r@ == spec_rendered(result.success, result.stdout@, result.stderr@, warn),
{
    if warn {
        let mut out = result.stderr.clone();
        out.append("\n");
        out.append(result.stdout.as_str());
        proof {
            assert(out@ =~= spec_rendered(result.success, result.stdout@, result.stderr@, warn));
        }
        out
    } else if result.success {
        result.stdout.clone()
    } else {
        result.stderr.clone()
    }
}

/// What the caller must do with a finished run: send a text as the reply,
/// or first upload the code as a paste because the text would be too long.
#[derive(Debug)]
pub enum ReplyPlan {
    Send(String),
    UploadGist,
}

/// Decide the reply for an execution result. An empty rendering still gets a
/// reply (an empty fenced block); a rendering that fits the message limit is
/// sent inline; only a rendering that does not fit asks for the paste upload.
pub fn send_play_result_reply(result: &PlayResult, warn: bool, flag_parse_errors: &str) -> (r:
    ReplyPlan)
    ensures
        ({
            let rendered = spec_rendered(result.success, result.stdout@, result.stderr@, warn);
            if rendered.len() == 0 {
                r matches ReplyPlan::Send(t) && t@ == spec_empty_reply(flag_parse_errors@)
            } else if spec_inline_reply(flag_parse_errors@, rendered).len() <= MAX_MESSAGE_LEN {
                r matches ReplyPlan::Send(t) && t@ == spec_inline_reply(
                    flag_parse_errors@,
                    rendered,
                )
            } else {
                r is UploadGist
            }
        }),
{
    let rendered = render_play_result(result, warn);
    if rendered.as_str().unicode_len() == 0 {
        let mut reply = String::from_str(flag_parse_errors);
        reply.append("``` ```");
        proof {
            assert(reply@ =~= spec_empty_reply(flag_parse_errors@));
        }
        ReplyPlan::Send(reply)
    } else {
        let mut reply = String::from_str(flag_parse_errors);
        reply.append("```\n");
        reply.append(rendered.as_str());
        reply.append("```");
        proof {
            assert(reply@ =~= spec_inline_reply(
                flag_parse_errors@,
                spec_rendered(result.success, result.stdout@, result.stderr@, warn),
            ));
        }
        if reply.as_str().unicode_len() <= MAX_MESSAGE_LEN {
            ReplyPlan::Send(reply)
        } else {
            ReplyPlan::UploadGist
        }
    }
}

} // verus!
