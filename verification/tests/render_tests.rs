use playground::flags::{Channel, CommandFlags, Edition, Mode};
use playground::gist::{gist_id_from_response, gist_overflow_reply, url_from_gist};
use playground::render::{
    render_play_result, send_play_result_reply, PlayResult, ReplyPlan, MAX_MESSAGE_LEN,
};

fn result(success: bool, stdout: &str, stderr: &str) -> PlayResult {
    PlayResult {
        success,
        stdout: stdout.to_string(),
        stderr: stderr.to_string(),
    }
}

fn default_flags() -> CommandFlags {
    CommandFlags {
        channel: Channel::Nightly,
        mode: Mode::Debug,
        edition: Edition::E2018,
    }
}

#[test]
fn success_without_warn_renders_stdout_only() {
    let r = render_play_result(&result(true, "4", ""), false);
    assert_eq!(r, "4");
}

#[test]
fn failure_without_warn_renders_stderr_only() {
    let r = render_play_result(&result(false, "", "E0001"), false);
    assert_eq!(r, "E0001");
}

#[test]
fn warn_renders_stderr_then_stdout_regardless_of_success() {
    let r = render_play_result(&result(true, "A", "B"), true);
    assert_eq!(r, "B\nA");
    let r = render_play_result(&result(false, "A", "B"), true);
    assert_eq!(r, "B\nA");
}

#[test]
fn nonempty_output_is_fenced_inline() {
    match send_play_result_reply(&result(true, "4", ""), false, "") {
        ReplyPlan::Send(t) => assert_eq!(t, "```\n4```"),
        ReplyPlan::UploadGist => panic!("short output must not upload"),
    }
}

#[test]
fn flag_errors_are_prepended_to_the_reply() {
    match send_play_result_reply(&result(true, "4", ""), false, "invalid warn bool\n") {
        ReplyPlan::Send(t) => assert_eq!(t, "invalid warn bool\n```\n4```"),
        ReplyPlan::UploadGist => panic!("short output must not upload"),
    }
}

#[test]
fn empty_output_still_gets_an_empty_fenced_reply() {
    match send_play_result_reply(&result(true, "", "ignored"), false, "") {
        ReplyPlan::Send(t) => assert_eq!(t, "``` ```"),
        ReplyPlan::UploadGist => panic!("empty output must not upload"),
    }
}

#[test]
fn oversized_output_asks_for_the_paste_upload() {
    let big = "x".repeat(MAX_MESSAGE_LEN + 1);
    match send_play_result_reply(&result(true, &big, ""), false, "") {
        ReplyPlan::Send(_) => panic!("oversized output must upload"),
        ReplyPlan::UploadGist => {}
    }
}

#[test]
fn output_at_the_limit_is_still_sent_inline() {
    // the fences add seven characters around the rendered text
    let fitting = "x".repeat(MAX_MESSAGE_LEN - 7);
    match send_play_result_reply(&result(true, &fitting, ""), false, "") {
        ReplyPlan::Send(t) => assert_eq!(t.chars().count(), MAX_MESSAGE_LEN),
        ReplyPlan::UploadGist => panic!("fitting output must not upload"),
    }
}

#[test]
fn url_embeds_the_resolved_flags_and_id() {
    let flags = CommandFlags {
        channel: Channel::Stable,
        mode: Mode::Release,
        edition: Edition::E2015,
    };
    assert_eq!(
        url_from_gist(&flags, "abc123"),
        "https://play.rust-lang.org/?version=stable&mode=release&edition=2015&gist=abc123"
    );
}

#[test]
fn url_with_default_flags() {
    assert_eq!(
        url_from_gist(&default_flags(), "deadbeef"),
        "https://play.rust-lang.org/?version=nightly&mode=debug&edition=2018&gist=deadbeef"
    );
}

#[test]
fn overflow_reply_points_at_the_paste() {
    assert_eq!(
        gist_overflow_reply(&default_flags(), "deadbeef"),
        "Output too large. Playground link: https://play.rust-lang.org/?version=nightly&mode=debug&edition=2018&gist=deadbeef"
    );
}

#[test]
fn gist_id_is_taken_from_the_response() {
    assert_eq!(
        gist_id_from_response(Some("abc".to_string())),
        Ok("abc".to_string())
    );
}

#[test]
fn missing_gist_id_is_an_error() {
    assert_eq!(
        gist_id_from_response(None),
        Err("no gist found".to_string())
    );
}
