use playground::commands::{
    classify_crate_type, eval, miri, miri_help, play, play_and_eval_help, wrap_code, CrateType,
    MiriAction, PlayAction,
};
use playground::extract::extract_code;
use playground::flags::{Channel, Edition, FlagParams, Mode};

fn no_params() -> FlagParams {
    FlagParams {
        channel: None,
        mode: None,
        edition: None,
        warn: None,
    }
}

const MISSING: &str =
    "Missing code block. Please use the following markdown:\n```rust\n    code here\n```";

#[test]
fn entry_point_marker_classifies_as_binary() {
    assert_eq!(classify_crate_type("fn main() {}"), CrateType::Binary);
    assert_eq!(
        classify_crate_type("mod x; fn main() { x::go() }"),
        CrateType::Binary
    );
}

#[test]
fn no_entry_point_classifies_as_library() {
    assert_eq!(classify_crate_type("pub fn add(a: u8) -> u8 { a }"), CrateType::Library);
    assert_eq!(classify_crate_type(""), CrateType::Library);
}

#[test]
fn marker_inside_a_string_still_counts() {
    // known, accepted limit of the substring heuristic
    assert_eq!(
        classify_crate_type("const S: &str = \"fn main\";"),
        CrateType::Binary
    );
}

#[test]
fn extract_takes_the_first_fenced_block() {
    assert_eq!(
        extract_code("before ```let x = 1;``` after"),
        Some("let x = 1;".to_string())
    );
}

#[test]
fn extract_strips_language_tag_and_leading_newline() {
    assert_eq!(
        extract_code("```rust\nlet x = 1;\n```"),
        Some("let x = 1;\n".to_string())
    );
    assert_eq!(extract_code("```\nabc```"), Some("abc".to_string()));
}

#[test]
fn extract_needs_both_fences() {
    assert_eq!(extract_code("no code here"), None);
    assert_eq!(extract_code("only one ``` fence"), None);
}

#[test]
fn play_without_code_block_replies_and_never_runs() {
    match play("just words", &no_params()) {
        PlayAction::Reply(m) => assert_eq!(m, MISSING),
        PlayAction::Run(_) => panic!("no code block must not issue a remote call"),
    }
}

#[test]
fn eval_without_code_block_replies_and_never_runs() {
    match eval("just words", &no_params()) {
        PlayAction::Reply(m) => assert_eq!(m, MISSING),
        PlayAction::Run(_) => panic!("no code block must not issue a remote call"),
    }
}

#[test]
fn miri_without_code_block_replies_and_never_runs() {
    match miri("just words", &no_params()) {
        MiriAction::Reply(m) => assert_eq!(m, MISSING),
        MiriAction::Run(_) => panic!("no code block must not issue a remote call"),
    }
}

#[test]
fn play_builds_the_execute_request() {
    let params = FlagParams {
        channel: Some("stable".to_string()),
        mode: Some("release".to_string()),
        edition: Some("2015".to_string()),
        warn: Some("true".to_string()),
    };
    match play("run this: ```fn main() { println!(\"hi\"); }```", &params) {
        PlayAction::Run(p) => {
            assert_eq!(p.request.code, "fn main() { println!(\"hi\"); }");
            assert_eq!(p.request.channel, Channel::Stable);
            assert_eq!(p.request.mode, Mode::Release);
            assert_eq!(p.request.edition, Edition::E2015);
            assert_eq!(p.request.crate_type, CrateType::Binary);
            assert!(!p.request.tests);
            assert!(p.warn);
            assert_eq!(p.flag_parse_errors, "");
        }
        PlayAction::Reply(m) => panic!("expected a run, got reply {m:?}"),
    }
}

#[test]
fn play_with_bad_flag_still_runs_with_defaults() {
    let params = FlagParams {
        channel: Some("blue".to_string()),
        mode: None,
        edition: None,
        warn: None,
    };
    match play("```let x = 1;```", &params) {
        PlayAction::Run(p) => {
            assert_eq!(p.request.channel, Channel::Nightly);
            assert_eq!(p.request.crate_type, CrateType::Library);
            assert_eq!(p.flag_parse_errors, "invalid release channel `blue`\n");
        }
        PlayAction::Reply(m) => panic!("expected a run, got reply {m:?}"),
    }
}

#[test]
fn eval_with_entry_point_replies_and_never_runs() {
    match eval("```fn main() {}```", &no_params()) {
        PlayAction::Reply(m) => {
            assert_eq!(m, "code passed to ?eval should not contain `fn main`")
        }
        PlayAction::Run(_) => panic!("eval with an entry point must not issue a remote call"),
    }
}

#[test]
fn eval_wraps_the_snippet() {
    match eval("```1+1```", &no_params()) {
        PlayAction::Run(p) => {
            assert_eq!(
                p.request.code,
                "fn main() {\n    println!(\"{:?}\", {\n        1+1\n    });\n}"
            );
            assert_eq!(p.request.crate_type, CrateType::Binary);
        }
        PlayAction::Reply(m) => panic!("expected a run, got reply {m:?}"),
    }
}

#[test]
fn wrap_indents_every_line() {
    assert_eq!(
        wrap_code("let a = 1;\na"),
        "fn main() {\n    println!(\"{:?}\", {\n        let a = 1;\n        a\n    });\n}"
    );
}

#[test]
fn wrap_drops_carriage_returns_before_newlines() {
    assert_eq!(
        wrap_code("a\r\nb"),
        "fn main() {\n    println!(\"{:?}\", {\n        a\n        b\n    });\n}"
    );
}

#[test]
fn wrap_of_empty_snippet_is_just_the_shell() {
    assert_eq!(wrap_code(""), "fn main() {\n    println!(\"{:?}\", {\n    });\n}");
}

#[test]
fn miri_builds_the_check_request() {
    let params = FlagParams {
        channel: None,
        mode: None,
        edition: Some("2015".to_string()),
        warn: None,
    };
    match miri("```let b = [0u8; 1]; b[1]```", &params) {
        MiriAction::Run(p) => {
            assert_eq!(p.request.edition, Edition::E2015);
            assert_eq!(p.request.code, "let b = [0u8; 1]; b[1]");
            assert_eq!(p.flags.edition, Edition::E2015);
            assert_eq!(p.flag_parse_errors, "");
        }
        MiriAction::Reply(m) => panic!("expected a run, got reply {m:?}"),
    }
}

#[test]
fn play_help_names_the_command_and_the_flags() {
    let h = play_and_eval_help("play");
    assert!(h.starts_with(
        "Compile and run rust code. All code is executed on https://play.rust-lang.org.\n```?play mode={}"
    ));
    assert!(h.contains("mode: debug, release (default: debug)"));
    assert!(h.contains("channel: stable, beta, nightly (default: nightly)"));
    assert!(h.contains("edition: 2015, 2018 (default: 2018)"));
    assert!(h.contains("warn: boolean flag to enable compilation warnings"));
}

#[test]
fn miri_help_names_the_flags() {
    let h = miri_help();
    assert!(h.starts_with(
        "Execute this program in the Miri interpreter to detect certain cases of undefined behavior"
    ));
    assert!(h.contains("edition: 2015, 2018 (default: 2018)"));
    assert!(h.contains("warn: boolean flag to enable compilation warnings"));
}
