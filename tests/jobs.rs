use inv_sig_helper::jobs::{
    decrypt_call, decrypt_response, interpreter_count, loaded_after, process_decrypt_n_signature,
    process_decrypt_signature, DecryptPlan, JobOpcode, PlayerInfo,
};
use inv_sig_helper::player::Extracted;
use inv_sig_helper::text::{
    escape_char, format_decimal, format_hex_padded, parse_unsigned, split_field,
    strip_prefix_text, trim_blanks,
};

fn player(found: bool) -> PlayerInfo {
    let mut info = PlayerInfo::new(0);
    let e = Extracted {
        nsig_code: "function decrypt_nsig(a){return a}".to_string(),
        sig_code: "var sg;sg=function(a){return a}".to_string(),
        sig_name: "sg".to_string(),
        sig_found: found,
        signature_timestamp: 3,
    };
    info.commit(42, e, 0).unwrap();
    info
}

fn evaluate(plan: DecryptPlan) -> (Option<String>, String) {
    match plan {
        DecryptPlan::Evaluate { load, call } => (load, call),
        _ => panic!("expected an evaluation"),
    }
}

#[test]
fn call_escapes_double_quotes() {
    assert_eq!(decrypt_call("decrypt_nsig", "a\"b"), "decrypt_nsig(\"a\\\"b\")");
    assert_eq!(escape_char("x\"y\"", '"'), "x\\\"y\\\"");
    assert_eq!(escape_char("$a$", '$'), "\\$a\\$");
}

#[test]
fn first_request_loads_and_repeat_does_not() {
    let info = player(true);
    let (load, call) = evaluate(process_decrypt_n_signature(&info, 0, "abc"));
    assert_eq!(load.as_deref(), Some("function decrypt_nsig(a){return a}"));
    assert_eq!(call, "decrypt_nsig(\"abc\")");
    let now_loaded = loaded_after(0, info.player_id, true);
    assert_eq!(now_loaded, 42);
    let (load2, call2) = evaluate(process_decrypt_n_signature(&info, now_loaded, "abc"));
    assert!(load2.is_none());
    assert_eq!(call2, call);
    assert_eq!(loaded_after(7, 42, false), 7);
}

#[test]
fn sig_request_calls_named_routine() {
    let info = player(true);
    let (load, call) = evaluate(process_decrypt_signature(&info, 1, "q\"w"));
    assert_eq!(load.as_deref(), Some("var sg;sg=function(a){return a}"));
    assert_eq!(call, "sg(\"q\\\"w\")");
}

#[test]
fn empty_signature_is_not_evaluated() {
    let info = player(true);
    for plan in [
        process_decrypt_n_signature(&info, 0, ""),
        process_decrypt_signature(&info, 0, ""),
    ] {
        match plan {
            DecryptPlan::Answer { output } => assert_eq!(output, ""),
            _ => panic!("empty signature must be answered at once"),
        }
    }
}

#[test]
fn external_helper_plan() {
    let mut info = PlayerInfo::new(0);
    info.commit_external(5, 9, 0).unwrap();
    assert!(matches!(process_decrypt_signature(&info, 0, "a"), DecryptPlan::ExternalHelper));
    assert!(matches!(process_decrypt_n_signature(&info, 0, "a"), DecryptPlan::ExternalHelper));
}

#[test]
fn eval_failure_answers_empty() {
    let r = decrypt_response(JobOpcode::DecryptNSignature, 4, None);
    assert_eq!(r.signature, "");
    let big = "x".repeat(70000);
    let r = decrypt_response(JobOpcode::DecryptSignature, 4, Some(big));
    assert_eq!(r.signature, "");
    let r = decrypt_response(JobOpcode::DecryptSignature, 4, Some("ok".to_string()));
    assert_eq!(r.signature, "ok");
    assert_eq!(r.request_id, 4);
}

#[test]
fn snapshot_sees_committed_player() {
    let info = player(true);
    let s = info.snapshot();
    assert_eq!(s.player_id, 42);
    assert_eq!(s.nsig_function_code, info.nsig_function_code);
    assert_eq!(s.sig_function_name, "sg");
    assert_eq!(s.has_player, 0xFF);
}

#[test]
fn pool_has_at_least_one_interpreter() {
    assert_eq!(interpreter_count(None), 1);
    assert_eq!(interpreter_count(Some(0)), 1);
    assert_eq!(interpreter_count(Some(8)), 8);
}

#[test]
fn text_helpers() {
    assert_eq!(format_hex_padded(0x1a2b, 8), "00001a2b");
    assert_eq!(format_decimal(0), "0");
    assert_eq!(format_decimal(u64::MAX), "18446744073709551615");
    assert_eq!(parse_unsigned("18446744073709551615", false), Some(u64::MAX));
    assert_eq!(parse_unsigned("18446744073709551616", false), None);
    assert_eq!(parse_unsigned("ff", true), Some(255));
    assert_eq!(parse_unsigned("", false), None);
    assert_eq!(parse_unsigned("1a", false), None);
    assert_eq!(split_field("a,b,,c", ',', 0).as_deref(), Some("a"));
    assert_eq!(split_field("a,b,,c", ',', 2).as_deref(), Some(""));
    assert_eq!(split_field("a,b,,c", ',', 3).as_deref(), Some("c"));
    assert_eq!(split_field("a,b,,c", ',', 4), None);
    assert_eq!(strip_prefix_text("function f(a){x", "function f(a){").as_deref(), Some("x"));
    assert_eq!(strip_prefix_text("fun", "function"), None);
    assert_eq!(trim_blanks(" \t 12 \r\n"), "12");
    assert_eq!(trim_blanks("   "), "");
}
