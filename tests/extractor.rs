use inv_sig_helper::player::{
    extract_fetched, extract_nsig_code, extract_player, extract_player_js_global_var,
    extract_sig_program, extract_signature_timestamp, finish_external_update, fixup_nsig_jscode,
    nsig_function_name, parse_helper_timestamp, parse_player_id, player_js_url, FetchUpdateStatus,
};
use inv_sig_helper::jobs::PlayerInfo;

fn player() -> String {
    [
    "'use strict';var XY=\"a;b;c\".split(\";\"),zq=1;\n",
    "var Hp={rv:function(a){a.reverse()},sw:function(a,b){var c=a[0];a[0]=a[b%a.length];a[b%a.length]=c}};\n",
    "Sg=function(a){a=a.split(\"\");Hp.rv(a,3);Hp.sw(a,1);return a.join(\"\")};\n",
    "var nfa=[Qx];\n",
    "Qx=function(a){var b=a.split(\"\");if(typeof zz===\"undefined\")return a;for(var i=0;i<1;i++){b.reverse()}return b.join(\"\")};\n",
    "g.k=function(a){if(c=a.get(b)){null)&&(b=nfa[0](b)}};\n",
    "var cfg={signatureTimestamp:19834};\n",
    ]
    .concat()
}

fn nsig_only() -> String {
    [
    "var nfa=[Zz,Qx];\n",
    "Qx=function(a){var b=a.split(\"\");if(typeof zz===\"undefined\")return a;for(var i=0;i<1;i++){b.reverse()}return b.join(\"\")};\n",
    "g.k=function(a){null)&&(b=nfa[1](b)};\n",
    "var cfg={signatureTimestamp:20000};\n",
    ]
    .concat()
}

#[test]
fn global_var_is_found() {
    let (code, name, value) = extract_player_js_global_var(&player()).unwrap();
    assert_eq!(code, "var XY=\"a;b;c\".split(\";\")");
    assert_eq!(name, "XY");
    assert_eq!(value, "\"a;b;c\".split(\";\")");
    assert!(extract_player_js_global_var(&nsig_only()).is_none());
}

#[test]
fn nsig_name_comes_from_the_array() {
    assert_eq!(nsig_function_name(&player()).unwrap(), "Qx");
    assert_eq!(nsig_function_name(&nsig_only()).unwrap(), "Qx");
    assert!(nsig_function_name("var x=1;").is_none());
}

#[test]
fn nsig_code_is_self_contained() {
    assert_eq!(
        extract_nsig_code(&player()).unwrap(),
        "function decrypt_nsig(a){var XY=\"a;b;c\".split(\";\"); var b=a.split(\"\");for(var i=0;i<1;i++){b.reverse()}return b.join(\"\")};"
    );
    assert_eq!(
        extract_nsig_code(&nsig_only()).unwrap(),
        "function decrypt_nsig(a){var b=a.split(\"\");for(var i=0;i<1;i++){b.reverse()}return b.join(\"\")};"
    );
}

#[test]
fn fixup_removes_guard() {
    let code = "function decrypt_nsig(b){var c=1; if (typeof q === \"undefined\") return b;return c};";
    assert_eq!(fixup_nsig_jscode(code, "var x;"), "function decrypt_nsig(b){var c=1;return c};");
}

#[test]
fn sig_program_is_composed() {
    let p = extract_sig_program(&player(), 5).unwrap();
    assert!(p.found);
    assert_eq!(p.name, "Sg");
    assert_eq!(
        p.code,
        [
            "var Sg; var XY=\"a;b;c\".split(\";\"); ",
            "var Hp={rv:function(a){a.reverse()},sw:function(a,b){var c=a[0];a[0]=a[b%a.length];a[b%a.length]=c}};",
            "Sg=function(a){a=a.split(\"\");Hp.rv(a,3);Hp.sw(a,1);return a.join(\"\")}"
        ]
        .concat()
    );
}

#[test]
fn missing_sig_function_gets_synthetic_name() {
    let p = extract_sig_program(&nsig_only(), 1700000000123).unwrap();
    assert!(!p.found);
    assert_eq!(p.name, "sig_function_1700000000123");
    assert_eq!(p.code, "var sig_function_1700000000123;");
}

#[test]
fn signature_timestamp_is_read() {
    assert_eq!(extract_signature_timestamp(&player()), Some(19834));
    assert_eq!(extract_signature_timestamp("signatureTimestamp=0"), None);
    assert_eq!(extract_signature_timestamp("signatureTimestamp:99999999999999999999999"), None);
    assert_eq!(extract_signature_timestamp("nothing"), None);
}

#[test]
fn whole_player_extracts() {
    let e = extract_player(&player(), 1).unwrap();
    assert_eq!(e.signature_timestamp, 19834);
    assert_eq!(e.sig_name, "Sg");
    assert!(e.sig_found);
    assert!(e.nsig_code.starts_with("function decrypt_nsig(a){"));
}

#[test]
fn extraction_errors() {
    assert_eq!(
        extract_player("signatureTimestamp:5", 1).err(),
        Some(FetchUpdateStatus::NsigRegexCompileFailed)
    );
    let no_ts = nsig_only().replace("signatureTimestamp:20000", "");
    assert_eq!(
        extract_player(&no_ts, 1).err(),
        Some(FetchUpdateStatus::CannotMatchSignatureTimestamp)
    );
    let no_helper = player().replace("var Hp=", "var Hq=");
    assert_eq!(
        extract_player(&no_helper, 1).err(),
        Some(FetchUpdateStatus::CannotExtractSignatureFunction)
    );
    assert_eq!(
        extract_fetched(None, 1).err(),
        Some(FetchUpdateStatus::CannotFetchPlayerJS)
    );
    assert!(extract_fetched(Some(&player()), 1).is_ok());
}

#[test]
fn player_id_parsing() {
    assert_eq!(parse_player_id("x /s/player/9f1c0e5a/base.js"), Some(0x9f1c0e5a));
    assert_eq!(parse_player_id("x /s/player/00000000/base.js"), None);
    assert_eq!(parse_player_id("x /s/player/9F1C0E5A/base.js"), None);
    assert_eq!(parse_player_id("no player here"), None);
}

#[test]
fn player_url_is_zero_padded() {
    assert_eq!(
        player_js_url(0xab),
        "https://www.youtube.com/s/player/000000ab/player_ias.vflset/en_US/base.js"
    );
}

#[test]
fn update_errors_before_fetching_player() {
    let mut info = PlayerInfo::new(3);
    assert!(matches!(
        inv_sig_helper::player::fetch_update(&mut info, None, 4),
        inv_sig_helper::player::UpdateStep::Finished(Err(FetchUpdateStatus::CannotFetchTestVideo))
    ));
    assert!(matches!(
        inv_sig_helper::player::fetch_update(&mut info, Some("<html>"), 4),
        inv_sig_helper::player::UpdateStep::Finished(Err(FetchUpdateStatus::CannotMatchPlayerID))
    ));
    assert_eq!(info.last_update, 3);
}

#[test]
fn concurrent_updates_commit_once() {
    let mut info = PlayerInfo::new(0);
    let landing = "/s/player/0000beef/";
    let a = inv_sig_helper::player::fetch_update(&mut info, Some(landing), 1);
    let b = inv_sig_helper::player::fetch_update(&mut info, Some(landing), 1);
    let (ia, ib) = match (a, b) {
        (
            inv_sig_helper::player::UpdateStep::FetchPlayer { player_id: x, .. },
            inv_sig_helper::player::UpdateStep::FetchPlayer { player_id: y, .. },
        ) => (x, y),
        _ => panic!("both updates should fetch the player"),
    };
    let ra = inv_sig_helper::player::finish_update(&mut info, ia, extract_player(&player(), 2), 2);
    let rb = inv_sig_helper::player::finish_update(&mut info, ib, extract_player(&nsig_only(), 3), 3);
    assert_eq!(ra, Ok(()));
    assert_eq!(rb, Err(FetchUpdateStatus::PlayerAlreadyUpdated));
    assert_eq!(info.signature_timestamp, 19834);
    assert_eq!(info.sig_function_name, "Sg");
    assert_eq!(info.last_update, 3);
}

#[test]
fn external_helper_update() {
    assert_eq!(parse_helper_timestamp(" 20123\n"), Some(20123));
    assert_eq!(parse_helper_timestamp("0\n"), None);
    assert_eq!(parse_helper_timestamp("error: x"), None);
    let mut info = PlayerInfo::new(0);
    assert_eq!(
        finish_external_update(&mut info, 0xbeef, Some("garbage"), 1),
        Err(FetchUpdateStatus::CannotMatchSignatureTimestamp)
    );
    assert_eq!(info.player_id, 0);
    assert_eq!(finish_external_update(&mut info, 0xbeef, Some("20123\n"), 1), Ok(()));
    assert!(info.external_helper);
    assert_eq!(info.signature_timestamp, 20123);
    assert_eq!(info.has_player, 0xFF);
    assert!(info.nsig_function_code.is_empty());
}

#[test]
fn global_name_is_escaped_in_sig_patterns() {
    let js = [
        "'use strict';var a$b=\"split;join;reverse;x\".split(\";\"),zq=1;\n",
        "var Hp={rv:function(a){a.reverse()},sw:function(a,b){var c=a[0];a[0]=a[b%a.length];a[b%a.length]=c}};\n",
        "Sg=function(a){a=a[a$b[0]](a$b[3]);Hp[a$b[2]](a,3);return a[a$b[1]](a$b[3])};\n",
    ]
    .concat();
    let p = extract_sig_program(&js, 1).unwrap();
    assert!(p.found);
    assert_eq!(p.name, "Sg");
    assert!(p.code.starts_with("var Sg; var a$b=\"split;join;reverse;x\".split(\";\"); var Hp={"));
    assert!(p.code.ends_with("return a[a$b[1]](a$b[3])}"));
}
