//! Player acquisition: locating the player, extracting its routines, and the
//! update decisions.

use vstd::prelude::*;
use crate::consts::{
    regex_escape, regex_escaped_of, regex_group, regex_group_of, regex_replace_all,
    regex_replaced_of, GLOBAL_VAR_PATTERN, NSIG_GUARD_GLOBAL_HEAD, NSIG_GUARD_GLOBAL_TAIL,
    NSIG_GUARD_PATTERN, NSIG_PARAM_PATTERN, nsig_array_pattern, nsig_array_pattern_spec,
    nsig_ending, nsig_ending_spec, sig_pattern, sig_pattern_spec, NSIG_ARRAY_PATTERNS, NSIG_ENDINGS,
    SIG_PATTERNS, SIG_BODY_TAIL, HELPER_OBJ_NAME_PATTERN, HELPER_OBJ_BODY_TAIL,
    SIGNATURE_TIMESTAMP_PATTERN, NSIG_FUNCTION_NAME, PLAYER_ID_PATTERN,
};
use crate::jobs::{after_commit, commit_status, PlayerInfo, PlayerView};
use crate::text::{
    decimal, escape_char, escaped, format_decimal, format_hex_padded, hex_padded, trim_blanks,
    trim_end, trim_start, has_prefix, parse_unsigned, split_field,
    split_fields, strip_prefix_text, unsigned_value,
};

verus! {

/// Why an update did not commit a new player.
#[derive(Clone, Copy, Debug, PartialEq, Eq, Structural)]
pub enum FetchUpdateStatus {
    CannotFetchTestVideo,
    CannotMatchPlayerID,
    CannotFetchPlayerJS,
    NsigRegexCompileFailed,
    CannotExtractSignatureFunction,
    CannotMatchSignatureTimestamp,
    PlayerAlreadyUpdated,
}


/// The characters of an optional string.
pub open spec fn opt_view(o: Option<String>) -> Option<Seq<char>> {
    match o {
        Some(s) => Some(s@),
        None => None,
    }
}

fn group(pattern: &str, haystack: &str, g: usize) -> (r: Option<String>)
    ensures
        opt_view(r) == regex_group_of(pattern@, haystack@, g as nat),
{
    regex_group(pattern, haystack, g)
}

/// `s` with `$` escaped, as it is spliced into a pattern.
pub open spec fn dollar_escaped(s: Seq<char>) -> Seq<char> {
    escaped(s, '$')
}

/// The leading global declaration of a player: its code, its name and its value.
pub open spec fn global_var_of(js: Seq<char>) -> Option<(Seq<char>, Seq<char>, Seq<char>)> {
    let p = GLOBAL_VAR_PATTERN@;
    match (regex_group_of(p, js, 1), regex_group_of(p, js, 2), regex_group_of(p, js, 3)) {
        (Some(c), Some(n), Some(v)) => Some((c, n, v)),
        _ => None,
    }
}

/// Finds the global declaration that newer players open with: its code, its
/// name and its value.
pub fn extract_player_js_global_var(jscode: &str) -> (r: Option<(String, String, String)>)
    ensures
        match r {
            Some((c, n, v)) => global_var_of(jscode@) == Some((c@, n@, v@)),
            None => global_var_of(jscode@) is None,
        },
{
    let code = group(GLOBAL_VAR_PATTERN, jscode, 1);
    let name = group(GLOBAL_VAR_PATTERN, jscode, 2);
    let value = group(GLOBAL_VAR_PATTERN, jscode, 3);
    match (code, name, value) {
        (Some(c), Some(n), Some(v)) => Some((c, n, v)),
        _ => None,
    }
}

/// The parameter name of an extracted nsig routine, `a` when none is found.
pub open spec fn nsig_param(code: Seq<char>) -> Seq<char> {
    match regex_group_of(NSIG_PARAM_PATTERN@, code, 1) {
        Some(p) => p,
        None => "a"@,
    }
}

/// The nsig routine made self-contained: the player's global declaration
/// moved inside it, and the guards against running outside the player removed.
pub open spec fn fixed_nsig_code(code: Seq<char>, js: Seq<char>) -> Seq<char> {
    match global_var_of(js) {
        Some((gcode, gname, _)) => {
            let header = "function decrypt_nsig("@ + nsig_param(code) + "){"@;
            let rest = if has_prefix(code, header) { code.skip(header.len() as int) } else { code };
            let joined = header + gcode + "; "@ + rest;
            regex_replaced_of(
                NSIG_GUARD_GLOBAL_HEAD@ + dollar_escaped(gname) + NSIG_GUARD_GLOBAL_TAIL@,
                joined,
                ";"@,
            )
        },
        None => regex_replaced_of(NSIG_GUARD_PATTERN@, code, ";"@),
    }
}

/// Makes an extracted nsig routine self-contained (see `fixed_nsig_code`).
pub fn fixup_nsig_jscode(jscode: &str, player_javascript: &str) -> (r: String)
    ensures
        r@ == fixed_nsig_code(jscode@, player_javascript@),
{
    let param = match group(NSIG_PARAM_PATTERN, jscode, 1) {
        Some(p) => p,
        None => {
            let mut a = String::new();
            a.append("a");
            a
        },
    };
    assert(param@ == nsig_param(jscode@));
    match extract_player_js_global_var(player_javascript) {
        Some((global_var, varname, _)) => {
            let mut header = String::new();
            header.append("function decrypt_nsig(");
            header.append(param.as_str());
            header.append("){");
            let mut result = String::new();
            result.append(header.as_str());
            result.append(global_var.as_str());
            result.append("; ");
            match strip_prefix_text(jscode, header.as_str()) {
                Some(rest) => result.append(rest.as_str()),
                None => result.append(jscode),
            }
            let mut pattern = String::new();
            pattern.append(NSIG_GUARD_GLOBAL_HEAD);
            pattern.append(escape_char(varname.as_str(), '$').as_str());
            pattern.append(NSIG_GUARD_GLOBAL_TAIL);
            regex_replace_all(pattern.as_str(), result.as_str(), ";")
        },
        None => regex_replace_all(NSIG_GUARD_PATTERN, jscode, ";"),
    }
}


/// The first call-site pattern, from position `i` on, that matches the player.
pub open spec fn nsig_array_hit(js: Seq<char>, i: nat) -> Option<nat>
    decreases NSIG_ARRAY_PATTERNS - i,
{
    if i >= NSIG_ARRAY_PATTERNS {
        None
    } else if regex_group_of(nsig_array_pattern_spec(i), js, 0) is Some {
        Some(i)
    } else {
        nsig_array_hit(js, i + 1)
    }
}

/// The pattern of the array literal `var <name> = [ ... ];`; group 1 is its content.
pub open spec fn array_literal_pattern(name: Seq<char>) -> Seq<char> {
    "var "@ + dollar_escaped(name) + "\\s*=\\s*\\[(.+?)][;,]"@
}

/// The name of the nsig routine: the element at the captured position of the
/// array that the first matching call site names.
pub open spec fn nsig_function_name_of(js: Seq<char>) -> Option<Seq<char>> {
    match nsig_array_hit(js, 0) {
        None => None,
        Some(i) => {
            let p = nsig_array_pattern_spec(i);
            match (regex_group_of(p, js, 1), regex_group_of(p, js, 2)) {
                (Some(array), Some(idx)) => match (
                    regex_group_of(array_literal_pattern(array), js, 1),
                    unsigned_value(idx, false),
                ) {
                    (Some(content), Some(k)) => {
                        let fields = split_fields(content, ',');
                        if k < fields.len() {
                            Some(fields[k as int])
                        } else {
                            None
                        }
                    },
                    _ => None,
                },
                _ => None,
            }
        },
    }
}

/// Locates the name of the nsig routine in the player.
pub fn nsig_function_name(js: &str) -> (r: Option<String>)
    ensures
        opt_view(r) == nsig_function_name_of(js@),
{
    let mut i: usize = 0;
    while i < NSIG_ARRAY_PATTERNS
        invariant
            i <= NSIG_ARRAY_PATTERNS,
            nsig_array_hit(js@, 0) == nsig_array_hit(js@, i as nat),
        ensures
            i < NSIG_ARRAY_PATTERNS ==> nsig_array_hit(js@, 0) == Some(i as nat),
        decreases NSIG_ARRAY_PATTERNS - i,
    {
        let p = nsig_array_pattern(i);
        if group(p, js, 0).is_some() {
            break;
        }
        i = i + 1;
    }
    if i >= NSIG_ARRAY_PATTERNS {
        return None;
    }
    let p = nsig_array_pattern(i);
    let array = match group(p, js, 1) {
        Some(a) => a,
        None => return None,
    };
    assert(nsig_array_hit(js@, 0) == Some(i as nat));
    let idx = match group(p, js, 2) {
        Some(x) => x,
        None => return None,
    };
    let mut pattern = String::new();
    pattern.append("var ");
    pattern.append(escape_char(array.as_str(), '$').as_str());
    pattern.append("\\s*=\\s*\\[(.+?)][;,]");
    assert(pattern@ == array_literal_pattern(array@));
    let content = group(pattern.as_str(), js, 1);
    let k = parse_unsigned(idx.as_str(), false);
    match (content, k) {
        (Some(content), Some(k)) => split_field(content.as_str(), ',', k),
        _ => None,
    }
}

/// The definition of the nsig routine `name`, by the first ending pattern that
/// matches from position `j` on.
pub open spec fn nsig_body_from(js: Seq<char>, name: Seq<char>, j: nat) -> Option<Seq<char>>
    decreases NSIG_ENDINGS - j,
{
    if j >= NSIG_ENDINGS {
        None
    } else {
        match regex_group_of("(?ms)"@ + dollar_escaped(name) + nsig_ending_spec(j), js, 1) {
            Some(b) => Some(b),
            None => nsig_body_from(js, name, j + 1),
        }
    }
}

/// The self-contained nsig program of a player, if its routine can be found.
pub open spec fn nsig_code_of(js: Seq<char>) -> Option<Seq<char>> {
    match nsig_function_name_of(js) {
        None => None,
        Some(name) => match nsig_body_from(js, name, 0) {
            None => None,
            Some(body) => {
                let code = fixed_nsig_code("function decrypt_nsig"@ + body, js);
                if code.len() > 0 {
                    Some(code)
                } else {
                    None
                }
            },
        },
    }
}

/// Extracts the nsig routine of a player as a self-contained program
/// declaring `decrypt_nsig`.
pub fn extract_nsig_code(js: &str) -> (r: Option<String>)
    ensures
        opt_view(r) == nsig_code_of(js@),
        r is Some ==> r->0@.len() > 0,
{
    let name = match nsig_function_name(js) {
        Some(n) => n,
        None => return None,
    };
    let escaped_name = escape_char(name.as_str(), '$');
    let mut j: usize = 0;
    while j < NSIG_ENDINGS
        invariant
            j <= NSIG_ENDINGS,
            escaped_name@ == dollar_escaped(name@),
            nsig_function_name_of(js@) == Some(name@),
            nsig_body_from(js@, name@, 0) == nsig_body_from(js@, name@, j as nat),
        decreases NSIG_ENDINGS - j,
    {
        let mut pattern = String::new();
        pattern.append("(?ms)");
        pattern.append(escaped_name.as_str());
        pattern.append(nsig_ending(j));
        assert(pattern@ =~= "(?ms)"@ + dollar_escaped(name@) + nsig_ending_spec(j as nat));
        match group(pattern.as_str(), js, 1) {
            Some(body) => {
                assert(nsig_body_from(js@, name@, j as nat) == Some(body@));
                let mut code = String::new();
                code.append("function ");
                code.append(NSIG_FUNCTION_NAME);
                code.append(body.as_str());
                proof {
                    reveal_strlit("function ");
                    reveal_strlit("decrypt_nsig");
                    reveal_strlit("function decrypt_nsig");
                    assert(code@ =~= "function decrypt_nsig"@ + body@);
                }
                let fixed = fixup_nsig_jscode(code.as_str(), js);
                if fixed.as_str().is_empty() {
                    return None;
                }
                return Some(fixed);
            },
            None => {},
        }
        j = j + 1;
    }
    None
}


/// The code and the name of the player's global declaration, both empty when
/// there is none.
pub open spec fn global_var_parts(js: Seq<char>) -> (Seq<char>, Seq<char>) {
    match global_var_of(js) {
        Some((c, n, _)) => (c, n),
        None => (Seq::empty(), Seq::empty()),
    }
}

/// The name of the sig routine by the first definition pattern, from position
/// `k` on, that captures a non-empty name; `g` is the escaped global name.
pub open spec fn sig_name_from(js: Seq<char>, g: Seq<char>, k: nat) -> Option<Seq<char>>
    decreases SIG_PATTERNS - k,
{
    if k >= SIG_PATTERNS {
        None
    } else {
        match regex_group_of(sig_pattern_spec(k, g), js, 1) {
            Some(n) => if n.len() > 0 {
                Some(n)
            } else {
                sig_name_from(js, g, k + 1)
            },
            None => sig_name_from(js, g, k + 1),
        }
    }
}

/// The name given to the sig routine when the player has none.
pub open spec fn synthetic_sig_name(millis: u64) -> Seq<char> {
    "sig_function_"@ + decimal(millis as nat)
}

/// The sig program of a player, its routine's name, and whether the routine
/// was found; without one, the program only declares a synthetic name.
pub open spec fn sig_program_of(js: Seq<char>, millis: u64) -> Result<
    (Seq<char>, Seq<char>, bool),
    FetchUpdateStatus,
> {
    let (gcode, gname) = global_var_parts(js);
    match sig_name_from(js, regex_escaped_of(gname), 0) {
        None => {
            let name = synthetic_sig_name(millis);
            Ok(("var "@ + name + ";"@, name, false))
        },
        Some(name) => match regex_group_of(dollar_escaped(name) + SIG_BODY_TAIL@, js, 0) {
            None => Err(FetchUpdateStatus::CannotExtractSignatureFunction),
            Some(body) => match regex_group_of(HELPER_OBJ_NAME_PATTERN@, body, 1) {
                None => Err(FetchUpdateStatus::CannotExtractSignatureFunction),
                Some(helper) => match regex_group_of(
                    "(var "@ + dollar_escaped(helper) + HELPER_OBJ_BODY_TAIL@,
                    js,
                    0,
                ) {
                    None => Err(FetchUpdateStatus::CannotExtractSignatureFunction),
                    Some(hbody) => Ok(
                        ("var "@ + name + "; "@ + gcode + "; "@ + hbody + body, name, true),
                    ),
                },
            },
        },
    }
}

/// The sig routine of a player as a program.
pub struct SigProgram {
    /// Declares the routine's name, then the global declaration, the helper
    /// object and the routine's definition.
    pub code: String,
    /// The routine to call.
    pub name: String,
    /// Whether the player has a sig routine at all.
    pub found: bool,
}

/// Extracts the sig routine of a player; `millis` names it when there is none.
pub fn extract_sig_program(js: &str, millis: u64) -> (r: Result<SigProgram, FetchUpdateStatus>)
    ensures
        match r {
            Ok(p) => sig_program_of(js@, millis) == Ok::<_, FetchUpdateStatus>(
                (p.code@, p.name@, p.found),
            ),
            Err(e) => sig_program_of(js@, millis) == Err::<(Seq<char>, Seq<char>, bool), _>(e),
        },
{
    let (gcode, gname) = match extract_player_js_global_var(js) {
        Some((c, n, _)) => (c, n),
        None => (String::new(), String::new()),
    };
    let g = regex_escape(gname.as_str());
    let mut k: usize = 0;
    let mut found: Option<String> = None;
    while k < SIG_PATTERNS
        invariant_except_break
            found is None,
            sig_name_from(js@, g@, 0) == sig_name_from(js@, g@, k as nat),
        invariant
            k <= SIG_PATTERNS,
            g@ == regex_escaped_of(global_var_parts(js@).1),
        ensures
            found is None ==> k >= SIG_PATTERNS,
            found is None ==> sig_name_from(js@, g@, 0) == sig_name_from(js@, g@, k as nat),
            found is Some ==> sig_name_from(js@, g@, 0) == Some(found->0@),
        decreases SIG_PATTERNS - k,
    {
        let pattern = sig_pattern(k, g.as_str());
        match group(pattern.as_str(), js, 1) {
            Some(n) => {
                if !n.as_str().is_empty() {
                    assert(sig_name_from(js@, g@, k as nat) == Some(n@));
                    found = Some(n);
                    break;
                }
            },
            None => {},
        }
        k = k + 1;
    }
    assert(gcode@ == global_var_parts(js@).0);
    let name = match found {
        None => {
            let mut name = String::new();
            name.append("sig_function_");
            name.append(format_decimal(millis).as_str());
            let mut code = String::new();
            code.append("var ");
            code.append(name.as_str());
            code.append(";");
            assert(name@ =~= synthetic_sig_name(millis));
            assert(code@ =~= "var "@ + name@ + ";"@);
            return Ok(SigProgram { code, name, found: false });
        },
        Some(n) => n,
    };
    let mut body_pattern = String::new();
    body_pattern.append(escape_char(name.as_str(), '$').as_str());
    body_pattern.append(SIG_BODY_TAIL);
    assert(body_pattern@ =~= dollar_escaped(name@) + SIG_BODY_TAIL@);
    let body = match group(body_pattern.as_str(), js, 0) {
        Some(b) => b,
        None => return Err(FetchUpdateStatus::CannotExtractSignatureFunction),
    };
    let helper = match group(HELPER_OBJ_NAME_PATTERN, body.as_str(), 1) {
        Some(h) => h,
        None => return Err(FetchUpdateStatus::CannotExtractSignatureFunction),
    };
    let mut helper_pattern = String::new();
    helper_pattern.append("(var ");
    helper_pattern.append(escape_char(helper.as_str(), '$').as_str());
    helper_pattern.append(HELPER_OBJ_BODY_TAIL);
    assert(helper_pattern@ =~= "(var "@ + dollar_escaped(helper@) + HELPER_OBJ_BODY_TAIL@);
    let helper_body = match group(helper_pattern.as_str(), js, 0) {
        Some(h) => h,
        None => return Err(FetchUpdateStatus::CannotExtractSignatureFunction),
    };
    let mut code = String::new();
    code.append("var ");
    code.append(name.as_str());
    code.append("; ");
    code.append(gcode.as_str());
    code.append("; ");
    code.append(helper_body.as_str());
    code.append(body.as_str());
    assert(code@ =~= "var "@ + name@ + "; "@ + gcode@ + "; "@ + helper_body@ + body@);
    Ok(SigProgram { code, name, found: true })
}

/// The player's signature timestamp: the first `signatureTimestamp` number,
/// when it is positive and fits `u64`.
pub open spec fn signature_timestamp_of(js: Seq<char>) -> Option<u64> {
    match regex_group_of(SIGNATURE_TIMESTAMP_PATTERN@, js, 1) {
        Some(d) => match unsigned_value(d, false) {
            Some(v) => if v > 0 {
                Some(v)
            } else {
                None
            },
            None => None,
        },
        None => None,
    }
}

/// Extracts the player's signature timestamp.
pub fn extract_signature_timestamp(js: &str) -> (r: Option<u64>)
    ensures
        r == signature_timestamp_of(js@),
{
    match group(SIGNATURE_TIMESTAMP_PATTERN, js, 1) {
        Some(d) => match parse_unsigned(d.as_str(), false) {
            Some(v) => if v > 0 {
                Some(v)
            } else {
                None
            },
            None => None,
        },
        None => None,
    }
}

/// Everything a player yields for later evaluation.
pub struct Extracted {
    pub nsig_code: String,
    pub sig_code: String,
    pub sig_name: String,
    pub sig_found: bool,
    pub signature_timestamp: u64,
}

/// The first step of extraction that fails on a player, if any.
pub open spec fn extraction_failure(js: Seq<char>, millis: u64) -> Option<FetchUpdateStatus> {
    if nsig_code_of(js) is None {
        Some(FetchUpdateStatus::NsigRegexCompileFailed)
    } else if sig_program_of(js, millis) is Err {
        Some(sig_program_of(js, millis)->Err_0)
    } else if signature_timestamp_of(js) is None {
        Some(FetchUpdateStatus::CannotMatchSignatureTimestamp)
    } else {
        None
    }
}

/// What extraction yields: nsig program, sig program, sig routine name,
/// whether it was found, and the signature timestamp.
pub open spec fn extracted_matches(e: Extracted, js: Seq<char>, millis: u64) -> bool {
    &&& nsig_code_of(js) == Some(e.nsig_code@)
    &&& sig_program_of(js, millis) == Ok::<_, FetchUpdateStatus>((e.sig_code@, e.sig_name@, e.sig_found))
    &&& signature_timestamp_of(js) == Some(e.signature_timestamp)
}

/// Runs the extractor on a player's source. `millis` (the time of the update)
/// names the sig routine when the player has none.
pub fn extract_player(js: &str, millis: u64) -> (r: Result<Extracted, FetchUpdateStatus>)
    ensures
        match r {
            Ok(e) => extraction_failure(js@, millis) is None && extracted_matches(e, js@, millis),
            Err(s) => extraction_failure(js@, millis) == Some(s),
        },
        r is Ok ==> r->Ok_0.is_complete(),
{
    let nsig_code = match extract_nsig_code(js) {
        Some(c) => c,
        None => return Err(FetchUpdateStatus::NsigRegexCompileFailed),
    };
    let sig = match extract_sig_program(js, millis) {
        Ok(p) => p,
        Err(e) => return Err(e),
    };
    let ts = match extract_signature_timestamp(js) {
        Some(t) => t,
        None => return Err(FetchUpdateStatus::CannotMatchSignatureTimestamp),
    };
    proof {
        reveal_strlit("var ");
        reveal_strlit("sig_function_");
        lemma_sig_program_nonempty(js@, millis);
    }
    Ok(Extracted {
        nsig_code,
        sig_code: sig.code,
        sig_name: sig.name,
        sig_found: sig.found,
        signature_timestamp: ts,
    })
}

impl Extracted {
    /// Every program and name is non-empty and the timestamp is positive.
    pub open spec fn is_complete(&self) -> bool {
        &&& self.nsig_code@.len() > 0
        &&& self.sig_code@.len() > 0
        &&& self.sig_name@.len() > 0
        &&& self.signature_timestamp > 0
    }
}

proof fn lemma_sig_name_from_nonempty(js: Seq<char>, g: Seq<char>, k: nat)
    ensures
        sig_name_from(js, g, k) is Some ==> sig_name_from(js, g, k)->0.len() > 0,
    decreases SIG_PATTERNS - k,
{
    if k < SIG_PATTERNS {
        lemma_sig_name_from_nonempty(js, g, k + 1);
    }
}

proof fn lemma_sig_program_nonempty(js: Seq<char>, millis: u64)
    ensures
        sig_program_of(js, millis) is Ok ==> {
            let (code, name, _) = sig_program_of(js, millis)->Ok_0;
            code.len() > 0 && name.len() > 0
        },
{
    reveal_strlit("var ");
    reveal_strlit("sig_function_");
    let (gcode, gname) = global_var_parts(js);
    lemma_sig_name_from_nonempty(js, regex_escaped_of(gname), 0);
}


/// The player id that a landing page names: the 8 hex digits of its
/// `/s/player/<id>` path, when they are not all zero.
pub open spec fn player_id_of(landing: Seq<char>) -> Option<u32> {
    match regex_group_of(PLAYER_ID_PATTERN@, landing, 1) {
        Some(h) => match unsigned_value(h, true) {
            Some(v) => if 0 < v <= u32::MAX {
                Some(v as u32)
            } else {
                None
            },
            None => None,
        },
        None => None,
    }
}

/// Reads the current player id from a landing page.
pub fn parse_player_id(landing: &str) -> (r: Option<u32>)
    ensures
        r == player_id_of(landing@),
        r is Some ==> r->0 != 0,
{
    match group(PLAYER_ID_PATTERN, landing, 1) {
        Some(h) => match parse_unsigned(h.as_str(), true) {
            Some(v) => if 0 < v && v <= u32::MAX as u64 {
                Some(v as u32)
            } else {
                None
            },
            None => None,
        },
        None => None,
    }
}

/// Where the program of player `id` is served.
pub open spec fn player_js_url_of(id: u32) -> Seq<char> {
    "https://www.youtube.com/s/player/"@ + hex_padded(id as nat, 8) + "/player_ias.vflset/en_US/base.js"@
}

/// The URL of the program of player `id`.
pub fn player_js_url(id: u32) -> (r: String)
    ensures
        r@ == player_js_url_of(id),
{
    let mut r = String::new();
    r.append("https://www.youtube.com/s/player/");
    r.append(format_hex_padded(id, 8).as_str());
    r.append("/player_ias.vflset/en_US/base.js");
    assert(r@ =~= player_js_url_of(id));
    r
}

/// What an update asks for next.
pub enum UpdateStep {
    /// Fetch the program of a new player from `url`, then finish the update.
    FetchPlayer { player_id: u32, url: String },
    /// The update is over.
    Finished(Result<(), FetchUpdateStatus>),
}

/// The first step of an update: `landing` is the fetched landing page, `None`
/// when it could not be fetched. A player that is already current is only
/// marked checked at `now`.
pub fn fetch_update(info: &mut PlayerInfo, landing: Option<&str>, now: u64) -> (r: UpdateStep)
    ensures
        match landing {
            None => r == UpdateStep::Finished(Err(FetchUpdateStatus::CannotFetchTestVideo))
                && final(info)@ == old(info)@,
            Some(page) => match player_id_of(page@) {
                None => r == UpdateStep::Finished(Err(FetchUpdateStatus::CannotMatchPlayerID))
                    && final(info)@ == old(info)@,
                Some(id) => if id == old(info).player_id {
                    r == UpdateStep::Finished(Err(FetchUpdateStatus::PlayerAlreadyUpdated))
                        && final(info)@ == (PlayerView { last_update: now, ..old(info)@ })
                } else {
                    final(info)@ == old(info)@ && match r {
                        UpdateStep::FetchPlayer { player_id, url } => player_id == id
                            && url@ == player_js_url_of(id),
                        _ => false,
                    }
                },
            },
        },
{
    let page = match landing {
        None => return UpdateStep::Finished(Err(FetchUpdateStatus::CannotFetchTestVideo)),
        Some(p) => p,
    };
    let id = match parse_player_id(page) {
        None => return UpdateStep::Finished(Err(FetchUpdateStatus::CannotMatchPlayerID)),
        Some(id) => id,
    };
    if id == info.player_id {
        info.mark_checked(now);
        return UpdateStep::Finished(Err(FetchUpdateStatus::PlayerAlreadyUpdated));
    }
    UpdateStep::FetchPlayer { player_id: id, url: player_js_url(id) }
}

/// Extraction from a fetched player program; `None` when it could not be fetched.
pub fn extract_fetched(player_js: Option<&str>, millis: u64) -> (r: Result<Extracted, FetchUpdateStatus>)
    ensures
        player_js is None ==> r == Err::<Extracted, _>(FetchUpdateStatus::CannotFetchPlayerJS),
        player_js is Some ==> match r {
            Ok(e) => extraction_failure(player_js->0@, millis) is None
                && extracted_matches(e, player_js->0@, millis),
            Err(s) => extraction_failure(player_js->0@, millis) == Some(s),
        },
        r is Ok ==> r->Ok_0.is_complete(),
{
    match player_js {
        None => Err(FetchUpdateStatus::CannotFetchPlayerJS),
        Some(js) => extract_player(js, millis),
    }
}

/// The last step of an update of player `id`: commits what was extracted,
/// unless extraction failed or another update committed `id` meanwhile.
pub fn finish_update(
    info: &mut PlayerInfo,
    id: u32,
    extracted: Result<Extracted, FetchUpdateStatus>,
    now: u64,
) -> (r: Result<(), FetchUpdateStatus>)
    requires
        old(info)@.wf(),
        id != 0,
        extracted is Ok ==> extracted->Ok_0.is_complete(),
    ensures
        final(info)@.wf(),
        match extracted {
            Err(s) => r == Err::<(), _>(s) && final(info)@ == old(info)@,
            Ok(e) => r == commit_status(old(info)@, id) && final(info)@ == after_commit(
                old(info)@,
                id,
                e,
                now,
            ),
        },
        r is Ok ==> final(info)@.holds_player() && final(info).player_id == id,
{
    match extracted {
        Err(s) => Err(s),
        Ok(e) => info.commit(id, e, now),
    }
}

/// The timestamp that an external helper printed: one decimal number,
/// surrounded by blanks at most, and positive.
pub open spec fn helper_timestamp_of(output: Seq<char>) -> Option<u64> {
    match unsigned_value(trim_end(trim_start(output)), false) {
        Some(v) => if v > 0 {
            Some(v)
        } else {
            None
        },
        None => None,
    }
}

/// Reads the timestamp that an external helper printed.
pub fn parse_helper_timestamp(output: &str) -> (r: Option<u64>)
    ensures
        r == helper_timestamp_of(output@),
{
    let t = trim_blanks(output);
    match parse_unsigned(t.as_str(), false) {
        Some(v) => if v > 0 {
            Some(v)
        } else {
            None
        },
        None => None,
    }
}

/// The last step of an update of player `id` in external-helper mode, from
/// what the helper printed (`None` when it could not run).
pub fn finish_external_update(info: &mut PlayerInfo, id: u32, output: Option<&str>, now: u64) -> (r: Result<(), FetchUpdateStatus>)
    requires
        old(info)@.wf(),
        id != 0,
    ensures
        final(info)@.wf(),
        match output {
            Some(o) if helper_timestamp_of(o@) is Some => r == commit_status(old(info)@, id)
                && (r is Ok ==> final(info).signature_timestamp == helper_timestamp_of(o@)->0
                    && final(info).external_helper),
            _ => r == Err::<(), _>(FetchUpdateStatus::CannotMatchSignatureTimestamp)
                && final(info)@ == old(info)@,
        },
        r is Ok ==> final(info)@.holds_player() && final(info).player_id == id,
{
    let ts = match output {
        Some(o) => parse_helper_timestamp(o),
        None => None,
    };
    match ts {
        Some(t) => info.commit_external(id, t, now),
        None => Err(FetchUpdateStatus::CannotMatchSignatureTimestamp),
    }
}

} // verus!
