//! The patterns that locate the player's routines, and the regular-expression
//! engine they run on.

use vstd::prelude::*;

verus! {

/// The capture group `group` of the first match of `pattern` in `haystack`;
/// `None` when the pattern does not compile, nothing matches, or the group
/// took no part in the match.
pub uninterp spec fn regex_group_of(pattern: Seq<char>, haystack: Seq<char>, group: nat) -> Option<Seq<char>>;

/// `haystack` with every match of `pattern` replaced by `replacement`.
pub uninterp spec fn regex_replaced_of(pattern: Seq<char>, haystack: Seq<char>, replacement: Seq<char>) -> Seq<char>;

/// `s` with every regular-expression meta character escaped.
pub uninterp spec fn regex_escaped_of(s: Seq<char>) -> Seq<char>;

/// Relies on `regex::Regex::new` and `regex::Regex::captures`: compiles
/// `pattern` and returns the text of one capture group of its first match.
#[verifier::external_body]
pub(crate) fn regex_group(pattern: &str, haystack: &str, group: usize) -> (r: Option<String>)
    ensures
        r is None <==> regex_group_of(pattern@, haystack@, group as nat) is None,
        r is Some ==> regex_group_of(pattern@, haystack@, group as nat) == Some(r->0@),
{
    let re = regex::Regex::new(pattern).ok()?;
    let caps = re.captures(haystack)?;
    caps.get(group).map(|m| m.as_str().to_string())
}

/// Relies on `regex::Regex::replace_all`: every non-overlapping match of
/// `pattern` in `haystack` is replaced by `replacement`. A pattern that does not
/// compile leaves `haystack` as it is.
#[verifier::external_body]
pub(crate) fn regex_replace_all(pattern: &str, haystack: &str, replacement: &str) -> (r: String)
    ensures
        r@ == regex_replaced_of(pattern@, haystack@, replacement@),
{
    match regex::Regex::new(pattern) {
        Ok(re) => re.replace_all(haystack, replacement).into_owned(),
        Err(_) => haystack.to_string(),
    }
}

/// Relies on `regex::escape`: a pattern that matches `s` literally.
#[verifier::external_body]
pub(crate) fn regex_escape(s: &str) -> (r: String)
    ensures
        r@ == regex_escaped_of(s@),
{
    regex::escape(s)
}

/// Landing-page path of the current player: `/s/player/<8 hex digits>`.
pub const PLAYER_ID_PATTERN: &'static str = "\\/s\\/player\\/([0-9a-f]{8})";

/// The name of the nsig routine in the programs this library builds.
pub const NSIG_FUNCTION_NAME: &'static str = "decrypt_nsig";

/// Release number of the player: `signatureTimestamp:<digits>`.
pub const SIGNATURE_TIMESTAMP_PATTERN: &'static str = "signatureTimestamp[=:](\\d+)";

/// The helper object that a sig routine calls: `;<name>.` or `;<name>[`.
pub const HELPER_OBJ_NAME_PATTERN: &'static str = ";([A-Za-z0-9_\\$]{2,})(?:\\.|\\[)";

/// The global declaration that newer players open with:
/// `'use strict'; var G = "...".split("...")` or an array literal of strings.
/// Groups: 1 the declaration, 2 its name, 3 its value.
pub const GLOBAL_VAR_PATTERN: &'static str = r#"(?x)
        'use\s+strict';\s*
        (?P<code>
            var\s+(?P<name>[a-zA-Z0-9_$]+)\s*=\s*
            (?P<value>
                (?:"[^"\\]*(?:\\.[^"\\]*)*"|'[^'\\]*(?:\\.[^'\\]*)*')
                \.split\((?:"[^"\\]*(?:\\.[^"\\]*)*"|'[^'\\]*(?:\\.[^'\\]*)*')\)
                |\[(?:(?:"[^"\\]*(?:\\.[^"\\]*)*"|'[^'\\]*(?:\\.[^'\\]*)*')\s*,?\s*)*\]
                |"[^"]*"\.split\("[^"]*"\)
            )
        )[;,]"#;

/// The parameter of the extracted nsig routine: `function <name>(<param>)`.
pub const NSIG_PARAM_PATTERN: &'static str = r"function\s+[a-zA-Z0-9_$]+\s*\(([a-zA-Z0-9_$]+)\)";

/// The guard `; if (typeof x === "undefined") return y;` that refuses to run
/// outside the player's own scope.
pub const NSIG_GUARD_PATTERN: &'static str = r#";\s*if\s*\(\s*typeof\s+[a-zA-Z0-9_$]+\s*===?\s*"undefined"\s*\)\s*return\s+\w+;"#;

/// The same guard, also in the form that compares against `G[<n>]`, split
/// around the escaped name of the global variable `G`.
pub const NSIG_GUARD_GLOBAL_HEAD: &'static str = r#";\s*if\s*\(\s*typeof\s+[a-zA-Z0-9_$]+\s*===?\s*(?:"undefined"|'undefined'|"#;

pub const NSIG_GUARD_GLOBAL_TAIL: &'static str = r#"\[\d+\])\s*\)\s*return\s+\w+;"#;

/// Call sites of the nsig routine, newest player shape first. Each captures
/// the array that holds the routine (group 1) and its position there (group 2).
pub open spec fn nsig_array_pattern_spec(i: nat) -> Seq<char> {
    if i == 0 {
        NSIG_ARRAY_CALL@
    } else {
        NSIG_ARRAY_GET@
    }
}

/// `null)&&(b=NAME[0](b)`.
pub const NSIG_ARRAY_CALL: &'static str = r#"null\)&&\([a-zA-Z]=(?P<nfunc>[_a-zA-Z0-9$]+)\[(?P<idx>\d+)\]\([a-zA-Z0-9]\)"#;

/// `&&(b="nn"[+a.D],c=a.get(b))&&(c=NAME[0](c)`.
pub const NSIG_ARRAY_GET: &'static str = r#"(?x)&&\(b="n+"\[[a-zA-Z0-9.+$]+\],c=a\.get\(b\)\)&&\(c=(?P<nfunc>[a-zA-Z0-9$]+)(?:\[(?P<idx>\d+)\])?\([a-zA-Z0-9]\)"#;

/// The number of call-site patterns.
pub const NSIG_ARRAY_PATTERNS: usize = 2;

/// The call-site pattern at position `i`.
pub fn nsig_array_pattern(i: usize) -> (r: &'static str)
    requires
        i < NSIG_ARRAY_PATTERNS,
    ensures
        r@ == nsig_array_pattern_spec(i as nat),
{
    if i == 0 {
        NSIG_ARRAY_CALL
    } else {
        NSIG_ARRAY_GET
    }
}

/// Endings of the nsig routine's definition, each following the routine's
/// escaped name; group 1 is the definition after the word `function`.
pub open spec fn nsig_ending_spec(i: nat) -> Seq<char> {
    if i == 0 {
        NSIG_ENDING_INDEXED_CALL@
    } else if i == 1 {
        NSIG_ENDING_W8_JOIN@
    } else if i == 2 {
        NSIG_ENDING_JOIN@
    } else {
        NSIG_ENDING_CALL@
    }
}

/// `... return a[b[1]](c[2]) };`
pub const NSIG_ENDING_INDEXED_CALL: &'static str = r#"=\s*function([\S\s]*?\}\s*return [A-Za-z0-9$]+\[[A-Za-z0-9$]+\[\d+\]\]\([A-Za-z0-9$]+\[\d+\]\)\s*\};)"#;

/// `(a){ ... {return x_w8_...} return b.join("")};`
pub const NSIG_ENDING_W8_JOIN: &'static str = r#"=\s*function(\(\w\)\s*\{[\S\s]*\{return.[a-zA-Z0-9_-]+_w8_.+?\}\s*return\s*\w+.join\(""\)\};)"#;

/// `... return b.join(x) };`
pub const NSIG_ENDING_JOIN: &'static str = r#"=\s*function([\S\s]*?\}\s*return \w+?\.join\([^)]+\)\s*\};)"#;

/// `... return b.call(c,"") };`
pub const NSIG_ENDING_CALL: &'static str = r#"=\s*function([\S\s]*?\}\s*return [\W\w$]+?\.call\([\w$]+?,\"\"\)\s*\};)"#;

/// The number of ending patterns.
pub const NSIG_ENDINGS: usize = 4;

/// The ending pattern at position `i`.
pub fn nsig_ending(i: usize) -> (r: &'static str)
    requires
        i < NSIG_ENDINGS,
    ensures
        r@ == nsig_ending_spec(i as nat),
{
    if i == 0 {
        NSIG_ENDING_INDEXED_CALL
    } else if i == 1 {
        NSIG_ENDING_W8_JOIN
    } else if i == 2 {
        NSIG_ENDING_JOIN
    } else {
        NSIG_ENDING_CALL
    }
}

/// The old sig definition shape: `NAME=function(a){a=a.split("")...return a.join("")}`.
pub const SIG_PATTERN_SPLIT_JOIN: &'static str = r#"\s*?([a-zA-Z0-9_\$]{1,})=function\([a-zA-Z]{1}\)\{(.{1}=.{1}\.split\([a-zA-Z0-9\-_\$\[\]"]+\)[^\}{]+)return .{1}\.join\([a-zA-Z0-9\-_\$\[\]"]+\)\}"#;

/// The new shape, indexing the global variable `G` in its body and in its
/// return: split around the two places of `G`'s escaped name.
pub const SIG_PATTERN_GLOBAL_HEAD: &'static str = r#"([a-zA-Z0-9_$]{1,})=function\(([a-zA-Z0-9_$]{1})\)\{[^&}]*"#;

pub const SIG_PATTERN_GLOBAL_MIDDLE: &'static str = r#"\[[^\]]+\][^}]*return [^}]*"#;

pub const SIG_PATTERN_GLOBAL_TAIL: &'static str = r#"\[[^\]]+\][^}]*\}"#;

/// The most general shape, indexing `G` in its return only.
pub const SIG_PATTERN_RETURN_HEAD: &'static str = r#"([a-zA-Z0-9_$]{1,})=function\(([a-zA-Z0-9_$]{1})\)\{[^}]*return [^}]*"#;

/// The number of sig definition patterns.
pub const SIG_PATTERNS: usize = 3;

/// The sig definition patterns, oldest shape first, for the escaped name `g`
/// of the global variable; group 1 is the routine's name.
pub open spec fn sig_pattern_spec(i: nat, g: Seq<char>) -> Seq<char> {
    if i == 0 {
        SIG_PATTERN_SPLIT_JOIN@
    } else if i == 1 {
        SIG_PATTERN_GLOBAL_HEAD@ + g + SIG_PATTERN_GLOBAL_MIDDLE@ + g + SIG_PATTERN_GLOBAL_TAIL@
    } else {
        SIG_PATTERN_RETURN_HEAD@ + g + SIG_PATTERN_GLOBAL_TAIL@
    }
}

/// The sig definition pattern at position `i` for the escaped global name `g`.
pub fn sig_pattern(i: usize, g: &str) -> (r: String)
    requires
        i < SIG_PATTERNS,
    ensures
        r@ == sig_pattern_spec(i as nat, g@),
{
    let mut r = String::new();
    if i == 0 {
        r.append(SIG_PATTERN_SPLIT_JOIN);
    } else if i == 1 {
        r.append(SIG_PATTERN_GLOBAL_HEAD);
        r.append(g);
        r.append(SIG_PATTERN_GLOBAL_MIDDLE);
        r.append(g);
        r.append(SIG_PATTERN_GLOBAL_TAIL);
    } else {
        r.append(SIG_PATTERN_RETURN_HEAD);
        r.append(g);
        r.append(SIG_PATTERN_GLOBAL_TAIL);
    }
    r
}

/// What follows the sig routine's escaped name in its definition.
pub const SIG_BODY_TAIL: &'static str = "=function\\([a-zA-Z0-9_]+\\)\\{.+?\\}";

/// What follows the helper object's escaped name in its declaration.
pub const HELPER_OBJ_BODY_TAIL: &'static str = "=\\{(?:.|\\n)+?\\}\\};)";

} // verus!
