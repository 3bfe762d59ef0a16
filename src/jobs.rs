//! Jobs: the opcodes, the shared player record, and what each request decides.

use vstd::prelude::*;
use vstd::utf8::encode_utf8;
use crate::opcode::OpcodeResponse;
use crate::player::{Extracted, FetchUpdateStatus};
use crate::text::{escape_char, escaped};

verus! {

/// The operation a request frame asks for.
#[derive(Clone, Copy, Debug, PartialEq, Eq, Structural)]
pub enum JobOpcode {
    ForceUpdate,
    DecryptNSignature,
    DecryptSignature,
    GetSignatureTimestamp,
    PlayerStatus,
    PlayerUpdateTimestamp,
    UnknownOpcode,
}

/// The opcode that a wire byte names.
pub open spec fn opcode_of(b: u8) -> JobOpcode {
    if b == 0 {
        JobOpcode::ForceUpdate
    } else if b == 1 {
        JobOpcode::DecryptNSignature
    } else if b == 2 {
        JobOpcode::DecryptSignature
    } else if b == 3 {
        JobOpcode::GetSignatureTimestamp
    } else if b == 4 {
        JobOpcode::PlayerStatus
    } else if b == 5 {
        JobOpcode::PlayerUpdateTimestamp
    } else {
        JobOpcode::UnknownOpcode
    }
}

/// The wire byte of an opcode.
pub open spec fn opcode_byte(op: JobOpcode) -> u8 {
    match op {
        JobOpcode::ForceUpdate => 0,
        JobOpcode::DecryptNSignature => 1,
        JobOpcode::DecryptSignature => 2,
        JobOpcode::GetSignatureTimestamp => 3,
        JobOpcode::PlayerStatus => 4,
        JobOpcode::PlayerUpdateTimestamp => 5,
        JobOpcode::UnknownOpcode => 255,
    }
}

impl From<u8> for JobOpcode {
    fn from(value: u8) -> (r: JobOpcode)
        ensures
            r == opcode_of(value),
    {
        match value {
            0 => JobOpcode::ForceUpdate,
            1 => JobOpcode::DecryptNSignature,
            2 => JobOpcode::DecryptSignature,
            3 => JobOpcode::GetSignatureTimestamp,
            4 => JobOpcode::PlayerStatus,
            5 => JobOpcode::PlayerUpdateTimestamp,
            _ => JobOpcode::UnknownOpcode,
        }
    }
}

impl vstd::std_specs::convert::FromSpecImpl<u8> for JobOpcode {
    open spec fn obeys_from_spec() -> bool {
        true
    }

    open spec fn from_spec(v: u8) -> JobOpcode {
        opcode_of(v)
    }
}

impl JobOpcode {
    /// The wire byte of this opcode.
    pub fn to_byte(&self) -> (r: u8)
        ensures
            r == opcode_byte(*self),
    {
        match self {
            JobOpcode::ForceUpdate => 0,
            JobOpcode::DecryptNSignature => 1,
            JobOpcode::DecryptSignature => 2,
            JobOpcode::GetSignatureTimestamp => 3,
            JobOpcode::PlayerStatus => 4,
            JobOpcode::PlayerUpdateTimestamp => 5,
            JobOpcode::UnknownOpcode => 255,
        }
    }

    /// The opcode's name.
    pub fn name(&self) -> (r: &'static str) {
        match self {
            JobOpcode::ForceUpdate => "ForceUpdate",
            JobOpcode::DecryptNSignature => "DecryptNSignature",
            JobOpcode::DecryptSignature => "DecryptSignature",
            JobOpcode::GetSignatureTimestamp => "GetSignatureTimestamp",
            JobOpcode::PlayerStatus => "PlayerStatus",
            JobOpcode::PlayerUpdateTimestamp => "PlayerUpdateTimestamp",
            JobOpcode::UnknownOpcode => "UnknownOpcode",
        }
    }
}

/// Whether requests with this opcode carry a signature string.
pub open spec fn carries_signature(op: JobOpcode) -> bool {
    op == JobOpcode::DecryptNSignature || op == JobOpcode::DecryptSignature
}


/// The current player: the programs and values extracted from it.
pub struct PlayerInfo {
    /// Program declaring `decrypt_nsig`.
    pub nsig_function_code: String,
    /// Program declaring the sig routine and what it needs.
    pub sig_function_code: String,
    /// The sig routine to call.
    pub sig_function_name: String,
    /// Whether the player has a sig routine; without one a signature is
    /// answered unchanged.
    pub sig_function_found: bool,
    pub signature_timestamp: u64,
    /// 0 while no player is known.
    pub player_id: u32,
    /// 0xFF once a player is known, else 0.
    pub has_player: u8,
    /// Whether decryption is delegated to an external helper, in which case
    /// the programs stay empty.
    pub external_helper: bool,
    /// Milliseconds since the Unix epoch of the last update check.
    pub last_update: u64,
}

/// The value of a `PlayerInfo`.
pub struct PlayerView {
    pub nsig_function_code: Seq<char>,
    pub sig_function_code: Seq<char>,
    pub sig_function_name: Seq<char>,
    pub sig_function_found: bool,
    pub signature_timestamp: u64,
    pub player_id: u32,
    pub has_player: u8,
    pub external_helper: bool,
    pub last_update: u64,
}

impl View for PlayerInfo {
    type V = PlayerView;

    open spec fn view(&self) -> PlayerView {
        PlayerView {
            nsig_function_code: self.nsig_function_code@,
            sig_function_code: self.sig_function_code@,
            sig_function_name: self.sig_function_name@,
            sig_function_found: self.sig_function_found,
            signature_timestamp: self.signature_timestamp,
            player_id: self.player_id,
            has_player: self.has_player,
            external_helper: self.external_helper,
            last_update: self.last_update,
        }
    }
}

impl PlayerView {
    /// A known player has every value it needs: a positive timestamp and,
    /// unless an external helper decrypts, non-empty programs and name.
    pub open spec fn holds_player(&self) -> bool {
        &&& self.has_player != 0
        &&& self.player_id != 0
        &&& self.signature_timestamp > 0
        &&& (self.external_helper || (self.nsig_function_code.len() > 0
            && self.sig_function_code.len() > 0 && self.sig_function_name.len() > 0))
    }

    /// Player id 0 is exactly the state without a player.
    pub open spec fn wf(&self) -> bool {
        &&& (self.player_id == 0) == (self.has_player == 0)
        &&& self.has_player != 0 ==> self.holds_player()
    }
}

/// The record after committing player `id` with what was extracted from it.
/// A player that is already current is not committed again; only the time
/// of the check is recorded.
pub open spec fn after_commit(s: PlayerView, id: u32, e: Extracted, now: u64) -> PlayerView {
    if id == s.player_id {
        PlayerView { last_update: now, ..s }
    } else {
        PlayerView {
            nsig_function_code: e.nsig_code@,
            sig_function_code: e.sig_code@,
            sig_function_name: e.sig_name@,
            sig_function_found: e.sig_found,
            signature_timestamp: e.signature_timestamp,
            player_id: id,
            has_player: 0xFF,
            external_helper: false,
            last_update: now,
        }
    }
}

/// The outcome of committing player `id`.
pub open spec fn commit_status(s: PlayerView, id: u32) -> Result<(), FetchUpdateStatus> {
    if id == s.player_id {
        Err(FetchUpdateStatus::PlayerAlreadyUpdated)
    } else {
        Ok(())
    }
}

impl PlayerInfo {
    /// The record before any update, checked at `now` (ms since the epoch).
    pub fn new(now: u64) -> (r: PlayerInfo)
        ensures
            r@.wf(),
            r.player_id == 0,
            r.has_player == 0,
            r.signature_timestamp == 0,
            r.nsig_function_code@.len() == 0,
            r.sig_function_code@.len() == 0,
            r.sig_function_name@.len() == 0,
            !r.sig_function_found,
            !r.external_helper,
            r.last_update == now,
    {
        PlayerInfo {
            nsig_function_code: String::new(),
            sig_function_code: String::new(),
            sig_function_name: String::new(),
            sig_function_found: false,
            signature_timestamp: 0,
            player_id: 0,
            has_player: 0,
            external_helper: false,
            last_update: now,
        }
    }

    /// A copy of the record, for use after the lock is released.
    pub fn snapshot(&self) -> (r: PlayerInfo)
        ensures
            r@ == self@,
    {
        PlayerInfo {
            nsig_function_code: self.nsig_function_code.clone(),
            sig_function_code: self.sig_function_code.clone(),
            sig_function_name: self.sig_function_name.clone(),
            sig_function_found: self.sig_function_found,
            signature_timestamp: self.signature_timestamp,
            player_id: self.player_id,
            has_player: self.has_player,
            external_helper: self.external_helper,
            last_update: self.last_update,
        }
    }

    /// Records that the update check at `now` found player `id` to be current.
    pub fn mark_checked(&mut self, now: u64)
        ensures
            final(self)@ == (PlayerView { last_update: now, ..old(self)@ }),
    {
        self.last_update = now;
    }

    /// Commits player `id` with what was extracted from it, all fields in one
    /// step; a player that is already current is only marked checked.
    pub fn commit(&mut self, id: u32, e: Extracted, now: u64) -> (r: Result<(), FetchUpdateStatus>)
        requires
            old(self)@.wf(),
            id != 0,
            e.is_complete(),
        ensures
            final(self)@ == after_commit(old(self)@, id, e, now),
            r == commit_status(old(self)@, id),
            final(self)@.wf(),
            r is Ok ==> final(self)@.holds_player() && final(self).player_id == id,
    {
        if id == self.player_id {
            self.mark_checked(now);
            return Err(FetchUpdateStatus::PlayerAlreadyUpdated);
        }
        self.nsig_function_code = e.nsig_code;
        self.sig_function_code = e.sig_code;
        self.sig_function_name = e.sig_name;
        self.sig_function_found = e.sig_found;
        self.signature_timestamp = e.signature_timestamp;
        self.player_id = id;
        self.has_player = 0xFF;
        self.external_helper = false;
        self.last_update = now;
        Ok(())
    }

    /// Commits player `id` whose decryption an external helper performs: only
    /// its id and timestamp are kept, and the programs are emptied.
    pub fn commit_external(&mut self, id: u32, timestamp: u64, now: u64) -> (r: Result<(), FetchUpdateStatus>)
        requires
            old(self)@.wf(),
            id != 0,
            timestamp > 0,
        ensures
            r == commit_status(old(self)@, id),
            r is Err ==> final(self)@ == (PlayerView { last_update: now, ..old(self)@ }),
            r is Ok ==> final(self)@ == (PlayerView {
                nsig_function_code: Seq::empty(),
                sig_function_code: Seq::empty(),
                sig_function_name: Seq::empty(),
                sig_function_found: false,
                signature_timestamp: timestamp,
                player_id: id,
                has_player: 0xFF,
                external_helper: true,
                last_update: now,
            }),
            final(self)@.wf(),
    {
        if id == self.player_id {
            self.mark_checked(now);
            return Err(FetchUpdateStatus::PlayerAlreadyUpdated);
        }
        self.nsig_function_code = String::new();
        self.sig_function_code = String::new();
        self.sig_function_name = String::new();
        self.sig_function_found = false;
        self.signature_timestamp = timestamp;
        self.player_id = id;
        self.has_player = 0xFF;
        self.external_helper = true;
        self.last_update = now;
        Ok(())
    }
}


/// The answer to a forced update.
pub fn process_fetch_update(status: Result<(), FetchUpdateStatus>, request_id: u32) -> (r: OpcodeResponse)
    ensures
        r.opcode == JobOpcode::ForceUpdate,
        r.request_id == request_id,
        r.update_status == status,
        r.fits(),
{
    let mut r = OpcodeResponse::new(JobOpcode::ForceUpdate, request_id);
    r.update_status = status;
    r
}

/// The answer to a timestamp request: the current player's signature timestamp.
pub fn process_get_signature_timestamp(info: &PlayerInfo, request_id: u32) -> (r: OpcodeResponse)
    ensures
        r.opcode == JobOpcode::GetSignatureTimestamp,
        r.request_id == request_id,
        r.signature_timestamp == info.signature_timestamp,
        r.fits(),
{
    let mut r = OpcodeResponse::new(JobOpcode::GetSignatureTimestamp, request_id);
    r.signature_timestamp = info.signature_timestamp;
    r
}

/// The answer to a status request: whether a player is known, and its id.
pub fn process_player_status(info: &PlayerInfo, request_id: u32) -> (r: OpcodeResponse)
    ensures
        r.opcode == JobOpcode::PlayerStatus,
        r.request_id == request_id,
        r.has_player == info.has_player,
        r.player_id == info.player_id,
        r.fits(),
{
    let mut r = OpcodeResponse::new(JobOpcode::PlayerStatus, request_id);
    r.has_player = info.has_player;
    r.player_id = info.player_id;
    r
}

/// Whole seconds from `last` to `now`, both in ms since the epoch; 0 when the
/// clock went back.
pub open spec fn seconds_since(last: u64, now: u64) -> u64 {
    if now >= last {
        ((now - last) / 1000) as u64
    } else {
        0
    }
}

/// The answer to an update-time request: seconds since the last update check.
pub fn process_player_update_timestamp(info: &PlayerInfo, request_id: u32, now: u64) -> (r: OpcodeResponse)
    ensures
        r.opcode == JobOpcode::PlayerUpdateTimestamp,
        r.request_id == request_id,
        r.last_player_update == seconds_since(info.last_update, now),
        r.fits(),
{
    let mut r = OpcodeResponse::new(JobOpcode::PlayerUpdateTimestamp, request_id);
    r.last_player_update = if now >= info.last_update {
        (now - info.last_update) / 1000
    } else {
        0
    };
    r
}

/// The expression that calls routine `name` on the signature `sig`, with its
/// double quotes escaped: `name("sig")`.
pub open spec fn call_text(name: Seq<char>, sig: Seq<char>) -> Seq<char> {
    name + "(\""@ + escaped(sig, '"') + "\")"@
}

/// Builds the expression that calls routine `name` on `sig`.
pub fn decrypt_call(name: &str, sig: &str) -> (r: String)
    ensures
        r@ == call_text(name@, sig@),
{
    let mut r = String::new();
    r.append(name);
    r.append("(\"");
    r.append(escape_char(sig, '"').as_str());
    r.append("\")");
    assert(r@ =~= call_text(name@, sig@));
    r
}

/// The value of a `DecryptPlan`.
pub enum PlanView {
    Answer(Seq<char>),
    ExternalHelper,
    Evaluate { load: Option<Seq<char>>, call: Seq<char> },
}

/// What a decrypt request needs done.
pub enum DecryptPlan {
    /// Answer with `output` at once; nothing is evaluated.
    Answer { output: String },
    /// Ask the external helper.
    ExternalHelper,
    /// Evaluate `load` into the interpreter's context first, when given (the
    /// context holds another player's program), then evaluate `call`.
    Evaluate { load: Option<String>, call: String },
}

impl DecryptPlan {
    pub open spec fn view(&self) -> PlanView {
        match self {
            DecryptPlan::Answer { output } => PlanView::Answer(output@),
            DecryptPlan::ExternalHelper => PlanView::ExternalHelper,
            DecryptPlan::Evaluate { load, call } => PlanView::Evaluate {
                load: match load {
                    Some(l) => Some(l@),
                    None => None,
                },
                call: call@,
            },
        }
    }
}

/// The plan for a nsig request against the player `info`, in an interpreter
/// whose nsig context holds the program of player `loaded`.
pub open spec fn nsig_plan_of(info: PlayerView, loaded: u32, sig: Seq<char>) -> PlanView {
    if sig.len() == 0 {
        PlanView::Answer(Seq::empty())
    } else if info.external_helper {
        PlanView::ExternalHelper
    } else {
        PlanView::Evaluate {
            load: if loaded != info.player_id { Some(info.nsig_function_code) } else { None },
            call: call_text("decrypt_nsig"@, sig),
        }
    }
}

/// The plan for a sig request against the player `info`, in an interpreter
/// whose sig context holds the program of player `loaded`. Without a sig
/// routine the signature is answered unchanged.
pub open spec fn sig_plan_of(info: PlayerView, loaded: u32, sig: Seq<char>) -> PlanView {
    if sig.len() == 0 {
        PlanView::Answer(Seq::empty())
    } else if info.external_helper {
        PlanView::ExternalHelper
    } else if !info.sig_function_found {
        PlanView::Answer(sig)
    } else {
        PlanView::Evaluate {
            load: if loaded != info.player_id { Some(info.sig_function_code) } else { None },
            call: call_text(info.sig_function_name, sig),
        }
    }
}

/// Decides what a nsig request needs; an empty signature is answered empty
/// without evaluating anything.
pub fn process_decrypt_n_signature(info: &PlayerInfo, loaded: u32, sig: &str) -> (r: DecryptPlan)
    ensures
        r.view() == nsig_plan_of(info@, loaded, sig@),
        sig@.len() == 0 ==> r.view() == PlanView::Answer(Seq::empty()),
{
    if sig.is_empty() {
        return DecryptPlan::Answer { output: String::new() };
    }
    if info.external_helper {
        return DecryptPlan::ExternalHelper;
    }
    let load = if loaded != info.player_id {
        Some(info.nsig_function_code.clone())
    } else {
        None
    };
    proof {
        reveal_strlit("decrypt_nsig");
    }
    DecryptPlan::Evaluate { load, call: decrypt_call("decrypt_nsig", sig) }
}

/// Decides what a sig request needs; an empty signature is answered empty
/// without evaluating anything, and without a sig routine the signature is
/// answered unchanged.
pub fn process_decrypt_signature(info: &PlayerInfo, loaded: u32, sig: &str) -> (r: DecryptPlan)
    ensures
        r.view() == sig_plan_of(info@, loaded, sig@),
        sig@.len() == 0 ==> r.view() == PlanView::Answer(Seq::empty()),
{
    if sig.is_empty() {
        return DecryptPlan::Answer { output: String::new() };
    }
    if info.external_helper {
        return DecryptPlan::ExternalHelper;
    }
    if !info.sig_function_found {
        let mut output = String::new();
        output.append(sig);
        return DecryptPlan::Answer { output };
    }
    let load = if loaded != info.player_id {
        Some(info.sig_function_code.clone())
    } else {
        None
    };
    DecryptPlan::Evaluate { load, call: decrypt_call(info.sig_function_name.as_str(), sig) }
}

/// The player whose program a context holds after a load of player
/// `player_id` was attempted: a failed load leaves the context as it was.
pub open spec fn loaded_after_spec(loaded: u32, player_id: u32, load_ok: bool) -> u32 {
    if load_ok {
        player_id
    } else {
        loaded
    }
}

/// The context's player after a load of player `player_id` was attempted.
pub fn loaded_after(loaded: u32, player_id: u32, load_ok: bool) -> (r: u32)
    ensures
        r == loaded_after_spec(loaded, player_id, load_ok),
{
    if load_ok {
        player_id
    } else {
        loaded
    }
}

/// The answer to a decrypt request: the evaluated `output`, or an empty
/// signature when evaluation failed or its result does not fit a frame.
pub fn decrypt_response(opcode: JobOpcode, request_id: u32, output: Option<String>) -> (r: OpcodeResponse)
    requires
        carries_signature(opcode),
    ensures
        r.opcode == opcode,
        r.request_id == request_id,
        r.fits(),
        match output {
            Some(o) => if encode_utf8(o@).len() <= u16::MAX {
                r.signature@ == o@
            } else {
                r.signature@.len() == 0
            },
            None => r.signature@.len() == 0,
        },
{
    let mut r = OpcodeResponse::new(opcode, request_id);
    match output {
        Some(o) => {
            if o.as_str().as_bytes().len() <= 65535 {
                r.signature = o;
            }
        },
        None => {},
    }
    r
}

/// How many interpreters to pool: the detected parallelism, at least one.
pub fn interpreter_count(detected: Option<usize>) -> (r: usize)
    ensures
        r >= 1,
        match detected {
            Some(n) => n >= 1 ==> r == n,
            None => r == 1,
        },
{
    match detected {
        Some(n) => if n >= 1 {
            n
        } else {
            1
        },
        None => 1,
    }
}


/// A commit is all or nothing: afterwards the record holds the new player id
/// together with all of that player's programs, name and timestamp, or (when
/// the player was already current) all of the old ones.
pub proof fn lemma_commit_is_atomic(s: PlayerView, id: u32, e: Extracted, now: u64)
    ensures
        ({
            let t = after_commit(s, id, e, now);
            if commit_status(s, id) is Ok {
                &&& t.player_id == id
                &&& t.nsig_function_code == e.nsig_code@
                &&& t.sig_function_code == e.sig_code@
                &&& t.sig_function_name == e.sig_name@
                &&& t.signature_timestamp == e.signature_timestamp
            } else {
                &&& t.player_id == s.player_id
                &&& t.nsig_function_code == s.nsig_function_code
                &&& t.sig_function_code == s.sig_function_code
                &&& t.sig_function_name == s.sig_function_name
                &&& t.signature_timestamp == s.signature_timestamp
            }
        }),
{
}

/// Without a player (id 0) the status answer reports no player and id 0.
pub proof fn lemma_uninitialized_status(s: PlayerView)
    requires
        s.wf(),
        s.player_id == 0,
    ensures
        s.has_player == 0,
{
}

/// Two updates to the same new player that both started against a stale
/// record commit once: the first commits, the second finds the player
/// current and leaves the first one's programs in place.
pub proof fn lemma_concurrent_updates_commit_once(
    s: PlayerView,
    id: u32,
    e1: Extracted,
    e2: Extracted,
    now1: u64,
    now2: u64,
)
    requires
        s.player_id != id,
    ensures
        commit_status(s, id) == Ok::<(), FetchUpdateStatus>(()),
        commit_status(after_commit(s, id, e1, now1), id) == Err::<(), _>(
            FetchUpdateStatus::PlayerAlreadyUpdated,
        ),
        after_commit(after_commit(s, id, e1, now1), id, e2, now2) == (PlayerView {
            last_update: now2,
            ..after_commit(s, id, e1, now1)
        }),
{
}

/// Repeating a decrypt request against the same player evaluates the same
/// expression, and the second time loads nothing: the first request's load
/// left the context holding that player's program.
pub proof fn lemma_repeated_request_same_call(info: PlayerView, loaded: u32, sig: Seq<char>)
    ensures
        ({
            let again = loaded_after_spec(loaded, info.player_id, true);
            &&& match nsig_plan_of(info, loaded, sig) {
                PlanView::Evaluate { load, call } => nsig_plan_of(info, again, sig)
                    == PlanView::Evaluate { load: None, call },
                p => nsig_plan_of(info, again, sig) == p,
            }
            &&& match sig_plan_of(info, loaded, sig) {
                PlanView::Evaluate { load, call } => sig_plan_of(info, again, sig)
                    == PlanView::Evaluate { load: None, call },
                p => sig_plan_of(info, again, sig) == p,
            }
        }),
{
}

} // verus!
