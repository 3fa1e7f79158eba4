//! The telemetry heartbeat's decisions: at most one ping per machine every
//! seven days, throttled in-process with a widening back-off, classified without
//! ever sending the raw endpoint, and bounded on every value relayed.
//!
//! Durations and instants are whole milliseconds; instants come from one
//! monotonic clock.

use vstd::prelude::*;
use vstd::utf8::encode_utf8;
use crate::config::Mode;
use crate::order::{lex_lt, lex_lt_exec, lemma_lex_asymmetric, lemma_lex_irreflexive, lemma_lex_total, lemma_lex_transitive};
use crate::text::{
    append, ascii_lowercase, ascii_lowercase_chars, chars_of, ends_with, ends_with_chars,
    is_white_space, is_white_space_exec, owned, seq_eq, str_eq, string_of, strip_leading,
    strip_leading_chars, strip_trailing, strip_trailing_chars, to_unicode_lowercase, trim,
    trim_chars, trim_start, unicode_lowercase,
};

verus! {

/// At most one delivered ping per machine per this long: seven days.
pub const HEARTBEAT_INTERVAL: u64 = 604_800_000;

/// How often one process re-consults the in-process guard with no failures: one hour.
pub const HEARTBEAT_GUARD_INTERVAL: u64 = 3_600_000;

/// The budget for the whole telemetry path, probe and POST together.
pub const HEARTBEAT_TIMEOUT: u64 = 3_000;

/// The most the `/health` probe may take of [`HEARTBEAT_TIMEOUT`].
pub const HEALTH_BUDGET_CAP: u64 = 1_000;

/// The least budget worth spending on a request.
pub const MIN_BUDGET: u64 = 100;

/// The most of a `/health` body the probe buffers, in bytes.
pub const MAX_HEALTH_BODY_BYTES: usize = 1_048_576;

/// The longest value relayed from `/health`, in bytes. Longer ones are
/// dropped whole, never truncated.
pub const MAX_RELAYED_VALUE_LEN: usize = 64;

/// The most `features` entries one ping carries.
pub const MAX_FEATURES: usize = 32;

/// The longest `features` entry, in bytes.
pub const MAX_FEATURE_BYTES: usize = 128;

/// Marks a `features` entry as an adapter identifier.
pub const FEATURE_ADAPTER_PREFIX: &'static str = "adapter:";

/// Where pings go unless `AXONFLOW_CHECKPOINT_URL` says otherwise.
pub const DEFAULT_CHECKPOINT_URL: &'static str = "https://checkpoint.getaxonflow.com/v1/ping";

/// The stream a sandbox client's pings carry.
pub const STREAM_SANDBOX: &'static str = "sandbox";

pub const ENDPOINT_TYPE_LOCALHOST: &'static str = "localhost";
pub const ENDPOINT_TYPE_PRIVATE: &'static str = "private_network";
pub const ENDPOINT_TYPE_REMOTE: &'static str = "remote";
pub const ENDPOINT_TYPE_UNKNOWN: &'static str = "unknown";

pub const DEPLOYMENT_MODE_SELF_HOSTED: &'static str = "self_hosted";
pub const DEPLOYMENT_MODE_COMMUNITY_SAAS: &'static str = "community_saas";
pub const DEPLOYMENT_MODE_UNKNOWN: &'static str = "unknown";

/// The `org_id` a ping carries when `ORG_ID` is unset or empty.
pub const ORG_ID_LOCAL_DEV_SENTINEL: &'static str = "local-dev-org";

/// The runtime version reported when the toolchain is not known.
pub const RUNTIME_VERSION_UNKNOWN: &'static str = "unknown";

// ---------------------------------------------------------------------------
// The back-off
// ---------------------------------------------------------------------------

/// `2^n`.
pub open spec fn doubled(n: nat) -> nat
    decreases n,
{
    if n == 0 {
        1
    } else {
        2 * doubled((n - 1) as nat)
    }
}

pub proof fn lemma_doubled_monotone(i: nat, j: nat)
    requires
        i <= j,
    ensures
        1 <= doubled(i) <= doubled(j),
    decreases j,
{
    if j > 0 && i < j {
        lemma_doubled_monotone(i, (j - 1) as nat);
    } else if j > 0 {
        lemma_doubled_monotone(0, (j - 1) as nat);
    }
}

/// How long the throttle waits after `failures` undelivered attempts in a row:
/// doubling from the guard interval, at most sixteen times, capped at the
/// heartbeat interval.
pub open spec fn guard_interval(failures: u32) -> nat {
    let d: nat = if failures < 16 { failures as nat } else { 16 };
    let widened: nat = (HEARTBEAT_GUARD_INTERVAL as nat) * doubled(d);
    if widened < HEARTBEAT_INTERVAL { widened } else { HEARTBEAT_INTERVAL as nat }
}

/// How long the throttle waits before re-consulting, given how many attempts in
/// a row failed to deliver.
pub fn guard_interval_for(consecutive_failures: u32) -> (r: u64)
    ensures
        r == guard_interval(consecutive_failures),
{
    let d: u32 = if consecutive_failures < 16 { consecutive_failures } else { 16 };
    let mut v: u64 = HEARTBEAT_GUARD_INTERVAL;
    let mut i: u32 = 0;
    proof {
        lemma_doubled_monotone(d as nat, 16);
        reveal_with_fuel(doubled, 17);
    }
    while i < d
        invariant
            i <= d <= 16,
            v == HEARTBEAT_GUARD_INTERVAL * doubled(i as nat),
            doubled(16) == 65536,
        decreases d - i,
    {
        proof {
            lemma_doubled_monotone((i + 1) as nat, 16);
        }
        v = v * 2;
        i += 1;
    }
    if v < HEARTBEAT_INTERVAL {
        v
    } else {
        HEARTBEAT_INTERVAL
    }
}

/// More consecutive failures never shorten the wait, and the wait is always
/// between the guard interval and the heartbeat interval.
pub proof fn law_backoff_widens_and_is_capped(a: u32, b: u32)
    requires
        a <= b,
    ensures
        guard_interval(a) <= guard_interval(b),
        HEARTBEAT_GUARD_INTERVAL <= guard_interval(a) <= HEARTBEAT_INTERVAL,
{
    let da: nat = if a < 16 { a as nat } else { 16 };
    let db: nat = if b < 16 { b as nat } else { 16 };
    lemma_doubled_monotone(da, db);
    assert(HEARTBEAT_GUARD_INTERVAL * doubled(da) <= HEARTBEAT_GUARD_INTERVAL * doubled(db)) by (nonlinear_arith)
        requires
            doubled(da) <= doubled(db),
    ;
    assert(HEARTBEAT_GUARD_INTERVAL * 1 <= HEARTBEAT_GUARD_INTERVAL * doubled(da)) by (nonlinear_arith)
        requires
            1 <= doubled(da),
    ;
}

// ---------------------------------------------------------------------------
// The process-wide throttle
// ---------------------------------------------------------------------------

/// The process-wide heartbeat throttle: when it was last consulted, whether a
/// pass is in flight, how many attempts in a row failed, and when a ping was
/// last delivered.
#[derive(Debug, Clone, Copy, PartialEq, Eq)]
pub struct Gate {
    pub last_checked: Option<u64>,
    pub in_flight: bool,
    pub consecutive_failures: u32,
    pub last_delivered: Option<u64>,
}

/// How long ago `then` was at `now`, saturating at zero.
pub open spec fn elapsed(then: u64, now: u64) -> nat {
    if now >= then { (now - then) as nat } else { 0 }
}

/// Whether a pass may start at `now`: none is in flight, the (widened) guard
/// interval has passed since the throttle was last consulted, and the heartbeat
/// interval has passed since the last delivery.
pub open spec fn may_claim(g: Gate, now: u64) -> bool {
    &&& !g.in_flight
    &&& g.last_checked matches Some(t) ==> elapsed(t, now) >= guard_interval(g.consecutive_failures)
    &&& g.last_delivered matches Some(d) ==> elapsed(d, now) >= HEARTBEAT_INTERVAL
}

/// The throttle after an attempt at `now` that did or did not deliver.
pub open spec fn recorded(g: Gate, delivered: bool, now: u64) -> Gate {
    if delivered {
        Gate { consecutive_failures: 0, last_delivered: Some(now), ..g }
    } else {
        Gate {
            consecutive_failures: if g.consecutive_failures < u32::MAX { (g.consecutive_failures + 1) as u32 } else { u32::MAX },
            ..g
        }
    }
}

impl Gate {
    /// A fresh process: nothing checked, nothing in flight, no back-off.
    pub fn new() -> (g: Self)
        ensures
            g == (Gate { last_checked: None, in_flight: false, consecutive_failures: 0, last_delivered: None }),
    {
        Gate { last_checked: None, in_flight: false, consecutive_failures: 0, last_delivered: None }
    }

    /// Claims the in-flight slot at `now` when a pass may start, stamping
    /// the check BEFORE the send; leaves the throttle alone otherwise.
    pub fn claim_gate_slot(&mut self, now: u64) -> (claimed: bool)
        ensures
            claimed == may_claim(*old(self), now),
            claimed ==> *final(self) == (Gate { last_checked: Some(now), in_flight: true, ..*old(self) }),
            !claimed ==> *final(self) == *old(self),
    {
        if self.in_flight {
            return false;
        }
        match self.last_checked {
            Some(last) => {
                let ago = if now >= last { now - last } else { 0 };
                if ago < guard_interval_for(self.consecutive_failures) {
                    return false;
                }
            },
            None => {},
        }
        match self.last_delivered {
            Some(delivered) => {
                let ago = if now >= delivered { now - delivered } else { 0 };
                if ago < HEARTBEAT_INTERVAL {
                    return false;
                }
            },
            None => {},
        }
        self.last_checked = Some(now);
        self.in_flight = true;
        true
    }

    /// Releases the in-flight slot, however the pass ended.
    pub fn release_gate_slot(&mut self)
        ensures
            *final(self) == (Gate { in_flight: false, ..*old(self) }),
    {
        self.in_flight = false;
    }

    /// Records what an attempt achieved: a delivery clears the back-off and
    /// starts the seven-day cadence; a failure widens the back-off.
    pub fn record_attempt(&mut self, delivered: bool, now: u64)
        ensures
            *final(self) == recorded(*old(self), delivered, now),
    {
        if delivered {
            self.consecutive_failures = 0;
            self.last_delivered = Some(now);
        } else {
            self.consecutive_failures = self.consecutive_failures.saturating_add(1);
        }
    }
}

/// Everything the heartbeat decides synchronously: nothing when telemetry is
/// switched off (the throttle is left alone), otherwise whether the throttle
/// lets a pass start at `now`. `telemetry` is what `AXONFLOW_TELEMETRY`
/// holds.
pub fn prepare_heartbeat(gate: &mut Gate, telemetry: Option<&str>, now: u64) -> (go: bool)
    ensures
        telemetry_off_spec(match telemetry {
            Some(v) => Some(v@),
            None => None,
        }) ==> !go && *final(gate) == *old(gate),
        !telemetry_off_spec(match telemetry {
            Some(v) => Some(v@),
            None => None,
        }) ==> go == may_claim(*old(gate), now) && (go ==> *final(gate) == (Gate { last_checked: Some(now), in_flight: true, ..*old(gate) }))
            && (!go ==> *final(gate) == *old(gate)),
{
    if telemetry_off_value(telemetry) {
        return false;
    }
    gate.claim_gate_slot(now)
}

/// While a pass is in flight, every other caller is refused: concurrent
/// callers coalesce onto one ping.
pub proof fn law_in_flight_pass_coalesces(g: Gate, now: u64)
    requires
        g.in_flight,
    ensures
        !may_claim(g, now),
{
}

/// After a delivery at `d`, no pass starts within the heartbeat interval,
/// whatever else happens to the throttle in between short of another delivery.
pub proof fn law_delivery_holds_the_cadence(g: Gate, d: u64, now: u64)
    requires
        d <= now,
        now - d < HEARTBEAT_INTERVAL,
    ensures
        !may_claim(recorded(g, true, d), now),
{
}

/// A failed attempt never shortens the wait before the next one.
pub proof fn law_failure_never_shortens_the_wait(g: Gate, now: u64)
    ensures
        guard_interval(g.consecutive_failures) <= guard_interval(recorded(g, false, now).consecutive_failures),
{
    law_backoff_widens_and_is_capped(g.consecutive_failures, recorded(g, false, now).consecutive_failures);
}

// ---------------------------------------------------------------------------
// The shared budget
// ---------------------------------------------------------------------------

/// The budget left before `deadline` at `now`, saturating at zero.
pub fn remaining(deadline: u64, now: u64) -> (r: u64)
    ensures
        r == elapsed(now, deadline),
{
    if deadline >= now {
        deadline - now
    } else {
        0
    }
}

/// The `/health` probe's share of what is left: at most its cap.
pub fn health_budget(left: u64) -> (r: u64)
    ensures
        r == if left < HEALTH_BUDGET_CAP { left } else { HEALTH_BUDGET_CAP },
{
    if left < HEALTH_BUDGET_CAP {
        left
    } else {
        HEALTH_BUDGET_CAP
    }
}

/// Whether a budget is worth spending on the probe.
pub fn worth_probing(budget: u64) -> (r: bool)
    ensures
        r == (budget > MIN_BUDGET),
{
    budget > MIN_BUDGET
}

/// Whether what is left is worth spending on the POST.
pub fn worth_posting(left: u64) -> (r: bool)
    ensures
        r == (left >= MIN_BUDGET),
{
    left >= MIN_BUDGET
}

/// However long the probe takes within its budget, the POST still has more
/// than the floor: the probe can never starve the ping.
pub proof fn law_probe_leaves_room_for_the_post(spent: u64)
    requires
        spent <= health_budget_spec(HEARTBEAT_TIMEOUT),
    ensures
        HEARTBEAT_TIMEOUT - spent > MIN_BUDGET,
        HEALTH_BUDGET_CAP > MIN_BUDGET,
{
}

/// The probe's share of a fresh budget.
pub open spec fn health_budget_spec(left: u64) -> u64 {
    if left < HEALTH_BUDGET_CAP { left } else { HEALTH_BUDGET_CAP }
}

// ---------------------------------------------------------------------------
// Small classifications
// ---------------------------------------------------------------------------

/// The stream a ping carries: `sandbox` for a sandbox client, none for
/// production.
pub fn stream_for_mode(mode: &Mode) -> (r: Option<&'static str>)
    ensures
        match mode {
            Mode::Sandbox => r == Some(STREAM_SANDBOX),
            Mode::Production => r is None,
        },
{
    match mode {
        Mode::Sandbox => Some(STREAM_SANDBOX),
        Mode::Production => None,
    }
}

/// Whether `AXONFLOW_TELEMETRY` holding `value` switches telemetry off:
/// `off`, in any ASCII case, around any white space.
pub open spec fn telemetry_off_spec(value: Option<Seq<char>>) -> bool {
    match value {
        Some(v) => ascii_lowercase(trim(v)) == "off"@,
        None => false,
    }
}

/// Whether `AXONFLOW_TELEMETRY` holding `value` switches telemetry off.
pub fn telemetry_off_value(value: Option<&str>) -> (r: bool)
    ensures
        r == telemetry_off_spec(match value {
            Some(v) => Some(v@),
            None => None,
        }),
{
    match value {
        Some(v) => {
            let cs = chars_of(v);
            let t = trim_chars(cs.as_slice());
            let l = ascii_lowercase_chars(t.as_slice());
            let off = chars_of("off");
            seq_eq(l.as_slice(), off.as_slice())
        },
        None => false,
    }
}

/// The `org_id` a ping carries: `ORG_ID` when it is set and not empty, the
/// local-development sentinel otherwise. Never empty.
pub fn org_id_for(value: Option<&str>) -> (r: String)
    ensures
        match value {
            Some(v) if v@.len() > 0 => r@ == v@,
            _ => r@ == ORG_ID_LOCAL_DEV_SENTINEL@,
        },
{
    match value {
        Some(v) => if v.is_empty() {
            owned(ORG_ID_LOCAL_DEV_SENTINEL)
        } else {
            owned(v)
        },
        None => owned(ORG_ID_LOCAL_DEV_SENTINEL),
    }
}

// ---------------------------------------------------------------------------
// The runtime version
// ---------------------------------------------------------------------------

/// The leading run of non-white-space characters of `s`.
pub open spec fn word(s: Seq<char>) -> Seq<char>
    decreases s.len(),
{
    if s.len() == 0 || is_white_space(s[0]) {
        Seq::empty()
    } else {
        seq![s[0]] + word(s.drop_first())
    }
}

/// The `rustc <version>` shape of a `rustc --version` line: its first word
/// must be `rustc` and its second a version token that starts with an ASCII
/// digit and is at most [`MAX_RELAYED_VALUE_LEN`] bytes; anything else is
/// `unknown`.
pub open spec fn normalized_runtime(raw: Seq<char>) -> Seq<char> {
    let s = trim(raw);
    let first = word(s);
    let rest = trim_start(s.subrange(first.len() as int, s.len() as int));
    let version = word(rest);
    if first == "rustc"@ && version.len() > 0 && '0' <= version[0] <= '9'
        && encode_utf8(version).len() <= MAX_RELAYED_VALUE_LEN {
        "rustc "@ + version
    } else {
        RUNTIME_VERSION_UNKNOWN@
    }
}

proof fn lemma_word_prefix(s: Seq<char>, n: int)
    requires
        0 <= n <= s.len(),
        forall|i: int| 0 <= i < n ==> !is_white_space(#[trigger] s[i]),
        n == s.len() || is_white_space(s[n]),
    ensures
        word(s) == s.subrange(0, n),
    decreases s.len(),
{
    if n == 0 {
        assert(s.subrange(0, 0) =~= Seq::<char>::empty());
    } else {
        let t = s.drop_first();
        assert forall|i: int| 0 <= i < n - 1 implies !is_white_space(#[trigger] t[i]) by {
            assert(t[i] == s[i + 1]);
        }
        if n < s.len() {
            assert(t[n - 1] == s[n]);
        }
        lemma_word_prefix(t, n - 1);
        assert(seq![s[0]] + t.subrange(0, n - 1) =~= s.subrange(0, n));
    }
}

proof fn lemma_trim_start_skip(s: Seq<char>, n: int)
    requires
        0 <= n <= s.len(),
        forall|i: int| 0 <= i < n ==> is_white_space(#[trigger] s[i]),
        n == s.len() || !is_white_space(s[n]),
    ensures
        trim_start(s) == s.subrange(n, s.len() as int),
    decreases s.len(),
{
    if n == 0 {
        assert(s.subrange(0, s.len() as int) =~= s);
    } else {
        let t = s.drop_first();
        assert forall|i: int| 0 <= i < n - 1 implies is_white_space(#[trigger] t[i]) by {
            assert(t[i] == s[i + 1]);
        }
        if n < s.len() {
            assert(t[n - 1] == s[n]);
        }
        lemma_trim_start_skip(t, n - 1);
        assert(t.subrange(n - 1, t.len() as int) =~= s.subrange(n, s.len() as int));
    }
}

/// The first index at or after `from` whose character is (or is not) white
/// space, or the end.
fn scan(v: &[char], from: usize, white: bool) -> (r: usize)
    requires
        from <= v@.len(),
    ensures
        from <= r <= v@.len(),
        forall|i: int| from <= i < r ==> is_white_space(#[trigger] v@[i]) == white,
        r == v@.len() || is_white_space(v@[r as int]) != white,
{
    let mut i = from;
    while i < v.len() && is_white_space_exec(v[i]) == white
        invariant
            from <= i <= v@.len(),
            forall|k: int| from <= k < i ==> is_white_space(#[trigger] v@[k]) == white,
        decreases v@.len() - i,
    {
        i += 1;
    }
    i
}

/// Normalises a `rustc --version` line to `rustc <version>`, dropping the
/// commit hash and build date; anything without a recognisable version
/// token is `unknown`.
pub fn normalize_rustc_version(raw: Option<&str>) -> (r: String)
    ensures
        r@ == normalized_runtime(match raw {
            Some(s) => s@,
            None => Seq::empty(),
        }),
{
    let cs = match raw {
        Some(s) => chars_of(s),
        None => Vec::new(),
    };
    let ghost raw_chars = cs@;
    let s = trim_chars(cs.as_slice());
    let ghost sv = s@;
    let e1 = scan(s.as_slice(), 0, false);
    proof {
        lemma_word_prefix(sv, e1 as int);
    }
    let b2 = scan(s.as_slice(), e1, true);
    let ghost after = sv.subrange(e1 as int, sv.len() as int);
    proof {
        assert forall|i: int| 0 <= i < b2 - e1 implies is_white_space(#[trigger] after[i]) by {
            assert(after[i] == sv[e1 + i]);
        }
        if b2 < sv.len() {
            assert(after[b2 - e1] == sv[b2 as int]);
        }
        lemma_trim_start_skip(after, b2 - e1);
        assert(after.subrange(b2 - e1, after.len() as int) =~= sv.subrange(b2 as int, sv.len() as int));
    }
    let e2 = scan(s.as_slice(), b2, false);
    let ghost rest = sv.subrange(b2 as int, sv.len() as int);
    proof {
        assert forall|i: int| 0 <= i < e2 - b2 implies !is_white_space(#[trigger] rest[i]) by {
            assert(rest[i] == sv[b2 + i]);
        }
        if e2 < sv.len() {
            assert(rest[e2 - b2] == sv[e2 as int]);
        }
        lemma_word_prefix(rest, e2 - b2);
        assert(rest.subrange(0, e2 - b2) =~= sv.subrange(b2 as int, e2 as int));
    }
    let mut first: Vec<char> = Vec::new();
    let mut i: usize = 0;
    while i < e1
        invariant
            i <= e1 <= sv.len(),
            s@ == sv,
            first@ == sv.subrange(0, i as int),
        decreases e1 - i,
    {
        first.push(s[i]);
        assert(sv.subrange(0, i as int).push(sv[i as int]) =~= sv.subrange(0, i + 1));
        i += 1;
    }
    let mut version: Vec<char> = Vec::new();
    let mut j: usize = b2;
    while j < e2
        invariant
            b2 <= j <= e2 <= sv.len(),
            s@ == sv,
            version@ == sv.subrange(b2 as int, j as int),
        decreases e2 - j,
    {
        version.push(s[j]);
        assert(sv.subrange(b2 as int, j as int).push(sv[j as int]) =~= sv.subrange(b2 as int, j + 1));
        j += 1;
    }
    let rustc = chars_of("rustc");
    if seq_eq(first.as_slice(), rustc.as_slice()) && version.len() > 0 && '0' <= version[0] && version[0] <= '9' {
        let v = string_of(version.as_slice());
        if v.as_str().as_bytes().len() <= MAX_RELAYED_VALUE_LEN {
            let mut r = owned("rustc ");
            append(&mut r, v.as_str());
            return r;
        }
    }
    owned(RUNTIME_VERSION_UNKNOWN)
}


// ---------------------------------------------------------------------------
// The adapter registry and the features array
// ---------------------------------------------------------------------------

/// Whether the names of `s` strictly ascend, by character (which is the
/// byte order of their UTF-8).
pub open spec fn names_ascend(s: Seq<String>) -> bool {
    forall|i: int, j: int| 0 <= i < j < s.len() ==> lex_lt(#[trigger] s[i]@, #[trigger] s[j]@)
}

/// The adapter names declared so far, each once, in ascending order.
pub struct AdapterRegistry {
    names: Vec<String>,
}

/// The name `register_adapter` records for `name`: trimmed, then lower-cased.
pub open spec fn adapter_name(name: Seq<char>) -> Seq<char> {
    unicode_lowercase(trim(name))
}

/// Whether a normalised adapter name is recorded: not empty, and at most
/// [`MAX_RELAYED_VALUE_LEN`] bytes.
pub open spec fn admissible_adapter(n: Seq<char>) -> bool {
    n.len() > 0 && encode_utf8(n).len() <= MAX_RELAYED_VALUE_LEN
}

impl AdapterRegistry {
    #[verifier::type_invariant]
    spec fn wf(self) -> bool {
        names_ascend(self.names@)
    }

    /// The names, in ascending order.
    pub closed spec fn names(self) -> Seq<Seq<char>> {
        self.names@.map_values(|n: String| n@)
    }

    /// No adapter declared.
    pub fn new() -> (r: Self)
        ensures
            r.names().len() == 0,
    {
        AdapterRegistry { names: Vec::new() }
    }

    /// The names strictly ascend, so each occurs once.
    pub fn names_in_order(&self) -> (r: &[String])
        ensures
            r@.map_values(|n: String| n@) == self.names(),
            forall|i: int, j: int| 0 <= i < j < r@.len() ==> lex_lt(#[trigger] r@[i]@, #[trigger] r@[j]@),
    {
        proof {
            use_type_invariant(self);
        }
        self.names.as_slice()
    }

    /// Where `key` is, or would go.
    fn locate(&self, key: &[char]) -> (r: (usize, bool))
        ensures
            r.0 <= self.names@.len(),
            forall|i: int| 0 <= i < r.0 ==> lex_lt((#[trigger] self.names@[i])@, key@),
            r.0 < self.names@.len() ==> !lex_lt(self.names@[r.0 as int]@, key@),
            r.1 == (r.0 < self.names@.len() && self.names@[r.0 as int]@ == key@),
    {
        let mut i: usize = 0;
        while i < self.names.len()
            invariant
                i <= self.names@.len(),
                forall|k: int| 0 <= k < i ==> lex_lt((#[trigger] self.names@[k])@, key@),
            decreases self.names@.len() - i,
        {
            let name = chars_of(self.names[i].as_str());
            if !lex_lt_exec(name.as_slice(), key) {
                let same = seq_eq(name.as_slice(), key);
                return (i, same);
            }
            i += 1;
        }
        (i, false)
    }

    /// Adds `name` unless it is already there.
    fn add(&mut self, name: String)
        ensures
            forall|k: Seq<char>| final(self).names().contains(k) <==> (old(self).names().contains(k) || k == name@),
    {
        proof {
            use_type_invariant(&*self);
        }
        let key = chars_of(name.as_str());
        let (p, found) = self.locate(key.as_slice());
        let ghost before = self.names@;
        if found {
            proof {
                assert(self.names().contains(name@)) by {
                    assert(self.names()[p as int] == name@);
                }
            }
            return;
        }
        let mut names: Vec<String> = Vec::new();
        std::mem::swap(&mut names, &mut self.names);
        names.insert(p, name);
        proof {
            let after = names@;
            assert(after == before.insert(p as int, name));
            assert(names_ascend(after)) by {
                assert forall|i: int, j: int| 0 <= i < j < after.len() implies lex_lt(#[trigger] after[i]@, #[trigger] after[j]@) by {
                    if j < p {
                        assert(lex_lt(before[i]@, before[j]@));
                    } else if j == p {
                    } else if i < p {
                        lemma_lex_total(before[p as int]@, key@);
                        if j - 1 > p {
                            assert(lex_lt(before[p as int]@, before[j - 1]@));
                            lemma_lex_transitive(key@, before[p as int]@, before[j - 1]@);
                        }
                        lemma_lex_transitive(before[i]@, key@, before[j - 1]@);
                    } else if i == p {
                        lemma_lex_total(before[p as int]@, key@);
                        if j - 1 > p {
                            assert(lex_lt(before[p as int]@, before[j - 1]@));
                            lemma_lex_transitive(key@, before[p as int]@, before[j - 1]@);
                        }
                    } else {
                        assert(lex_lt(before[i - 1]@, before[j - 1]@));
                    }
                }
            }
            let va = after.map_values(|n: String| n@);
            let vb = before.map_values(|n: String| n@);
            assert forall|k: Seq<char>| va.contains(k) <==> (vb.contains(k) || k == name@) by {
                if va.contains(k) {
                    let i = choose|i: int| 0 <= i < va.len() && va[i] == k;
                    if i < p {
                        assert(vb[i] == k);
                    } else if i > p {
                        assert(vb[i - 1] == k);
                    }
                }
                if vb.contains(k) {
                    let i = choose|i: int| 0 <= i < vb.len() && vb[i] == k;
                    if i < p {
                        assert(va[i] == k);
                    } else {
                        assert(va[i + 1] == k);
                    }
                }
                if k == name@ {
                    assert(va[p as int] == k);
                }
            }
        }
        self.names = names;
    }
}

/// Declares that a framework adapter drives this SDK, so the next heartbeat
/// carries `adapter:<name>`. The name is trimmed and lower-cased; one empty
/// after trimming, or longer than [`MAX_RELAYED_VALUE_LEN`] bytes, is
/// refused silently. Declaring a name twice records it once.
pub fn register_adapter(registry: &mut AdapterRegistry, name: &str)
    ensures
        admissible_adapter(adapter_name(name@)) ==> forall|k: Seq<char>| final(registry).names().contains(k)
            <==> (old(registry).names().contains(k) || k == adapter_name(name@)),
        !admissible_adapter(adapter_name(name@)) ==> final(registry).names() == old(registry).names(),
{
    let cs = chars_of(name);
    let t = trim_chars(cs.as_slice());
    let trimmed = string_of(t.as_slice());
    let normalized = to_unicode_lowercase(trimmed.as_str());
    if normalized.as_str().is_empty() || normalized.as_str().as_bytes().len() > MAX_RELAYED_VALUE_LEN {
        return;
    }
    registry.add(normalized);
}

/// The array bounds: the entries of at most [`MAX_FEATURE_BYTES`] bytes, in
/// order, and at most [`MAX_FEATURES`] of them. An over-long entry is dropped
/// rather than truncated.
pub open spec fn bounded_features(features: Seq<Seq<char>>) -> Seq<Seq<char>> {
    let kept = features.filter(|f: Seq<char>| encode_utf8(f).len() <= MAX_FEATURE_BYTES);
    if kept.len() <= MAX_FEATURES { kept } else { kept.take(MAX_FEATURES as int) }
}

/// Applies the receiver's array bounds to `features`.
pub fn bound_features(features: Vec<String>) -> (r: Vec<String>)
    ensures
        r@.map_values(|f: String| f@) == bounded_features(features@.map_values(|f: String| f@)),
{
    let ghost all = features@.map_values(|f: String| f@);
    let ghost pred = |f: Seq<char>| encode_utf8(f).len() <= MAX_FEATURE_BYTES;
    let mut kept: Vec<String> = Vec::new();
    let mut i: usize = 0;
    let n = features.len();
    while i < features.len()
        invariant
            i <= features@.len() == n,
            all == features@.map_values(|f: String| f@),
            pred == (|f: Seq<char>| encode_utf8(f).len() <= MAX_FEATURE_BYTES),
            kept@.map_values(|f: String| f@) == all.subrange(0, i as int).filter(pred),
        decreases features@.len() - i,
    {
        proof {
            reveal(Seq::filter);
            assert(all.subrange(0, i + 1).drop_last() =~= all.subrange(0, i as int));
        }
        let ghost before = kept@;
        if features[i].as_str().as_bytes().len() <= MAX_FEATURE_BYTES {
            let f = features[i].clone();
            kept.push(f);
            proof {
                assert(kept@.map_values(|f: String| f@) =~= before.map_values(|f: String| f@).push(all[i as int]));
            }
        }
        i += 1;
    }
    proof {
        assert(all.subrange(0, n as int) =~= all);
    }
    if kept.len() > MAX_FEATURES {
        kept.truncate(MAX_FEATURES);
        proof {
            assert(kept@.map_values(|f: String| f@) =~= all.filter(pred).take(MAX_FEATURES as int));
        }
    }
    kept
}

/// The features array for one ping: `adapter:<name>` for each declared name,
/// in ascending order, within the array bounds.
pub fn registered_features(registry: &AdapterRegistry) -> (r: Vec<String>)
    ensures
        r@.map_values(|f: String| f@) == bounded_features(registry.names().map_values(|n: Seq<char>| FEATURE_ADAPTER_PREFIX@ + n)),
{
    let names = registry.names_in_order();
    let ghost prefixed = registry.names().map_values(|n: Seq<char>| FEATURE_ADAPTER_PREFIX@ + n);
    let mut out: Vec<String> = Vec::new();
    let mut i: usize = 0;
    while i < names.len()
        invariant
            i <= names@.len(),
            names@.map_values(|n: String| n@) == registry.names(),
            prefixed == registry.names().map_values(|n: Seq<char>| FEATURE_ADAPTER_PREFIX@ + n),
            out@.map_values(|f: String| f@) == prefixed.subrange(0, i as int),
        decreases names@.len() - i,
    {
        let mut f = owned(FEATURE_ADAPTER_PREFIX);
        append(&mut f, names[i].as_str());
        let ghost before = out@;
        out.push(f);
        proof {
            assert(out@.map_values(|f: String| f@) =~= before.map_values(|f: String| f@).push(prefixed[i as int]));
            assert(prefixed.subrange(0, i as int).push(prefixed[i as int]) =~= prefixed.subrange(0, i + 1));
        }
        i += 1;
    }
    proof {
        assert(prefixed.subrange(0, names@.len() as int) =~= prefixed);
    }
    bound_features(out)
}


// ---------------------------------------------------------------------------
// Classifying the endpoint
// ---------------------------------------------------------------------------

/// The host `url::Url::parse` finds in a URL, when it parses and has one.
pub uninterp spec fn url_host(url: Seq<char>) -> Option<Seq<char>>;

/// `url::Url::parse(url)`, then `host_str`: the host, when the URL parses
/// and has one.
#[verifier::external_body]
fn parsed_host(url: &str) -> (r: Option<String>)
    ensures
        match r {
            Some(h) => url_host(url@) == Some(h@),
            None => url_host(url@) is None,
        },
{
    match url::Url::parse(url) {
        Ok(u) => match u.host_str() {
            Some(h) => Some(h.to_string()),
            None => None,
        },
        Err(_) => None,
    }
}

/// The host of an endpoint as the classification reads it: brackets around
/// an IPv6 literal stripped, lower-cased. None for an empty endpoint, one
/// that does not parse, or one with no host.
pub open spec fn endpoint_host_spec(endpoint: Seq<char>) -> Option<Seq<char>> {
    if endpoint.len() == 0 {
        None
    } else {
        match url_host(endpoint) {
            Some(h) => Some(unicode_lowercase(strip_trailing(strip_leading(h, '['), ']'))),
            None => None,
        }
    }
}

/// The host of an endpoint as the classification reads it.
pub fn endpoint_host(endpoint: &str) -> (r: Option<String>)
    ensures
        match endpoint_host_spec(endpoint@) {
            Some(h) => r is Some && r->0@ == h,
            None => r is None,
        },
{
    if endpoint.is_empty() {
        return None;
    }
    match parsed_host(endpoint) {
        Some(h) => {
            let cs = chars_of(h.as_str());
            let a = strip_leading_chars(cs.as_slice(), '[');
            let b = strip_trailing_chars(a.as_slice(), ']');
            let s = string_of(b.as_slice());
            Some(to_unicode_lowercase(s.as_str()))
        },
        None => None,
    }
}

/// An IP address, as its octets or segments.
#[derive(Debug, Clone, Copy, PartialEq, Eq)]
pub enum IpAddress {
    V4([u8; 4]),
    V6([u16; 8]),
}

/// Whether an address is a loopback: `127.0.0.0/8`, or `::1`.
pub open spec fn is_loopback(ip: IpAddress) -> bool {
    match ip {
        IpAddress::V4(o) => o[0] == 127,
        IpAddress::V6(s) => s[0] == 0 && s[1] == 0 && s[2] == 0 && s[3] == 0 && s[4] == 0 && s[5] == 0 && s[6] == 0
            && s[7] == 1,
    }
}

/// Whether an address is private or link-local: `10/8`, `172.16/12`,
/// `192.168/16`, `169.254/16`; `fc00::/7`, `fe80::/10`.
pub open spec fn is_private_or_link_local(ip: IpAddress) -> bool {
    match ip {
        IpAddress::V4(o) => o[0] == 10 || (o[0] == 172 && 16 <= o[1] <= 31) || (o[0] == 192 && o[1] == 168)
            || (o[0] == 169 && o[1] == 254),
        IpAddress::V6(s) => (s[0] & 0xfe00) == 0xfc00 || (s[0] & 0xffc0) == 0xfe80,
    }
}

/// The endpoint type of a host: `localhost` for a loopback name or address,
/// `private_network` for a private suffix or address, `remote` otherwise.
/// `ip` is the host read as an IP address, when it is one.
pub open spec fn host_type(host: Seq<char>, ip: Option<IpAddress>) -> Seq<char> {
    if host == "localhost"@ || host == "0.0.0.0"@ || ends_with(host, ".localhost"@) {
        ENDPOINT_TYPE_LOCALHOST@
    } else if ends_with(host, ".local"@) || ends_with(host, ".internal"@) || ends_with(host, ".lan"@) || ends_with(
        host,
        ".intranet"@,
    ) {
        ENDPOINT_TYPE_PRIVATE@
    } else {
        match ip {
            Some(a) => if is_loopback(a) {
                ENDPOINT_TYPE_LOCALHOST@
            } else if is_private_or_link_local(a) {
                ENDPOINT_TYPE_PRIVATE@
            } else {
                ENDPOINT_TYPE_REMOTE@
            },
            None => ENDPOINT_TYPE_REMOTE@,
        }
    }
}

fn ends_with_str(s: &[char], p: &str) -> (r: bool)
    ensures
        r == ends_with(s@, p@),
{
    let pc = chars_of(p);
    ends_with_chars(s, pc.as_slice())
}

/// Classifies a host for the `endpoint_type` dimension. The raw endpoint
/// never leaves the process; only this classification does.
pub fn classify_host(host: &str, ip: Option<IpAddress>) -> (r: &'static str)
    ensures
        r@ == host_type(host@, ip),
{
    let h = chars_of(host);
    if str_eq(host, "localhost") || str_eq(host, "0.0.0.0") || ends_with_str(h.as_slice(), ".localhost") {
        return ENDPOINT_TYPE_LOCALHOST;
    }
    if ends_with_str(h.as_slice(), ".local") || ends_with_str(h.as_slice(), ".internal") || ends_with_str(
        h.as_slice(),
        ".lan",
    ) || ends_with_str(h.as_slice(), ".intranet") {
        return ENDPOINT_TYPE_PRIVATE;
    }
    match ip {
        Some(IpAddress::V4(o)) => {
            if o[0] == 127 {
                ENDPOINT_TYPE_LOCALHOST
            } else if o[0] == 10 || (o[0] == 172 && 16 <= o[1] && o[1] <= 31) || (o[0] == 192 && o[1] == 168) || (o[0]
                == 169 && o[1] == 254) {
                ENDPOINT_TYPE_PRIVATE
            } else {
                ENDPOINT_TYPE_REMOTE
            }
        },
        Some(IpAddress::V6(s)) => {
            if s[0] == 0 && s[1] == 0 && s[2] == 0 && s[3] == 0 && s[4] == 0 && s[5] == 0 && s[6] == 0 && s[7] == 1 {
                ENDPOINT_TYPE_LOCALHOST
            } else if (s[0] & 0xfe00) == 0xfc00 || (s[0] & 0xffc0) == 0xfe80 {
                ENDPOINT_TYPE_PRIVATE
            } else {
                ENDPOINT_TYPE_REMOTE
            }
        },
        None => ENDPOINT_TYPE_REMOTE,
    }
}

/// A host name that names no local or private place leaves the
/// classification to its address.
pub open spec fn plain_host_name(host: Seq<char>) -> bool {
    &&& host != "localhost"@
    &&& host != "0.0.0.0"@
    &&& !ends_with(host, ".localhost"@)
    &&& !ends_with(host, ".local"@)
    &&& !ends_with(host, ".internal"@)
    &&& !ends_with(host, ".lan"@)
    &&& !ends_with(host, ".intranet"@)
}

/// The IPv4 classification, block by block: `127/8` is local; every address
/// of `10/8`, of the whole `172.16/12` (`172.16.x.x` to `172.31.x.x`), of
/// `192.168/16` and of the link-local `169.254/16` is a private network;
/// every other IPv4 address is remote.
pub proof fn law_ipv4_blocks_classify_as_the_platform_does(host: Seq<char>, o: [u8; 4])
    requires
        plain_host_name(host),
    ensures
        o[0] == 127 ==> host_type(host, Some(IpAddress::V4(o))) == "localhost"@,
        (o[0] == 10 || (o[0] == 172 && 16 <= o[1] && o[1] <= 31) || (o[0] == 192 && o[1] == 168)
            || (o[0] == 169 && o[1] == 254)) ==> host_type(host, Some(IpAddress::V4(o))) == "private_network"@,
        !(o[0] == 127 || o[0] == 10 || (o[0] == 172 && 16 <= o[1] && o[1] <= 31) || (o[0] == 192 && o[1] == 168)
            || (o[0] == 169 && o[1] == 254)) ==> host_type(host, Some(IpAddress::V4(o))) == "remote"@,
{
    reveal_strlit("localhost");
    reveal_strlit("private_network");
    reveal_strlit("remote");
}

/// The IPv6 classification: `::1` is local; the unique-local block
/// `fc00::/7` (first group `fc00` to `fdff`) and the link-local block
/// `fe80::/10` (first group `fe80` to `febf`) are private networks; every
/// other IPv6 address is remote.
pub proof fn law_ipv6_blocks_classify_as_the_platform_does(host: Seq<char>, g: [u16; 8])
    requires
        plain_host_name(host),
    ensures
        (g[0] == 0 && g[1] == 0 && g[2] == 0 && g[3] == 0 && g[4] == 0 && g[5] == 0 && g[6] == 0 && g[7] == 1)
            ==> host_type(host, Some(IpAddress::V6(g))) == "localhost"@,
        !(g[0] == 0 && g[1] == 0 && g[2] == 0 && g[3] == 0 && g[4] == 0 && g[5] == 0 && g[6] == 0 && g[7] == 1)
            && (0xfc00 <= g[0] <= 0xfdff || 0xfe80 <= g[0] <= 0xfebf)
            ==> host_type(host, Some(IpAddress::V6(g))) == "private_network"@,
        !(g[0] == 0 && g[1] == 0 && g[2] == 0 && g[3] == 0 && g[4] == 0 && g[5] == 0 && g[6] == 0 && g[7] == 1)
            && !(0xfc00 <= g[0] <= 0xfdff || 0xfe80 <= g[0] <= 0xfebf)
            ==> host_type(host, Some(IpAddress::V6(g))) == "remote"@,
{
    let x: u16 = g[0];
    assert(((x & 0xfe00) == 0xfc00) == (0xfc00 <= x && x <= 0xfdff)) by (bit_vector);
    assert(((x & 0xffc0) == 0xfe80) == (0xfe80 <= x && x <= 0xfebf)) by (bit_vector);
}

/// A name that is not an address is remote unless its name says otherwise.
pub proof fn law_a_plain_name_without_an_address_is_remote(host: Seq<char>)
    requires
        plain_host_name(host),
    ensures
        host_type(host, None) == "remote"@,
{
}

/// Whether `AXONFLOW_TRY` holding `value` forces the Community-SaaS
/// classification: exactly `1`.
pub fn community_override(value: Option<&str>) -> (r: bool)
    ensures
        r == (value matches Some(v) && v@ == "1"@),
{
    match value {
        Some(v) => str_eq(v, "1"),
        None => false,
    }
}

/// The deployment mode of an endpoint: Community SaaS when forced or when
/// the host is `try.getaxonflow.com` or below it, `unknown` when there is no
/// host to read, self-hosted otherwise.
pub open spec fn deployment_mode_spec(endpoint: Seq<char>, forced: bool) -> Seq<char> {
    if forced {
        DEPLOYMENT_MODE_COMMUNITY_SAAS@
    } else if endpoint.len() == 0 {
        DEPLOYMENT_MODE_UNKNOWN@
    } else {
        match url_host(endpoint) {
            None => DEPLOYMENT_MODE_UNKNOWN@,
            Some(h) => {
                let l = unicode_lowercase(h);
                if l == "try.getaxonflow.com"@ || ends_with(l, ".try.getaxonflow.com"@) {
                    DEPLOYMENT_MODE_COMMUNITY_SAAS@
                } else {
                    DEPLOYMENT_MODE_SELF_HOSTED@
                }
            },
        }
    }
}

/// Classifies the configured endpoint into `self_hosted`,
/// `community_saas` or `unknown`.
pub fn classify_deployment_mode(endpoint: &str, forced: bool) -> (r: &'static str)
    ensures
        r@ == deployment_mode_spec(endpoint@, forced),
{
    if forced {
        return DEPLOYMENT_MODE_COMMUNITY_SAAS;
    }
    if endpoint.is_empty() {
        return DEPLOYMENT_MODE_UNKNOWN;
    }
    match parsed_host(endpoint) {
        None => DEPLOYMENT_MODE_UNKNOWN,
        Some(h) => {
            let l = to_unicode_lowercase(h.as_str());
            let lc = chars_of(l.as_str());
            if str_eq(l.as_str(), "try.getaxonflow.com") || ends_with_str(lc.as_slice(), ".try.getaxonflow.com") {
                DEPLOYMENT_MODE_COMMUNITY_SAAS
            } else {
                DEPLOYMENT_MODE_SELF_HOSTED
            }
        },
    }
}

// ---------------------------------------------------------------------------
// The /health probe
// ---------------------------------------------------------------------------

/// The `/health` URL of an endpoint: trimmed, trailing slashes dropped, then
/// `/health`; none for an endpoint that is empty after trimming.
pub open spec fn health_url_spec(endpoint: Seq<char>) -> Option<Seq<char>> {
    let base = strip_trailing(trim(endpoint), '/');
    if base.len() == 0 {
        None
    } else {
        Some(base + "/health"@)
    }
}

/// The `/health` URL of an endpoint.
pub fn health_url(endpoint: &str) -> (r: Option<String>)
    ensures
        match health_url_spec(endpoint@) {
            Some(u) => r is Some && r->0@ == u,
            None => r is None,
        },
{
    let cs = chars_of(endpoint);
    let t = trim_chars(cs.as_slice());
    let b = strip_trailing_chars(t.as_slice(), '/');
    if b.len() == 0 {
        return None;
    }
    let mut u = string_of(b.as_slice());
    append(&mut u, "/health");
    Some(u)
}

/// Whether a `/health` body still fits once `chunk` more bytes arrive.
pub fn body_fits(buffered: usize, chunk: usize) -> (r: bool)
    ensures
        r == (buffered + chunk <= MAX_HEALTH_BODY_BYTES),
{
    buffered <= MAX_HEALTH_BODY_BYTES && chunk <= MAX_HEALTH_BODY_BYTES - buffered
}

/// What a JSON body holds at a top-level `key`, when the body is a JSON
/// object and that member is a string.
pub uninterp spec fn json_text_member(body: Seq<u8>, key: Seq<char>) -> Option<Seq<char>>;

/// Parses `body` with `serde_json` and reads member `key` as a string.
#[verifier::external_body]
fn text_member(body: &[u8], key: &str) -> (r: Option<String>)
    ensures
        match r {
            Some(v) => json_text_member(body@, key@) == Some(v@),
            None => json_text_member(body@, key@) is None,
        },
{
    match serde_json::from_slice::<serde_json::Value>(body) {
        Ok(v) => match v.get(key) {
            Some(serde_json::Value::String(s)) => Some(s.clone()),
            _ => None,
        },
        Err(_) => None,
    }
}

/// A relayed value is learned only when it is present, not empty and at most
/// [`MAX_RELAYED_VALUE_LEN`] bytes; anything else stays unlearned.
pub open spec fn learned(raw: Option<Seq<char>>) -> Option<Seq<char>> {
    match raw {
        Some(v) => if v.len() > 0 && encode_utf8(v).len() <= MAX_RELAYED_VALUE_LEN { Some(v) } else { None },
        None => None,
    }
}

/// Promotes one `/health` member to a relayable value.
pub fn learned_value(raw: Option<String>) -> (r: Option<String>)
    ensures
        match learned(match raw {
            Some(v) => Some(v@),
            None => None,
        }) {
            Some(v) => r is Some && r->0@ == v,
            None => r is None,
        },
{
    match raw {
        Some(v) => if v.as_str().is_empty() || v.as_str().as_bytes().len() > MAX_RELAYED_VALUE_LEN {
            None
        } else {
            Some(v)
        },
        None => None,
    }
}

/// What one `/health` fetch established. Every field is independent, and
/// none means not learned.
#[derive(Debug, Default, PartialEq, Eq)]
pub struct HealthProbe {
    pub platform_version: Option<String>,
    pub license_tier: Option<String>,
    pub edition: Option<String>,
    pub deployment_mode: Option<String>,
}

/// Whether `field` is what the body relays at `key`.
pub open spec fn relays(field: Option<String>, body: Seq<u8>, key: Seq<char>) -> bool {
    match learned(json_text_member(body, key)) {
        Some(v) => field is Some && field->0@ == v,
        None => field is None,
    }
}

fn learned_member(body: &[u8], key: &str) -> (r: Option<String>)
    ensures
        relays(r, body@, key@),
{
    learned_value(text_member(body, key))
}

impl HealthProbe {
    /// Nothing learned.
    pub fn nothing() -> (p: Self)
        ensures
            p.platform_version is None,
            p.license_tier is None,
            p.edition is None,
            p.deployment_mode is None,
    {
        HealthProbe { platform_version: None, license_tier: None, edition: None, deployment_mode: None }
    }

    /// What a complete `/health` body establishes: `version`, `tier`,
    /// `edition` and `deployment_mode`, each learned on its own.
    pub fn from_body(body: &[u8]) -> (p: Self)
        ensures
            relays(p.platform_version, body@, "version"@),
            relays(p.license_tier, body@, "tier"@),
            relays(p.edition, body@, "edition"@),
            relays(p.deployment_mode, body@, "deployment_mode"@),
    {
        HealthProbe {
            platform_version: learned_member(body, "version"),
            license_tier: learned_member(body, "tier"),
            edition: learned_member(body, "edition"),
            deployment_mode: learned_member(body, "deployment_mode"),
        }
    }
}

// ---------------------------------------------------------------------------
// The payload
// ---------------------------------------------------------------------------

/// The telemetry wire payload.
#[derive(Debug, PartialEq, Eq)]
pub struct TelemetryPayload {
    pub telemetry_type: &'static str,
    pub sdk: &'static str,
    pub sdk_version: String,
    pub os: String,
    pub arch: String,
    pub runtime_version: String,
    pub deployment_mode: &'static str,
    pub endpoint_type: &'static str,
    pub features: Vec<String>,
    pub instance_id: String,
    pub stream: Option<&'static str>,
    pub org_id: String,
    pub platform_version: Option<String>,
    pub license_tier: Option<String>,
    pub edition: Option<String>,
    pub platform_deployment_mode: Option<String>,
}

/// What the machine and the build say about themselves.
#[derive(Debug, Clone, PartialEq, Eq)]
pub struct HostFacts {
    pub sdk_version: String,
    pub os: String,
    pub arch: String,
    pub runtime_version: String,
    pub instance_id: String,
}

/// The snapshot a ping describes, taken once.
#[derive(Debug, Clone, PartialEq, Eq)]
pub struct HeartbeatContext {
    pub endpoint: String,
    pub checkpoint_url: String,
    pub stream: Option<&'static str>,
    pub deployment_mode: &'static str,
    pub endpoint_type: &'static str,
    pub org_id: String,
}

impl HeartbeatContext {
    /// The snapshot for `endpoint` in `mode`: the checkpoint URL override or
    /// the default, the stream, the two classifications and the `org_id`.
    pub fn new(
        endpoint: &str,
        mode: &Mode,
        checkpoint_override: Option<&str>,
        deployment_mode: &'static str,
        endpoint_type: &'static str,
        org_id: Option<&str>,
    ) -> (c: Self)
        ensures
            c.endpoint@ == endpoint@,
            match checkpoint_override {
                Some(u) => c.checkpoint_url@ == u@,
                None => c.checkpoint_url@ == DEFAULT_CHECKPOINT_URL@,
            },
            match mode {
                Mode::Sandbox => c.stream == Some(STREAM_SANDBOX),
                Mode::Production => c.stream is None,
            },
            c.deployment_mode == deployment_mode,
            c.endpoint_type == endpoint_type,
            match org_id {
                Some(v) if v@.len() > 0 => c.org_id@ == v@,
                _ => c.org_id@ == ORG_ID_LOCAL_DEV_SENTINEL@,
            },
    {
        HeartbeatContext {
            endpoint: owned(endpoint),
            checkpoint_url: match checkpoint_override {
                Some(u) => owned(u),
                None => owned(DEFAULT_CHECKPOINT_URL),
            },
            stream: stream_for_mode(mode),
            deployment_mode,
            endpoint_type,
            org_id: org_id_for(org_id),
        }
    }

    /// The payload for one ping: this snapshot, what `/health` relayed, the
    /// host facts and the features array.
    pub fn payload(&self, probe: HealthProbe, host: HostFacts, features: Vec<String>) -> (p: TelemetryPayload)
        ensures
            p.telemetry_type@ == "sdk"@,
            p.sdk@ == "rust"@,
            p.sdk_version == host.sdk_version,
            p.os == host.os,
            p.arch == host.arch,
            p.runtime_version == host.runtime_version,
            p.deployment_mode == self.deployment_mode,
            p.endpoint_type == self.endpoint_type,
            p.features == features,
            p.instance_id == host.instance_id,
            p.stream == self.stream,
            p.org_id@ == self.org_id@,
            p.platform_version == probe.platform_version,
            p.license_tier == probe.license_tier,
            p.edition == probe.edition,
            p.platform_deployment_mode == probe.deployment_mode,
    {
        TelemetryPayload {
            telemetry_type: "sdk",
            sdk: "rust",
            sdk_version: host.sdk_version,
            os: host.os,
            arch: host.arch,
            runtime_version: host.runtime_version,
            deployment_mode: self.deployment_mode,
            endpoint_type: self.endpoint_type,
            features,
            instance_id: host.instance_id,
            stream: self.stream,
            org_id: self.org_id.clone(),
            platform_version: probe.platform_version,
            license_tier: probe.license_tier,
            edition: probe.edition,
            platform_deployment_mode: probe.deployment_mode,
        }
    }
}

} // verus!
