//! The hook log: one structured entry per evaluated event, kept as JSON
//! lines, and the statistics folded over them. The logger itself works on
//! plain text lines; reading and appending the log file is the caller's
//! business.

use vstd::prelude::*;

verus! {

use crate::events::ProjectLintEvent;
use crate::events::view_opt_str;
use crate::json::JsonV;
use crate::json::JsonValue;
use crate::json::json_text;
use crate::json::jv_get;
use crate::json::jv_get_str;
use crate::json::parsed_json;
use crate::numbers::spec_parse_u64;
use crate::numbers::spec_udec;
use crate::text::str_to_string;
use crate::text::view_strs;

/// One record of the hook log: a projection of an evaluated event and the
/// decision taken on it.
#[derive(Debug)]
pub struct HookLogEntry {
    pub timestamp: String,
    pub event_type: String,
    pub source: String,
    pub session_id: Option<String>,
    pub file_path: Option<String>,
    pub tool_name: Option<String>,
    pub command: Option<String>,
    pub decision: String,
    pub message: Option<String>,
    pub duration_ms: Option<u64>,
}

/// The mathematical form of a log record.
#[verifier::ext_equal]
pub struct EntryV {
    pub timestamp: Seq<char>,
    pub event_type: Seq<char>,
    pub source: Seq<char>,
    pub session_id: Option<Seq<char>>,
    pub file_path: Option<Seq<char>>,
    pub tool_name: Option<Seq<char>>,
    pub command: Option<Seq<char>>,
    pub decision: Seq<char>,
    pub message: Option<Seq<char>>,
    pub duration_ms: Option<u64>,
}

impl View for HookLogEntry {
    type V = EntryV;

    open spec fn view(&self) -> EntryV {
        EntryV {
            timestamp: self.timestamp@,
            event_type: self.event_type@,
            source: self.source@,
            session_id: view_opt_str(self.session_id),
            file_path: view_opt_str(self.file_path),
            tool_name: view_opt_str(self.tool_name),
            command: view_opt_str(self.command),
            decision: self.decision@,
            message: view_opt_str(self.message),
            duration_ms: self.duration_ms,
        }
    }
}

/// The mathematical forms of a sequence of log records.
pub open spec fn view_entries(a: Seq<HookLogEntry>) -> Seq<EntryV>
    decreases a,
{
    if a.len() == 0 {
        Seq::empty()
    } else {
        seq![a[0]@] + view_entries(a.skip(1))
    }
}

/// The form of a sequence of records, element by element.
pub proof fn lemma_view_entries(a: Seq<HookLogEntry>)
    ensures
        view_entries(a).len() == a.len(),
        forall|i: int| 0 <= i < a.len() ==> view_entries(a)[i] == a[i]@,
    decreases a.len(),
{
    if a.len() > 0 {
        lemma_view_entries(a.skip(1));
        assert forall|i: int| 0 <= i < a.len() implies view_entries(a)[i] == a[i]@ by {
            if i > 0 {
                assert(view_entries(a)[i] == view_entries(a.skip(1))[i - 1]);
                assert(a.skip(1)[i - 1] == a[i]);
            }
        }
    }
}

proof fn lemma_view_entries_push(a: Seq<HookLogEntry>, x: HookLogEntry)
    ensures
        view_entries(a.push(x)) == view_entries(a).push(x@),
    decreases a.len(),
{
    if a.len() == 0 {
        assert(a.push(x)[0] == x);
        assert(a.push(x).skip(1) =~= Seq::<HookLogEntry>::empty());
        assert(view_entries(Seq::<HookLogEntry>::empty()) == Seq::<EntryV>::empty());
        assert(view_entries(a) == Seq::<EntryV>::empty());
        assert(view_entries(a.push(x)) =~= view_entries(a).push(x@));
    } else {
        lemma_view_entries_push(a.skip(1), x);
        assert(a.push(x).skip(1) =~= a.skip(1).push(x));
        assert(a.push(x)[0] == a[0]);
        assert(view_entries(a.push(x)) =~= view_entries(a).push(x@));
    }
}

/// An optional string as a JSON value: the string, or null when absent.
pub open spec fn opt_str_json(s: Option<Seq<char>>) -> JsonV {
    match s {
        Some(x) => JsonV::Str(x),
        None => JsonV::Null,
    }
}

/// The JSON object form of one log record, its fields in a fixed order, an
/// absent optional field written as null.
pub open spec fn entry_json(e: EntryV) -> JsonV {
    JsonV::Obj(
        seq![
            ("timestamp"@, JsonV::Str(e.timestamp)),
            ("event_type"@, JsonV::Str(e.event_type)),
            ("source"@, JsonV::Str(e.source)),
            ("session_id"@, opt_str_json(e.session_id)),
            ("file_path"@, opt_str_json(e.file_path)),
            ("tool_name"@, opt_str_json(e.tool_name)),
            ("command"@, opt_str_json(e.command)),
            ("decision"@, JsonV::Str(e.decision)),
            ("message"@, opt_str_json(e.message)),
            (
                "duration_ms"@,
                match e.duration_ms {
                    Some(d) => JsonV::Num(spec_udec(d as nat)),
                    None => JsonV::Null,
                },
            ),
        ],
    )
}

/// The log-file line for one record: its JSON text and a line break.
pub open spec fn spec_log_line(e: EntryV) -> Seq<char> {
    json_text(entry_json(e)) + "\n"@
}

fn opt_to_json(s: &Option<String>) -> (r: JsonValue)
    ensures
        r@ == opt_str_json(view_opt_str(*s)),
{
    match s {
        Some(x) => JsonValue::Str(str_to_string(x.as_str())),
        None => JsonValue::Null,
    }
}

/// Prints one record as its log-file line, line break included.
pub fn entry_to_line(e: &HookLogEntry) -> (r: String)
    ensures
        r@ == spec_log_line(e@),
{
    let mut fields: Vec<(String, JsonValue)> = Vec::new();
    fields.push((str_to_string("timestamp"), JsonValue::Str(str_to_string(e.timestamp.as_str()))));
    fields.push((str_to_string("event_type"), JsonValue::Str(str_to_string(e.event_type.as_str()))));
    fields.push((str_to_string("source"), JsonValue::Str(str_to_string(e.source.as_str()))));
    fields.push((str_to_string("session_id"), opt_to_json(&e.session_id)));
    fields.push((str_to_string("file_path"), opt_to_json(&e.file_path)));
    fields.push((str_to_string("tool_name"), opt_to_json(&e.tool_name)));
    fields.push((str_to_string("command"), opt_to_json(&e.command)));
    fields.push((str_to_string("decision"), JsonValue::Str(str_to_string(e.decision.as_str()))));
    fields.push((str_to_string("message"), opt_to_json(&e.message)));
    let duration = match e.duration_ms {
        Some(d) => JsonValue::Num(crate::numbers::u64_to_dec(d)),
        None => JsonValue::Null,
    };
    fields.push((str_to_string("duration_ms"), duration));
    let ghost fv = fields@;
    proof {
        crate::json::lemma_jents_of(fv);
        assert(crate::json::jents_of(fv) =~= entry_json(e@)->Obj_0);
    }
    let obj = JsonValue::Obj(fields);
    assert(obj@ == entry_json(e@));
    let mut line = crate::json::to_json_string(&obj);
    crate::text::append_str(&mut line, "\n");
    line
}

/// The record a parsed log line names, when its required fields are present:
/// the four string fields must hold strings, the optional string fields may
/// be absent or null, and a present duration must be a plain decimal number.
pub open spec fn spec_parse_entry(v: JsonV) -> Option<EntryV> {
    if jv_get_str(v, "timestamp"@) is Some && jv_get_str(v, "event_type"@) is Some
        && jv_get_str(v, "source"@) is Some && jv_get_str(v, "decision"@) is Some {
        match jv_get(v, "duration_ms"@) {
            Some(JsonV::Num(s)) => match spec_parse_u64(s) {
                Some(d) => Some(spec_entry_fields(v, Some(d))),
                None => None,
            },
            Some(JsonV::Null) => Some(spec_entry_fields(v, None)),
            Some(_) => None,
            None => Some(spec_entry_fields(v, None)),
        }
    } else {
        None
    }
}

/// The fields of a parsed record, given its duration.
pub open spec fn spec_entry_fields(v: JsonV, duration_ms: Option<u64>) -> EntryV {
    EntryV {
        timestamp: jv_get_str(v, "timestamp"@)->Some_0,
        event_type: jv_get_str(v, "event_type"@)->Some_0,
        source: jv_get_str(v, "source"@)->Some_0,
        session_id: jv_get_str(v, "session_id"@),
        file_path: jv_get_str(v, "file_path"@),
        tool_name: jv_get_str(v, "tool_name"@),
        command: jv_get_str(v, "command"@),
        decision: jv_get_str(v, "decision"@)->Some_0,
        message: jv_get_str(v, "message"@),
        duration_ms,
    }
}

/// Reads one log line back into a record; text that is not JSON, or JSON
/// without the required fields, reads as nothing.
pub fn parse_log_line(line: &str) -> (r: Option<HookLogEntry>)
    ensures
        match r {
            Some(e) => parsed_json(line@) is Some && spec_parse_entry(
                parsed_json(line@)->Some_0,
            ) == Some(e@),
            None => parsed_json(line@) is None || spec_parse_entry(
                parsed_json(line@)->Some_0,
            ) is None,
        },
{
    let v = match crate::json::parse_json(line) {
        Some(v) => v,
        None => {
            return None;
        },
    };
    let timestamp = match v.get_str("timestamp") {
        Some(s) => s,
        None => {
            return None;
        },
    };
    let event_type = match v.get_str("event_type") {
        Some(s) => s,
        None => {
            return None;
        },
    };
    let source = match v.get_str("source") {
        Some(s) => s,
        None => {
            return None;
        },
    };
    let decision = match v.get_str("decision") {
        Some(s) => s,
        None => {
            return None;
        },
    };
    let duration_ms: Option<u64> = match v.get("duration_ms") {
        Some(JsonValue::Num(s)) => match crate::numbers::parse_u64(s.as_str()) {
            Some(d) => Some(d),
            None => {
                return None;
            },
        },
        Some(JsonValue::Null) => None,
        Some(_) => {
            return None;
        },
        None => None,
    };
    let e = HookLogEntry {
        timestamp,
        event_type,
        source,
        session_id: v.get_str("session_id"),
        file_path: v.get_str("file_path"),
        tool_name: v.get_str("tool_name"),
        command: v.get_str("command"),
        decision,
        message: v.get_str("message"),
        duration_ms,
    };
    assert(e@ =~= spec_parse_entry(v@)->Some_0);
    Some(e)
}

/// The records named by a sequence of lines, unparseable lines skipped.
pub open spec fn entries_of_lines(lines: Seq<Seq<char>>) -> Seq<EntryV>
    decreases lines,
{
    if lines.len() == 0 {
        Seq::empty()
    } else {
        (match parsed_json(lines[0]) {
            Some(v) => match spec_parse_entry(v) {
                Some(e) => seq![e],
                None => Seq::empty(),
            },
            None => Seq::empty(),
        }) + entries_of_lines(lines.skip(1))
    }
}

/// A count table: a value per name, in first-seen order.
pub open spec fn bump(s: Seq<(Seq<char>, int)>, k: Seq<char>) -> Seq<(Seq<char>, int)>
    decreases s.len(),
{
    if s.len() == 0 {
        seq![(k, 1int)]
    } else if s[0].0 == k {
        seq![(s[0].0, s[0].1 + 1)] + s.skip(1)
    } else {
        seq![s[0]] + bump(s.skip(1), k)
    }
}

/// The count under `k`, zero when the table has no row for it.
pub open spec fn count_of(s: Seq<(Seq<char>, int)>, k: Seq<char>) -> int
    decreases s.len(),
{
    if s.len() == 0 {
        0
    } else if s[0].0 == k {
        s[0].1
    } else {
        count_of(s.skip(1), k)
    }
}

/// The mathematical form of the folded statistics.
#[verifier::ext_equal]
pub struct StatsV {
    pub total_events: int,
    pub event_counts: Seq<(Seq<char>, int)>,
    pub source_counts: Seq<(Seq<char>, int)>,
    pub decision_counts: Seq<(Seq<char>, int)>,
    pub total_duration_ms: int,
    pub event_count_with_duration: int,
    pub min_duration_ms: int,
    pub max_duration_ms: int,
}

/// The statistics of an empty log.
pub open spec fn empty_stats() -> StatsV {
    StatsV {
        total_events: 0,
        event_counts: Seq::empty(),
        source_counts: Seq::empty(),
        decision_counts: Seq::empty(),
        total_duration_ms: 0,
        event_count_with_duration: 0,
        min_duration_ms: 0,
        max_duration_ms: 0,
    }
}

/// One record folded into the statistics: the totals and the per-name counts
/// grow; a recorded duration also feeds the sum, the count of timed events,
/// and the minimum and maximum over the recorded durations (both zero while
/// none was recorded, and a recorded duration of zero counts).
pub open spec fn stats_step(st: StatsV, e: EntryV) -> StatsV {
    let st1 = StatsV {
        total_events: st.total_events + 1,
        event_counts: bump(st.event_counts, e.event_type),
        source_counts: bump(st.source_counts, e.source),
        decision_counts: bump(st.decision_counts, e.decision),
        ..st
    };
    match e.duration_ms {
        None => st1,
        Some(d) => StatsV {
            total_duration_ms: st1.total_duration_ms + d,
            event_count_with_duration: st1.event_count_with_duration + 1,
            max_duration_ms: if d > st1.max_duration_ms {
                d as int
            } else {
                st1.max_duration_ms
            },
            min_duration_ms: if st1.event_count_with_duration == 0 || d
                < st1.min_duration_ms {
                d as int
            } else {
                st1.min_duration_ms
            },
            ..st1
        },
    }
}

/// The statistics after folding every record of `entries`, in order, onto
/// `st`.
pub open spec fn stats_from(st: StatsV, entries: Seq<EntryV>) -> StatsV
    decreases entries,
{
    if entries.len() == 0 {
        st
    } else {
        stats_from(stats_step(st, entries[0]), entries.skip(1))
    }
}

/// The statistics of a whole log.
pub open spec fn spec_stats(entries: Seq<EntryV>) -> StatsV {
    stats_from(empty_stats(), entries)
}

proof fn lemma_stats_from_snoc(st: StatsV, s: Seq<EntryV>, e: EntryV)
    ensures
        stats_from(st, s.push(e)) == stats_step(stats_from(st, s), e),
    decreases s.len(),
{
    if s.len() == 0 {
        assert(s.push(e)[0] == e);
        assert(s.push(e).skip(1) =~= Seq::<EntryV>::empty());
        assert(stats_from(st, s) == st);
        assert(stats_from(stats_step(st, e), Seq::<EntryV>::empty()) == stats_step(st, e));
        assert(stats_from(st, s.push(e)) == stats_from(
            stats_step(st, e),
            s.push(e).skip(1),
        ));
    } else {
        lemma_stats_from_snoc(stats_step(st, s[0]), s.skip(1), e);
        assert(s.push(e).skip(1) =~= s.skip(1).push(e));
        assert(s.push(e)[0] == s[0]);
        assert(stats_from(st, s) == stats_from(stats_step(st, s[0]), s.skip(1)));
        assert(stats_from(st, s.push(e)) == stats_from(
            stats_step(st, s[0]),
            s.skip(1).push(e),
        ));
    }
}

/// Whether every count of the table is at least one and at most `b`.
pub open spec fn counts_bounded(s: Seq<(Seq<char>, int)>, b: int) -> bool {
    forall|i: int| 0 <= i < s.len() ==> 1 <= #[trigger] s[i].1 <= b
}

proof fn lemma_bump_bounded(s: Seq<(Seq<char>, int)>, k: Seq<char>, b: int)
    requires
        counts_bounded(s, b),
        b >= 0,
    ensures
        counts_bounded(bump(s, k), b + 1),
        bump(s, k).len() <= s.len() + 1,
    decreases s.len(),
{
    if s.len() == 0 {
    } else if s[0].0 == k {
        assert forall|i: int| 0 <= i < bump(s, k).len() implies 1 <= #[trigger] bump(s, k)[i].1
            <= b + 1 by {
            if i > 0 {
                assert(bump(s, k)[i] == s[i]);
            }
        }
    } else {
        assert(counts_bounded(s.skip(1), b));
        lemma_bump_bounded(s.skip(1), k, b);
        assert forall|i: int| 0 <= i < bump(s, k).len() implies 1 <= #[trigger] bump(s, k)[i].1
            <= b + 1 by {
            if i > 0 {
                assert(bump(s, k)[i] == bump(s.skip(1), k)[i - 1]);
            }
        }
    }
}

/// Whether the statistics are within the bounds that `n` processed records
/// allow: every count at most `n`, and the duration sum at most `n` times the
/// largest single duration.
pub open spec fn stats_bounded(st: StatsV, n: int) -> bool {
    &&& st.total_events == n
    &&& counts_bounded(st.event_counts, n)
    &&& counts_bounded(st.source_counts, n)
    &&& counts_bounded(st.decision_counts, n)
    &&& 0 <= st.event_count_with_duration <= n
    &&& 0 <= st.total_duration_ms <= n * 0xffff_ffff_ffff_ffff
    &&& 0 <= st.min_duration_ms <= 0xffff_ffff_ffff_ffff
    &&& 0 <= st.max_duration_ms <= 0xffff_ffff_ffff_ffff
}

proof fn lemma_stats_step_bounded(st: StatsV, e: EntryV, n: int)
    requires
        stats_bounded(st, n),
        n >= 0,
    ensures
        stats_bounded(stats_step(st, e), n + 1),
{
    lemma_bump_bounded(st.event_counts, e.event_type, n);
    lemma_bump_bounded(st.source_counts, e.source, n);
    lemma_bump_bounded(st.decision_counts, e.decision, n);
    let m: int = 0xffff_ffff_ffff_ffff;
    assert(n * m + m == (n + 1) * m) by (nonlinear_arith);
    assert((n + 1) * m >= n * m) by (nonlinear_arith)
        requires
            n >= 0,
            m >= 0,
    ;
}

/// The statistics of a day's hook log.
#[derive(Debug)]
pub struct HookStats {
    pub total_events: u64,
    pub event_counts: Vec<(String, u64)>,
    pub source_counts: Vec<(String, u64)>,
    pub decision_counts: Vec<(String, u64)>,
    pub total_duration_ms: u128,
    pub event_count_with_duration: u64,
    pub min_duration_ms: u64,
    pub max_duration_ms: u64,
}

/// The count-table form of a vector of name-count rows.
pub open spec fn view_counts(a: Seq<(String, u64)>) -> Seq<(Seq<char>, int)>
    decreases a,
{
    if a.len() == 0 {
        Seq::empty()
    } else {
        seq![(a[0].0@, a[0].1 as int)] + view_counts(a.skip(1))
    }
}

proof fn lemma_view_counts(a: Seq<(String, u64)>)
    ensures
        view_counts(a).len() == a.len(),
        forall|i: int| 0 <= i < a.len() ==> view_counts(a)[i] == (a[i].0@, a[i].1 as int),
    decreases a.len(),
{
    if a.len() > 0 {
        lemma_view_counts(a.skip(1));
        assert forall|i: int| 0 <= i < a.len() implies view_counts(a)[i] == (
            a[i].0@,
            a[i].1 as int,
        ) by {
            if i > 0 {
                assert(view_counts(a)[i] == view_counts(a.skip(1))[i - 1]);
                assert(a.skip(1)[i - 1] == a[i]);
            }
        }
    }
}

/// The mathematical form of the statistics.
#[verifier::ext_equal]
pub struct HookStatsV {
    pub v: StatsV,
}

impl View for HookStats {
    type V = StatsV;

    open spec fn view(&self) -> StatsV {
        StatsV {
            total_events: self.total_events as int,
            event_counts: view_counts(self.event_counts@),
            source_counts: view_counts(self.source_counts@),
            decision_counts: view_counts(self.decision_counts@),
            total_duration_ms: self.total_duration_ms as int,
            event_count_with_duration: self.event_count_with_duration as int,
            min_duration_ms: self.min_duration_ms as int,
            max_duration_ms: self.max_duration_ms as int,
        }
    }
}

impl HookStats {
    /// The count recorded for an event-type name; zero when none is.
    pub fn event_count(&self, key: &str) -> (r: u64)
        ensures
            r as int == count_of(self@.event_counts, key@),
    {
        lookup_count(&self.event_counts, key)
    }

    /// The count recorded for a source name; zero when none is.
    pub fn source_count(&self, key: &str) -> (r: u64)
        ensures
            r as int == count_of(self@.source_counts, key@),
    {
        lookup_count(&self.source_counts, key)
    }

    /// The count recorded for a decision name; zero when none is.
    pub fn decision_count(&self, key: &str) -> (r: u64)
        ensures
            r as int == count_of(self@.decision_counts, key@),
    {
        lookup_count(&self.decision_counts, key)
    }
}

fn lookup_count(v: &Vec<(String, u64)>, key: &str) -> (r: u64)
    ensures
        r as int == count_of(view_counts(v@), key@),
{
    let ghost cv = view_counts(v@);
    proof {
        lemma_view_counts(v@);
    }
    let mut i: usize = 0;
    while i < v.len()
        invariant
            i <= v@.len(),
            cv == view_counts(v@),
            cv.len() == v@.len(),
            forall|j: int| 0 <= j < v@.len() ==> cv[j] == (v@[j].0@, v@[j].1 as int),
            forall|j: int| 0 <= j < i ==> cv[j].0 != key@,
        decreases v.len() - i,
    {
        if crate::text::str_eq(v[i].0.as_str(), key) {
            proof {
                lemma_count_of_skip(cv, key@, i as int);
                assert(cv.skip(i as int)[0] == cv[i as int]);
            }
            return v[i].1;
        }
        i = i + 1;
    }
    proof {
        lemma_count_of_skip(cv, key@, i as int);
        assert(cv.skip(i as int) =~= Seq::<(Seq<char>, int)>::empty());
    }
    0
}

proof fn lemma_count_of_skip(s: Seq<(Seq<char>, int)>, k: Seq<char>, i: int)
    requires
        0 <= i <= s.len(),
        forall|j: int| 0 <= j < i ==> s[j].0 != k,
    ensures
        count_of(s, k) == count_of(s.skip(i), k),
    decreases i,
{
    if i == 0 {
        assert(s.skip(0) =~= s);
    } else {
        lemma_count_of_skip(s.skip(1), k, i - 1);
        assert(s.skip(1).skip(i - 1) =~= s.skip(i));
    }
}

fn bump_count(v: &mut Vec<(String, u64)>, key: &str, Ghost(b): Ghost<int>)
    requires
        counts_bounded(view_counts(old(v)@), b),
        0 <= b < 0xffff_ffff_ffff_ffff,
    ensures
        view_counts(final(v)@) == bump(view_counts(old(v)@), key@),
{
    let ghost cv = view_counts(v@);
    proof {
        lemma_view_counts(v@);
    }
    let mut i: usize = 0;
    while i < v.len()
        invariant
            i <= v@.len(),
            v@ == old(v)@,
            cv == view_counts(v@),
            cv.len() == v@.len(),
            counts_bounded(cv, b),
            0 <= b < 0xffff_ffff_ffff_ffff,
            forall|j: int| 0 <= j < v@.len() ==> cv[j] == (v@[j].0@, v@[j].1 as int),
            forall|j: int| 0 <= j < i ==> cv[j].0 != key@,
        decreases v.len() - i,
    {
        if crate::text::str_eq(v[i].0.as_str(), key) {
            proof {
                lemma_bump_at(cv, key@, i as int);
            }
            let n = v[i].1;
            assert(n < 0xffff_ffff_ffff_ffffu64);
            let name = crate::text::str_to_string(v[i].0.as_str());
            v.set(i, (name, n + 1));
            proof {
                lemma_view_counts(v@);
                assert(view_counts(v@) =~= cv.update(i as int, (key@, n + 1 as int)));
                assert(view_counts(v@) =~= bump(cv, key@));
            }
            return;
        }
        i = i + 1;
    }
    v.push((crate::text::str_to_string(key), 1));
    proof {
        lemma_view_counts(v@);
        lemma_bump_absent(cv, key@);
        assert(view_counts(v@) =~= cv.push((key@, 1int)));
        assert(view_counts(v@) =~= bump(cv, key@));
    }
}

proof fn lemma_bump_at(s: Seq<(Seq<char>, int)>, k: Seq<char>, i: int)
    requires
        0 <= i < s.len(),
        s[i].0 == k,
        forall|j: int| 0 <= j < i ==> s[j].0 != k,
    ensures
        bump(s, k) =~= s.update(i, (k, s[i].1 + 1)),
    decreases i,
{
    if i == 0 {
        assert(seq![(s[0].0, s[0].1 + 1)] + s.skip(1) =~= s.update(0, (k, s[0].1 + 1)));
    } else {
        lemma_bump_at(s.skip(1), k, i - 1);
        assert(s.skip(1).update(i - 1, (k, s[i].1 + 1)) =~= s.update(
            i,
            (k, s[i].1 + 1),
        ).skip(1));
        assert(seq![s[0]] + bump(s.skip(1), k) =~= s.update(i, (k, s[i].1 + 1)));
    }
}

proof fn lemma_bump_absent(s: Seq<(Seq<char>, int)>, k: Seq<char>)
    requires
        forall|j: int| 0 <= j < s.len() ==> s[j].0 != k,
    ensures
        bump(s, k) =~= s.push((k, 1int)),
    decreases s.len(),
{
    if s.len() > 0 {
        lemma_bump_absent(s.skip(1), k);
        assert(seq![s[0]] + s.skip(1).push((k, 1int)) =~= s.push((k, 1int)));
    }
}

/// A day's hook log, held as its parsed records. The caller reads the day's
/// file into lines and appends the lines this logger hands back; the logger
/// itself never touches a file.
#[derive(Debug)]
pub struct HookLogger {
    pub entries: Vec<HookLogEntry>,
}

impl HookLogger {
    /// A logger over an empty log.
    pub fn new() -> (r: HookLogger)
        ensures
            view_entries(r.entries@) == Seq::<EntryV>::empty(),
    {
        let r = HookLogger { entries: Vec::new() };
        assert(view_entries(r.entries@) =~= Seq::<EntryV>::empty());
        r
    }

    /// A logger over the records of the given log lines, unparseable lines
    /// skipped.
    pub fn from_lines(lines: &Vec<String>) -> (r: HookLogger)
        ensures
            view_entries(r.entries@) == entries_of_lines(view_strs(lines@)),
    {
        let ghost lv = view_strs(lines@);
        proof {
            crate::text::lemma_view_strs(lines@);
        }
        let mut entries: Vec<HookLogEntry> = Vec::new();
        let mut i: usize = 0;
        assert(lv.skip(0) =~= lv);
        assert(view_entries(entries@) =~= Seq::<EntryV>::empty());
        while i < lines.len()
            invariant
                i <= lines@.len(),
                lv == view_strs(lines@),
                lv.len() == lines@.len(),
                forall|j: int| 0 <= j < lv.len() ==> lv[j] == lines@[j]@,
                view_entries(entries@) + entries_of_lines(lv.skip(i as int))
                    == entries_of_lines(lv),
            decreases lines.len() - i,
        {
            assert(lv.skip(i as int)[0] == lv[i as int]);
            assert(lv.skip(i as int).skip(1) =~= lv.skip(i + 1));
            let ghost pre = entries@;
            if let Some(e) = parse_log_line(lines[i].as_str()) {
                proof {
                    lemma_view_entries_push(pre, e);
                }
                entries.push(e);
            }
            proof {
                assert(view_entries(entries@) + entries_of_lines(lv.skip(i + 1))
                    =~= view_entries(pre) + entries_of_lines(lv.skip(i as int)));
            }
            i = i + 1;
        }
        assert(lv.skip(lines@.len() as int) =~= Seq::<Seq<char>>::empty());
        assert(view_entries(entries@) =~= entries_of_lines(lv));
        HookLogger { entries }
    }

    /// The projection of one evaluated event onto a log record: the event's
    /// kind under its log label, as the log file has always carried it.
    pub open spec fn spec_entry_of(
        ev: crate::events::EventV,
        decision: Seq<char>,
        message: Option<Seq<char>>,
        duration_ms: Option<u64>,
        timestamp: Seq<char>,
    ) -> EntryV {
        EntryV {
            timestamp,
            event_type: crate::events::spec_type_label(ev.event_type),
            source: ev.context.ide_source,
            session_id: ev.session_id,
            file_path: ev.context.file_path,
            tool_name: ev.context.tool_name,
            command: ev.context.command,
            decision,
            message,
            duration_ms,
        }
    }

    /// Appends one evaluated event to the log, under the given timestamp, and
    /// hands back the line the caller must append to the day's file.
    pub fn log_event(
        &mut self,
        event: &ProjectLintEvent,
        decision: &str,
        message: Option<&str>,
        duration_ms: Option<u64>,
        timestamp: &str,
    ) -> (line: String)
        ensures
            view_entries(final(self).entries@) == view_entries(old(self).entries@).push(
                HookLogger::spec_entry_of(
                    event@,
                    decision@,
                    match message {
                        Some(m) => Some(m@),
                        None => None,
                    },
                    duration_ms,
                    timestamp@,
                ),
            ),
            line@ == spec_log_line(
                HookLogger::spec_entry_of(
                    event@,
                    decision@,
                    match message {
                        Some(m) => Some(m@),
                        None => None,
                    },
                    duration_ms,
                    timestamp@,
                ),
            ),
    {
        let entry = HookLogEntry {
            timestamp: str_to_string(timestamp),
            event_type: event.event_type.label(),
            source: str_to_string(event.context.ide_source.as_str()),
            session_id: clone_opt(&event.session_id),
            file_path: clone_opt(&event.context.file_path),
            tool_name: clone_opt(&event.context.tool_name),
            command: clone_opt(&event.context.command),
            decision: str_to_string(decision),
            message: match message {
                Some(m) => Some(str_to_string(m)),
                None => None,
            },
            duration_ms,
        };
        let line = entry_to_line(&entry);
        let ghost pre = self.entries@;
        proof {
            lemma_view_entries_push(pre, entry);
        }
        self.entries.push(entry);
        line
    }

    /// The last `limit` records of the log (all of them when no limit is
    /// given), oldest first.
    pub fn get_recent_logs(&self, limit: Option<usize>) -> (r: Vec<HookLogEntry>)
        ensures
            ({
                let all = view_entries(self.entries@);
                match limit {
                    Some(l) => view_entries(r@) == all.skip(
                        if all.len() >= l {
                            all.len() - l
                        } else {
                            0
                        },
                    ),
                    None => view_entries(r@) == all,
                }
            }),
    {
        let ghost all = view_entries(self.entries@);
        proof {
            lemma_view_entries(self.entries@);
        }
        let start: usize = match limit {
            Some(l) => if self.entries.len() > l {
                self.entries.len() - l
            } else {
                0
            },
            None => 0,
        };
        let mut out: Vec<HookLogEntry> = Vec::new();
        let mut i: usize = start;
        while i < self.entries.len()
            invariant
                start <= i <= self.entries@.len(),
                all == view_entries(self.entries@),
                all.len() == self.entries@.len(),
                forall|j: int| 0 <= j < all.len() ==> all[j] == self.entries@[j]@,
                out@.len() == i - start,
                forall|j: int| 0 <= j < out@.len() ==> out@[j]@ == all[start + j],
            decreases self.entries.len() - i,
        {
            out.push(clone_entry(&self.entries[i]));
            i = i + 1;
        }
        proof {
            lemma_view_entries(out@);
            assert(view_entries(out@) =~= all.skip(start as int));
        }
        out
    }

    /// The statistics folded over every record of the log, oldest first:
    /// totals, per-name counts, and the sum, count, minimum and maximum of
    /// the recorded durations.
    pub fn get_stats(&self) -> (r: HookStats)
        ensures
            r@ == spec_stats(view_entries(self.entries@)),
    {
        let ghost all = view_entries(self.entries@);
        proof {
            lemma_view_entries(self.entries@);
        }
        let mut stats = HookStats {
            total_events: 0,
            event_counts: Vec::new(),
            source_counts: Vec::new(),
            decision_counts: Vec::new(),
            total_duration_ms: 0,
            event_count_with_duration: 0,
            min_duration_ms: 0,
            max_duration_ms: 0,
        };
        proof {
            assert(view_counts(stats.event_counts@) =~= Seq::<(Seq<char>, int)>::empty());
            assert(view_counts(stats.source_counts@) =~= Seq::<(Seq<char>, int)>::empty());
            assert(view_counts(stats.decision_counts@) =~= Seq::<(Seq<char>, int)>::empty());
            assert(all.take(0) =~= Seq::<EntryV>::empty());
            assert(stats@ =~= empty_stats());
        }
        let mut i: usize = 0;
        while i < self.entries.len()
            invariant
                i <= self.entries@.len(),
                all == view_entries(self.entries@),
                all.len() == self.entries@.len(),
                forall|j: int| 0 <= j < all.len() ==> all[j] == self.entries@[j]@,
                stats@ == spec_stats(all.take(i as int)),
                stats_bounded(stats@, i as int),
            decreases self.entries.len() - i,
        {
            let ghost prefix = all.take(i as int);
            proof {
                assert(prefix.push(all[i as int]) =~= all.take(i + 1));
                lemma_stats_from_snoc(empty_stats(), prefix, all[i as int]);
                lemma_stats_step_bounded(stats@, all[i as int], i as int);
            }
            let e = &self.entries[i];
            assert(stats.total_events < 0xffff_ffff_ffff_ffffu64);
            stats.total_events = stats.total_events + 1;
            bump_count(&mut stats.event_counts, e.event_type.as_str(), Ghost(i as int));
            bump_count(&mut stats.source_counts, e.source.as_str(), Ghost(i as int));
            bump_count(&mut stats.decision_counts, e.decision.as_str(), Ghost(i as int));
            if let Some(d) = e.duration_ms {
                let had_none = stats.event_count_with_duration == 0;
                proof {
                    let m: int = 0xffff_ffff_ffff_ffff;
                    assert(i + 1 <= self.entries@.len());
                    assert(0 <= i as int + 1 <= m);
                    assert(stats@.total_duration_ms + d <= (i as int) * m + m);
                    assert((i as int) * m + m == (i as int + 1) * m) by (nonlinear_arith);
                    assert((i as int + 1) * m <= m * m) by (nonlinear_arith)
                        requires
                            0 <= i as int + 1 <= m,
                    ;
                    assert(0xffff_ffff_ffff_ffffint * 0xffff_ffff_ffff_ffffint
                        < u128::MAX as int) by (nonlinear_arith);
                    assert(m * m < u128::MAX as int);
                }
                stats.total_duration_ms = stats.total_duration_ms + (d as u128);
                assert(stats.event_count_with_duration < 0xffff_ffff_ffff_ffffu64);
                stats.event_count_with_duration = stats.event_count_with_duration + 1;
                if d > stats.max_duration_ms {
                    stats.max_duration_ms = d;
                }
                if had_none || d < stats.min_duration_ms {
                    stats.min_duration_ms = d;
                }
            }
            i = i + 1;
            proof {
                assert(stats@ =~= stats_step(spec_stats(prefix), all[i - 1]));
            }
        }
        proof {
            assert(all.take(self.entries@.len() as int) =~= all);
        }
        stats
    }
}

fn clone_opt(s: &Option<String>) -> (r: Option<String>)
    ensures
        view_opt_str(r) == view_opt_str(*s),
{
    match s {
        Some(x) => Some(str_to_string(x.as_str())),
        None => None,
    }
}

fn clone_entry(e: &HookLogEntry) -> (r: HookLogEntry)
    ensures
        r@ == e@,
{
    let r = HookLogEntry {
        timestamp: str_to_string(e.timestamp.as_str()),
        event_type: str_to_string(e.event_type.as_str()),
        source: str_to_string(e.source.as_str()),
        session_id: clone_opt(&e.session_id),
        file_path: clone_opt(&e.file_path),
        tool_name: clone_opt(&e.tool_name),
        command: clone_opt(&e.command),
        decision: str_to_string(e.decision.as_str()),
        message: clone_opt(&e.message),
        duration_ms: e.duration_ms,
    };
    assert(r@ =~= e@);
    r
}

/// The name of the day's log file, for the given date text: the hook log of
/// one calendar day lives in `hook-log-{date}.jsonl`.
pub fn log_file_name(date: &str) -> (r: String)
    ensures
        r@ == "hook-log-"@ + date@ + ".jsonl"@,
{
    let mut s = str_to_string("hook-log-");
    crate::text::append_str(&mut s, date);
    crate::text::append_str(&mut s, ".jsonl");
    s
}

/// Reading back a written record gives the record: the JSON object a record
/// is written as parses to the same record, for every duration the reader's
/// nineteen-digit window covers.
pub proof fn lemma_entry_round_trip(e: EntryV)
    requires
        match e.duration_ms {
            Some(d) => d < 10000000000000000000,
            None => true,
        },
    ensures
        spec_parse_entry(entry_json(e)) == Some(e),
{
    reveal_strlit("timestamp");
    reveal_strlit("event_type");
    reveal_strlit("source");
    reveal_strlit("session_id");
    reveal_strlit("file_path");
    reveal_strlit("tool_name");
    reveal_strlit("command");
    reveal_strlit("decision");
    reveal_strlit("message");
    reveal_strlit("duration_ms");
    assert("timestamp"@.len() == 9);
    assert("event_type"@.len() == 10);
    assert("source"@.len() == 6);
    assert("session_id"@.len() == 10);
    assert("file_path"@.len() == 9);
    assert("tool_name"@.len() == 9);
    assert("command"@.len() == 7);
    assert("decision"@.len() == 8);
    assert("message"@.len() == 7);
    assert("duration_ms"@.len() == 11);
    assert("session_id"@[0] == 's' && "event_type"@[0] == 'e');
    assert("file_path"@[0] == 'f' && "timestamp"@[0] == 't' && "tool_name"@[0] == 't');
    assert("tool_name"@[1] == 'o' && "timestamp"@[1] == 'i');
    assert("message"@[0] == 'm' && "command"@[0] == 'c');
    let v = entry_json(e);
    let o = v->Obj_0;
    assert(jv_get_str(v, "timestamp"@) == Some(e.timestamp));
    assert(jv_get_str(v, "event_type"@) == Some(e.event_type)) by {
        lemma_lookup_steps(o, "event_type"@, 1);
    }
    assert(jv_get_str(v, "source"@) == Some(e.source)) by {
        lemma_lookup_steps(o, "source"@, 2);
    }
    assert(jv_get(v, "session_id"@) == Some(opt_str_json(e.session_id))) by {
        lemma_lookup_steps(o, "session_id"@, 3);
    }
    assert(jv_get(v, "file_path"@) == Some(opt_str_json(e.file_path))) by {
        lemma_lookup_steps(o, "file_path"@, 4);
    }
    assert(jv_get(v, "tool_name"@) == Some(opt_str_json(e.tool_name))) by {
        lemma_lookup_steps(o, "tool_name"@, 5);
    }
    assert(jv_get(v, "command"@) == Some(opt_str_json(e.command))) by {
        lemma_lookup_steps(o, "command"@, 6);
    }
    assert(jv_get_str(v, "decision"@) == Some(e.decision)) by {
        lemma_lookup_steps(o, "decision"@, 7);
    }
    assert(jv_get(v, "message"@) == Some(opt_str_json(e.message))) by {
        lemma_lookup_steps(o, "message"@, 8);
    }
    assert(jv_get(v, "duration_ms"@) == Some(o[9].1)) by {
        lemma_lookup_steps(o, "duration_ms"@, 9);
    }
    match e.duration_ms {
        Some(d) => {
            crate::numbers::lemma_dec_round_trip(d);
            assert(spec_parse_entry(v) == Some(spec_entry_fields(v, Some(d))));
        },
        None => {
            assert(spec_parse_entry(v) == Some(spec_entry_fields(v, None)));
        },
    }
    match e.session_id {
        Some(s) => {
            assert(jv_get_str(v, "session_id"@) == Some(s));
        },
        None => {
            assert(jv_get_str(v, "session_id"@) is None);
        },
    }
    match e.file_path {
        Some(s) => {
            assert(jv_get_str(v, "file_path"@) == Some(s));
        },
        None => {
            assert(jv_get_str(v, "file_path"@) is None);
        },
    }
    match e.tool_name {
        Some(s) => {
            assert(jv_get_str(v, "tool_name"@) == Some(s));
        },
        None => {
            assert(jv_get_str(v, "tool_name"@) is None);
        },
    }
    match e.command {
        Some(s) => {
            assert(jv_get_str(v, "command"@) == Some(s));
        },
        None => {
            assert(jv_get_str(v, "command"@) is None);
        },
    }
    match e.message {
        Some(s) => {
            assert(jv_get_str(v, "message"@) == Some(s));
        },
        None => {
            assert(jv_get_str(v, "message"@) is None);
        },
    }
    assert(spec_parse_entry(v)->Some_0 =~= e);
}

/// Looking a key up in an object whose first `i` keys all differ from it
/// reaches position `i`, where the key sits.
proof fn lemma_lookup_steps(o: Seq<(Seq<char>, JsonV)>, key: Seq<char>, i: int)
    requires
        0 <= i < o.len(),
        o[i].0 == key,
        forall|j: int| 0 <= j < i ==> o[j].0 != key,
    ensures
        crate::json::obj_lookup(o, key) == Some(o[i].1),
    decreases i,
{
    if i == 0 {
    } else {
        lemma_lookup_steps(o.skip(1), key, i - 1);
        assert(o.skip(1)[i - 1] == o[i]);
    }
}

/// Reading the statistics changes nothing and depends on nothing but the
/// logged records: two reads of the same log see the same statistics.
pub proof fn lemma_stats_idempotent(entries: Seq<EntryV>, s1: StatsV, s2: StatsV)
    requires
        s1 == spec_stats(entries),
        s2 == spec_stats(entries),
    ensures
        s1 == s2,
{
}

} // verus!
