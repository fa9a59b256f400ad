//! Decisions of the chat completion endpoint: the caller's key, the order in
//! which targets are tried, token counts, and the rows that are stored.

use vstd::prelude::*;

use crate::api::json_text::{assistant_message_json, assistant_message_text};
use crate::api::stamp::{is_utc_rfc3339, is_uuid_v4_text, new_record_id, utc_timestamp};
use crate::router::RouteError;
use crate::text::starts_with;

verus! {

/// The API key a request presents: the `authorization` header's value without
/// a leading `Bearer `, or the whole value when it has none; no header is an
/// empty key.
pub open spec fn presented_key(authorization: Option<Seq<char>>) -> Seq<char> {
    let h = match authorization {
        Some(v) => v,
        None => Seq::empty(),
    };
    if "Bearer "@.is_prefix_of(h) {
        h.skip(7)
    } else {
        h
    }
}

/// Auth: extract the Bearer token from the `authorization` header value.
pub fn api_key_from_header<'a>(authorization: Option<&'a str>) -> (r: &'a str)
    ensures
        r@ == presented_key(
            match authorization {
                Some(v) => Some(v@),
                None => None,
            },
        ),
        authorization matches Some(v) ==> ("Bearer "@.is_prefix_of(v@) ==> "Bearer "@ + r@ == v@),
        authorization matches Some(v) ==> (!"Bearer "@.is_prefix_of(v@) ==> r@ == v@),
        authorization is None ==> r@.len() == 0,
{
    proof {
        reveal_strlit("Bearer ");
        reveal_strlit("");
    }
    let h: &'a str = match authorization {
        Some(v) => v,
        None => "",
    };
    if starts_with(h, "Bearer ") {
        let n = h.unicode_len();
        let k = h.substring_char(7, n);
        assert("Bearer "@ + k@ =~= h@);
        k
    } else {
        h
    }
}

/// The error when no target is left to try and none failed.
pub open spec fn no_target_message() -> Seq<char> {
    "No routing target available"@
}

/// `NoRoute` with the message for an empty target list.
pub fn no_target_available() -> (r: RouteError)
    ensures
        match r {
            RouteError::NoRoute(m) => m@ == no_target_message(),
        },
{
    RouteError::NoRoute(String::from_str("No routing target available"))
}

/// Where the failover loop over the resolved targets stands: `next` targets
/// have been tried and failed, out of `total`.
pub struct FailoverState {
    pub next: usize,
    pub total: usize,
}

/// What to do next.
pub enum FailoverStep {
    /// Send the request to target `index`; `was_fallback` records that an
    /// earlier target failed.
    Attempt { index: usize, was_fallback: bool },
    /// Every target was tried: answer with the last target's error when
    /// `tried_any`, else with `no_target_available`.
    Exhausted { tried_any: bool },
}

/// The step the loop takes in state `s`.
pub open spec fn failover_step(s: FailoverState) -> FailoverStep {
    if s.next < s.total {
        FailoverStep::Attempt { index: s.next, was_fallback: s.next > 0 }
    } else {
        FailoverStep::Exhausted { tried_any: s.next > 0 }
    }
}

/// The state after the target in state `s` failed.
pub open spec fn after_failure(s: FailoverState) -> FailoverState {
    FailoverState { next: (s.next + 1) as usize, total: s.total }
}

/// The state after `k` failures over `total` targets.
pub open spec fn after_failures(total: usize, k: nat) -> FailoverState
    decreases k,
{
    if k == 0 {
        FailoverState { next: 0, total }
    } else {
        after_failure(after_failures(total, (k - 1) as nat))
    }
}

impl FailoverState {
    /// Nothing tried yet.
    pub fn new(total: usize) -> (r: Self)
        ensures
            r == after_failures(total, 0),
    {
        FailoverState { next: 0, total }
    }

    /// The next step.
    pub fn step(&self) -> (r: FailoverStep)
        ensures
            r == failover_step(*self),
    {
        if self.next < self.total {
            FailoverStep::Attempt { index: self.next, was_fallback: self.next > 0 }
        } else {
            FailoverStep::Exhausted { tried_any: self.next > 0 }
        }
    }

    /// The attempted target failed: move to the next one.
    pub fn record_failure(&mut self)
        requires
            old(self).next < old(self).total,
        ensures
            *final(self) == after_failure(*old(self)),
    {
        self.next = self.next + 1;
    }
}

/// How a failover over the targets ended when none answered.
pub enum FailoverError<E> {
    /// The last target that was tried failed with this error.
    Failed(E),
    /// There was no target to try.
    NoRoute(RouteError),
}

/// The error that answers a failover that ran out of targets: the last
/// target's error, or `NoRoute` when no target was tried.
pub fn exhausted_error<E>(last_error: Option<E>) -> (r: FailoverError<E>)
    ensures
        match last_error {
            Some(e) => r == FailoverError::Failed(e),
            None => r matches FailoverError::NoRoute(RouteError::NoRoute(m)) && m@ == no_target_message(),
        },
{
    match last_error {
        Some(e) => FailoverError::Failed(e),
        None => FailoverError::NoRoute(no_target_available()),
    }
}

/// Token counts a provider reports.
#[derive(Clone, Copy)]
pub struct TokenUsage {
    pub prompt_tokens: u32,
    pub completion_tokens: u32,
}

/// Prompt and completion tokens as stored: the reported counts converted to
/// `i32` as Rust's `as` converts, or zero when nothing was reported.
pub open spec fn stored_counts(usage: Option<TokenUsage>) -> (i32, i32) {
    match usage {
        Some(u) => (u.prompt_tokens as i32, u.completion_tokens as i32),
        None => (0, 0),
    }
}

/// Token counts of a completed response for the usage log.
pub fn usage_counts(usage: Option<TokenUsage>) -> (r: (i32, i32))
    ensures
        r == stored_counts(usage),
{
    match usage {
        Some(u) => (u.prompt_tokens as i32, u.completion_tokens as i32),
        None => (0, 0),
    }
}

/// Whether `x + y` fits in an `i32`.
pub open spec fn sum_fits_i32(x: i32, y: i32) -> bool {
    i32::MIN <= x + y <= i32::MAX
}

/// A row of the usage log.
pub struct UsageLogRow {
    pub id: String,
    pub key_id: Option<String>,
    pub provider_id: Option<String>,
    pub request_model: String,
    pub model_id: String,
    pub prompt_tokens: i32,
    pub completion_tokens: i32,
    pub total_tokens: i32,
    pub latency_ms: i32,
    pub status_code: i32,
    pub created_at: String,
}

/// The usage row records a successful request of `key_id` for
/// `request_model`, served by `model`, with these counts.
pub open spec fn usage_row_records(
    row: UsageLogRow,
    key_id: Seq<char>,
    request_model: Seq<char>,
    model: Seq<char>,
    prompt_tokens: i32,
    completion_tokens: i32,
    latency_ms: i32,
) -> bool {
    &&& row.key_id matches Some(k) && k@ == key_id
    &&& row.provider_id is None
    &&& row.request_model@ == request_model
    &&& row.model_id@ == model
    &&& row.prompt_tokens == prompt_tokens
    &&& row.completion_tokens == completion_tokens
    &&& row.total_tokens == prompt_tokens + completion_tokens
    &&& row.latency_ms == latency_ms
    &&& row.status_code == 200
}

/// The usage row with the given id and creation time.
pub fn usage_log_row(
    id: String,
    created_at: String,
    key_id: &str,
    request_model: &str,
    model: &str,
    prompt_tokens: i32,
    completion_tokens: i32,
    latency_ms: i32,
) -> (r: UsageLogRow)
    requires
        sum_fits_i32(prompt_tokens, completion_tokens),
    ensures
        usage_row_records(r, key_id@, request_model@, model@, prompt_tokens, completion_tokens, latency_ms),
        r.id == id,
        r.created_at == created_at,
{
    UsageLogRow {
        id,
        key_id: Some(String::from_str(key_id)),
        provider_id: None,
        request_model: String::from_str(request_model),
        model_id: String::from_str(model),
        prompt_tokens,
        completion_tokens,
        total_tokens: prompt_tokens + completion_tokens,
        latency_ms,
        status_code: 200,
        created_at,
    }
}

/// The usage row for a record id and a timestamp that may be missing: a row
/// exactly when both are there, for every token count.
pub fn usage_log_from_stamps(
    id: Option<String>,
    created_at: Option<String>,
    key_id: &str,
    request_model: &str,
    model: &str,
    prompt_tokens: i32,
    completion_tokens: i32,
    latency_ms: i32,
) -> (r: Option<UsageLogRow>)
    requires
        sum_fits_i32(prompt_tokens, completion_tokens),
    ensures
        r is Some <==> (id is Some && created_at is Some),
        r matches Some(row) ==> usage_row_records(
            row,
            key_id@,
            request_model@,
            model@,
            prompt_tokens,
            completion_tokens,
            latency_ms,
        ) && row.id == id->0 && row.created_at == created_at->0,
{
    match (id, created_at) {
        (Some(id), Some(created_at)) => Some(
            usage_log_row(id, created_at, key_id, request_model, model, prompt_tokens, completion_tokens, latency_ms),
        ),
        _ => None,
    }
}

/// A usage row with a fresh id, stamped now.
pub fn new_usage_log(
    key_id: &str,
    request_model: &str,
    model: &str,
    prompt_tokens: i32,
    completion_tokens: i32,
    latency_ms: i32,
) -> (r: Option<UsageLogRow>)
    requires
        sum_fits_i32(prompt_tokens, completion_tokens),
    ensures
        r matches Some(row) ==> usage_row_records(row, key_id@, request_model@, model@, prompt_tokens, completion_tokens, latency_ms),
        r matches Some(row) ==> is_uuid_v4_text(row.id@),
        r matches Some(row) ==> is_utc_rfc3339(row.created_at@),
{
    let id = new_record_id();
    let created_at = utc_timestamp();
    usage_log_from_stamps(id, created_at, key_id, request_model, model, prompt_tokens, completion_tokens, latency_ms)
}

/// A row of the routing history.
pub struct RoutingHistoryRow {
    pub id: String,
    pub task_type: String,
    pub routed_to: String,
    pub was_successful: bool,
    pub was_fallback: bool,
    pub latency_ms: i32,
    pub created_at: String,
}

/// The history row records this routing decision.
pub open spec fn routing_row_records(
    row: RoutingHistoryRow,
    task_type: Seq<char>,
    routed_to: Seq<char>,
    was_successful: bool,
    was_fallback: bool,
    latency_ms: i32,
) -> bool {
    &&& row.task_type@ == task_type
    &&& row.routed_to@ == routed_to
    &&& row.was_successful == was_successful
    &&& row.was_fallback == was_fallback
    &&& row.latency_ms == latency_ms
}

/// The routing history row with the given id and creation time.
pub fn routing_history_row(
    id: String,
    created_at: String,
    task_type: &str,
    routed_to: &str,
    was_successful: bool,
    was_fallback: bool,
    latency_ms: i32,
) -> (r: RoutingHistoryRow)
    ensures
        routing_row_records(r, task_type@, routed_to@, was_successful, was_fallback, latency_ms),
        r.id == id,
        r.created_at == created_at,
{
    RoutingHistoryRow {
        id,
        task_type: String::from_str(task_type),
        routed_to: String::from_str(routed_to),
        was_successful,
        was_fallback,
        latency_ms,
        created_at,
    }
}

/// A routing history row with a fresh id, stamped now.
pub fn new_routing_history(
    task_type: &str,
    routed_to: &str,
    was_successful: bool,
    was_fallback: bool,
    latency_ms: i32,
) -> (r: Option<RoutingHistoryRow>)
    ensures
        r matches Some(row) ==> routing_row_records(row, task_type@, routed_to@, was_successful, was_fallback, latency_ms),
        r matches Some(row) ==> is_uuid_v4_text(row.id@),
        r matches Some(row) ==> is_utc_rfc3339(row.created_at@),
{
    let id = match new_record_id() {
        Some(id) => id,
        None => return None,
    };
    let created_at = match utc_timestamp() {
        Some(t) => t,
        None => return None,
    };
    Some(routing_history_row(id, created_at, task_type, routed_to, was_successful, was_fallback, latency_ms))
}

/// A stored training sample.
pub struct TrainingSampleRow {
    pub id: String,
    pub request_messages: String,
    pub request_tools: Option<String>,
    pub response_content: String,
    pub request_model: String,
    pub actual_model: String,
    pub provider_type: String,
    pub task_type: String,
    pub has_tool_calls: bool,
    pub is_successful: bool,
    pub source: String,
    pub prompt_tokens: i32,
    pub completion_tokens: i32,
    pub total_tokens: i32,
    pub latency_ms: i32,
    pub is_exported: bool,
    pub created_at: String,
}

/// The sample holds these values, counts as successful, and is not yet exported.
pub open spec fn sample_row_holds(
    row: TrainingSampleRow,
    request_messages: Seq<char>,
    request_tools: Option<String>,
    response_content: Seq<char>,
    request_model: Seq<char>,
    actual_model: Seq<char>,
    provider_type: Seq<char>,
    task_type: Seq<char>,
    has_tool_calls: bool,
    source: Seq<char>,
    prompt_tokens: i32,
    completion_tokens: i32,
    total_tokens: int,
    latency_ms: i32,
) -> bool {
    &&& row.request_messages@ == request_messages
    &&& row.request_tools == request_tools
    &&& row.response_content@ == response_content
    &&& row.request_model@ == request_model
    &&& row.actual_model@ == actual_model
    &&& row.provider_type@ == provider_type
    &&& row.task_type@ == task_type
    &&& row.has_tool_calls == has_tool_calls
    &&& row.is_successful
    &&& row.source@ == source
    &&& row.prompt_tokens == prompt_tokens
    &&& row.completion_tokens == completion_tokens
    &&& row.total_tokens == total_tokens
    &&& row.latency_ms == latency_ms
    &&& !row.is_exported
}

/// What a sample reads of the first choice of a completed response.
pub struct ChoiceSummary {
    /// The number of tool calls of the choice's message, if it has the field.
    pub tool_call_count: Option<usize>,
    /// The choice's message serialised as JSON.
    pub message_json: String,
}

/// The first choice asked for at least one tool call.
pub open spec fn first_choice_calls_tools(first: Option<ChoiceSummary>) -> bool {
    first matches Some(c) && c.tool_call_count matches Some(n) && n > 0
}

/// The response text stored for the first choice: its message, or nothing.
pub open spec fn first_choice_text(first: Option<ChoiceSummary>) -> Seq<char> {
    match first {
        Some(c) => c.message_json@,
        None => Seq::empty(),
    }
}

/// Whether the stored counts of `usage` add up within an `i32`.
pub open spec fn usage_sum_fits(usage: Option<TokenUsage>) -> bool {
    sum_fits_i32(stored_counts(usage).0, stored_counts(usage).1)
}

/// The training sample of a completed (non-streamed) response, with the given
/// id and creation time.
pub fn completion_sample_row(
    id: String,
    created_at: String,
    request_messages: String,
    request_tools: Option<String>,
    first_choice: Option<ChoiceSummary>,
    usage: Option<TokenUsage>,
    request_model: &str,
    actual_model: &str,
    provider_type: &str,
    task_type: &str,
    source: &str,
    latency_ms: i32,
) -> (r: TrainingSampleRow)
    requires
        usage_sum_fits(usage),
    ensures
        sample_row_holds(
            r,
            request_messages@,
            request_tools,
            first_choice_text(first_choice),
            request_model@,
            actual_model@,
            provider_type@,
            task_type@,
            first_choice_calls_tools(first_choice),
            source@,
            stored_counts(usage).0,
            stored_counts(usage).1,
            stored_counts(usage).0 + stored_counts(usage).1,
            latency_ms,
        ),
        r.has_tool_calls == (first_choice matches Some(c) && c.tool_call_count matches Some(n) && n >= 1),
        r.id == id,
        r.created_at == created_at,
{
    let (has_tool_calls, response_content) = match first_choice {
        Some(c) => {
            let calls = match c.tool_call_count {
                Some(n) => n > 0,
                None => false,
            };
            (calls, c.message_json)
        },
        None => (false, String::new()),
    };
    let (pt, ct) = usage_counts(usage);
    TrainingSampleRow {
        id,
        request_messages,
        request_tools,
        response_content,
        request_model: String::from_str(request_model),
        actual_model: String::from_str(actual_model),
        provider_type: String::from_str(provider_type),
        task_type: String::from_str(task_type),
        has_tool_calls,
        is_successful: true,
        source: String::from_str(source),
        prompt_tokens: pt,
        completion_tokens: ct,
        total_tokens: pt + ct,
        latency_ms,
        is_exported: false,
        created_at,
    }
}

/// Collect a training sample from a completed request/response pair: a fresh
/// id, stamped now.
pub fn collect_completion_sample(
    request_messages: String,
    request_tools: Option<String>,
    first_choice: Option<ChoiceSummary>,
    usage: Option<TokenUsage>,
    request_model: &str,
    actual_model: &str,
    provider_type: &str,
    task_type: &str,
    source: &str,
    latency_ms: i32,
) -> (r: Option<TrainingSampleRow>)
    requires
        usage_sum_fits(usage),
    ensures
        r matches Some(row) ==> sample_row_holds( row, request_messages@, request_tools, first_choice_text(first_choice), request_model@, actual_model@, provider_type@, task_type@, first_choice_calls_tools(first_choice), source@, stored_counts(usage).0, stored_counts(usage).1, stored_counts(usage).0 + stored_counts(usage).1, latency_ms, ),
        r matches Some(row) ==> is_uuid_v4_text(row.id@),
        r matches Some(row) ==> is_utc_rfc3339(row.created_at@),
        r matches Some(row) ==> row.has_tool_calls == (first_choice matches Some(c) && c.tool_call_count
            matches Some(n) && n >= 1),
{
    let id = match new_record_id() {
        Some(id) => id,
        None => return None,
    };
    let created_at = match utc_timestamp() {
        Some(t) => t,
        None => return None,
    };
    Some(completion_sample_row(
        id,
        created_at,
        request_messages,
        request_tools,
        first_choice,
        usage,
        request_model,
        actual_model,
        provider_type,
        task_type,
        source,
        latency_ms,
    ))
}

/// What the stream bookkeeping reads of one choice of a streamed chunk.
pub struct ChunkDelta {
    /// Text the delta adds, if any.
    pub content: Option<String>,
    /// Whether the delta carries tool calls.
    pub has_tool_calls: bool,
}

/// The text the deltas add, in order.
pub open spec fn delta_text(deltas: Seq<ChunkDelta>) -> Seq<char>
    decreases deltas.len(),
{
    if deltas.len() == 0 {
        Seq::empty()
    } else {
        delta_text(deltas.drop_last()) + match deltas.last().content {
            Some(c) => c@,
            None => Seq::empty(),
        }
    }
}

/// Some delta carries tool calls.
pub open spec fn delta_calls_tools(deltas: Seq<ChunkDelta>) -> bool {
    exists|i: int| 0 <= i < deltas.len() && (#[trigger] deltas[i]).has_tool_calls
}

/// A reported token count replaces the kept one only when it is not zero.
pub open spec fn latest_count(kept: u32, reported: u32) -> u32 {
    if reported > 0 {
        reported
    } else {
        kept
    }
}

/// What a streamed response has reported so far: the last non-zero token
/// counts, and, when samples are collected, its text and whether it called
/// tools.
pub struct StreamTally {
    pub collect: bool,
    pub prompt_tokens: u32,
    pub completion_tokens: u32,
    pub content: String,
    pub has_tool_calls: bool,
}

/// The tally after a chunk with these usage figures and deltas.
pub open spec fn tally_observes(
    before: StreamTally,
    after: StreamTally,
    usage: Option<TokenUsage>,
    deltas: Seq<ChunkDelta>,
) -> bool {
    &&& after.collect == before.collect
    &&& after.prompt_tokens == match usage {
        Some(u) => latest_count(before.prompt_tokens, u.prompt_tokens),
        None => before.prompt_tokens,
    }
    &&& after.completion_tokens == match usage {
        Some(u) => latest_count(before.completion_tokens, u.completion_tokens),
        None => before.completion_tokens,
    }
    &&& after.content@ == if before.collect {
        before.content@ + delta_text(deltas)
    } else {
        before.content@
    }
    &&& after.has_tool_calls == (before.has_tool_calls || (before.collect && delta_calls_tools(deltas)))
}

impl StreamTally {
    /// Nothing reported yet.
    pub fn new(collect: bool) -> (r: Self)
        ensures
            r.collect == collect,
            r.prompt_tokens == 0,
            r.completion_tokens == 0,
            r.content@ == Seq::<char>::empty(),
            !r.has_tool_calls,
    {
        StreamTally {
            collect,
            prompt_tokens: 0,
            completion_tokens: 0,
            content: String::new(),
            has_tool_calls: false,
        }
    }

    /// Takes in one chunk: its usage figures and the deltas of its choices.
    pub fn observe(&mut self, usage: Option<TokenUsage>, choices: &Vec<ChunkDelta>)
        ensures
            tally_observes(*old(self), *final(self), usage, choices@),
            usage matches Some(u) ==> (u.prompt_tokens > 0 ==> final(self).prompt_tokens == u.prompt_tokens),
            usage matches Some(u) ==> (u.prompt_tokens == 0 ==> final(self).prompt_tokens == old(
                self,
            ).prompt_tokens),
            usage matches Some(u) ==> (u.completion_tokens > 0 ==> final(self).completion_tokens
                == u.completion_tokens),
            usage matches Some(u) ==> (u.completion_tokens == 0 ==> final(self).completion_tokens == old(
                self,
            ).completion_tokens),
            usage is None ==> final(self).prompt_tokens == old(self).prompt_tokens
                && final(self).completion_tokens == old(self).completion_tokens,
    {
        match usage {
            Some(u) => {
                if u.prompt_tokens > 0 {
                    self.prompt_tokens = u.prompt_tokens;
                }
                if u.completion_tokens > 0 {
                    self.completion_tokens = u.completion_tokens;
                }
            },
            None => {},
        }
        if self.collect {
            let ghost start = self.content@;
            let ghost calls_before = self.has_tool_calls;
            let ghost kept = (self.prompt_tokens, self.completion_tokens);
            let n = choices.len();
            let mut i: usize = 0;
            while i < n
                invariant
                    n == choices@.len(),
                    i <= n,
                    self.collect,
                    (self.prompt_tokens, self.completion_tokens) == kept,
                    self.content@ == start + delta_text(choices@.take(i as int)),
                    self.has_tool_calls == (calls_before || delta_calls_tools(choices@.take(i as int))),
                decreases n - i,
            {
                let choice = &choices[i];
                assert(choices@.take(i + 1).drop_last() =~= choices@.take(i as int));
                assert(choices@.take(i + 1).last() == choices@[i as int]);
                match &choice.content {
                    Some(c) => {
                        self.content.append(c.as_str());
                    },
                    None => {},
                }
                if choice.has_tool_calls {
                    self.has_tool_calls = true;
                }
                assert(self.content@ =~= start + delta_text(choices@.take(i + 1)));
                proof {
                    if delta_calls_tools(choices@.take(i + 1)) && !choice.has_tool_calls {
                        let j = choose|j: int|
                            0 <= j < i + 1 && (#[trigger] choices@.take(i + 1)[j]).has_tool_calls;
                        assert(choices@.take(i as int)[j].has_tool_calls);
                    }
                    if delta_calls_tools(choices@.take(i as int)) {
                        let j = choose|j: int|
                            0 <= j < i && (#[trigger] choices@.take(i as int)[j]).has_tool_calls;
                        assert(choices@.take(i + 1)[j].has_tool_calls);
                    }
                    if choice.has_tool_calls {
                        assert(choices@.take(i + 1)[i as int].has_tool_calls);
                    }
                }
                i = i + 1;
            }
            assert(choices@.take(n as int) =~= choices@);
        }
    }

    /// Prompt, completion and total tokens as stored once the stream ended.
    pub fn totals(&self) -> (r: (i32, i32, i32))
        requires
            self.prompt_tokens + self.completion_tokens <= u32::MAX,
        ensures
            r == (
                self.prompt_tokens as i32,
                self.completion_tokens as i32,
                (self.prompt_tokens + self.completion_tokens) as i32,
            ),
    {
        (
            self.prompt_tokens as i32,
            self.completion_tokens as i32,
            (self.prompt_tokens + self.completion_tokens) as i32,
        )
    }

    /// Whether the streamed response is kept as a training sample: samples are
    /// collected and it produced some text.
    pub fn stores_sample(&self) -> (r: bool)
        ensures
            r == (self.collect && self.content@.len() > 0),
    {
        self.collect && self.content.unicode_len() > 0
    }
}

/// What happened on a provider's stream, or to the client it is forwarded to.
pub enum StreamEvent {
    /// A chunk arrived: its usage figures, the deltas of its choices, and the
    /// chunk serialised as JSON.
    Chunk { usage: Option<TokenUsage>, deltas: Vec<ChunkDelta>, json: String },
    /// The provider's stream failed; `message` is the error's text.
    Failed { message: String },
    /// The provider's stream ended.
    Ended,
    /// Sending the last chunk to the client failed: the client is gone.
    ClientGone,
}

/// What to send to the client, in order, and whether forwarding stops.
pub struct StreamAction {
    pub send: Vec<String>,
    pub stop: bool,
}

/// The event data sent in place of a chunk when the provider's stream fails.
pub open spec fn error_event_text(message: Seq<char>) -> Seq<char> {
    "{\"error\": \""@ + message + "\"}"@
}

/// The event data that closes every forwarded stream.
pub open spec fn done_text() -> Seq<char> {
    "[DONE]"@
}

/// Forwarding of a provider's stream to the client: the tally of what was
/// forwarded, and whether forwarding has stopped.
pub struct StreamForwarder {
    pub tally: StreamTally,
    pub finished: bool,
}

/// The messages of an action, as text.
pub open spec fn sent_texts(a: StreamAction) -> Seq<Seq<char>> {
    a.send@.map_values(|m: String| m@)
}

impl StreamForwarder {
    /// Nothing forwarded yet.
    pub fn new(collect: bool) -> (r: Self)
        ensures
            !r.finished,
            r.tally.collect == collect,
            r.tally.prompt_tokens == 0,
            r.tally.completion_tokens == 0,
            r.tally.content@ == Seq::<char>::empty(),
            !r.tally.has_tool_calls,
    {
        StreamForwarder { tally: StreamTally::new(collect), finished: false }
    }

    /// One step of forwarding: a chunk is tallied and forwarded as it is; a
    /// failure is reported to the client as an error event; every way of
    /// stopping ends with `[DONE]`.
    pub fn on_event(&mut self, event: StreamEvent) -> (r: StreamAction)
        requires
            !old(self).finished,
        ensures
            match event {
                StreamEvent::Chunk { usage, deltas, json } => {
                    &&& tally_observes(old(self).tally, final(self).tally, usage, deltas@)
                    &&& sent_texts(r) == seq![json@]
                    &&& !r.stop
                    &&& !final(self).finished
                },
                StreamEvent::Failed { message } => {
                    &&& final(self).tally == old(self).tally
                    &&& sent_texts(r) == seq![error_event_text(message@), done_text()]
                    &&& r.stop
                    &&& final(self).finished
                },
                _ => {
                    &&& final(self).tally == old(self).tally
                    &&& sent_texts(r) == seq![done_text()]
                    &&& r.stop
                    &&& final(self).finished
                },
            },
    {
        let mut send: Vec<String> = Vec::new();
        match event {
            StreamEvent::Chunk { usage, deltas, json } => {
                self.tally.observe(usage, &deltas);
                send.push(json);
                proof {
                    assert(sent_texts(StreamAction { send, stop: false }) =~= seq![json@]);
                }
                StreamAction { send, stop: false }
            },
            StreamEvent::Failed { message } => {
                let mut text = String::from_str("{\"error\": \"");
                text.append(message.as_str());
                text.append("\"}");
                send.push(text);
                send.push(String::from_str("[DONE]"));
                self.finished = true;
                proof {
                    assert(sent_texts(StreamAction { send, stop: true }) =~= seq![
                        error_event_text(message@),
                        done_text(),
                    ]);
                }
                StreamAction { send, stop: true }
            },
            _ => {
                send.push(String::from_str("[DONE]"));
                self.finished = true;
                proof {
                    assert(sent_texts(StreamAction { send, stop: true }) =~= seq![done_text()]);
                }
                StreamAction { send, stop: true }
            },
        }
    }
}

/// The training sample of a streamed response, with the given id and creation
/// time; its response is the assistant message made of the tally's text.
pub fn stream_sample_row(
    id: String,
    created_at: String,
    tally: &StreamTally,
    request_messages: String,
    request_tools: Option<String>,
    request_model: &str,
    actual_model: &str,
    task_type: &str,
    latency_ms: i32,
) -> (r: TrainingSampleRow)
    requires
        tally.prompt_tokens + tally.completion_tokens <= u32::MAX,
    ensures
        sample_row_holds(
            r,
            request_messages@,
            request_tools,
            assistant_message_text(tally.content@),
            request_model@,
            actual_model@,
            "cloud"@,
            task_type@,
            tally.has_tool_calls,
            "cloud"@,
            tally.prompt_tokens as i32,
            tally.completion_tokens as i32,
            ((tally.prompt_tokens + tally.completion_tokens) as i32) as int,
            latency_ms,
        ),
        r.id == id,
        r.created_at == created_at,
{
    let (pt, ct, tt) = tally.totals();
    TrainingSampleRow {
        id,
        request_messages,
        request_tools,
        response_content: assistant_message_json(tally.content.as_str()),
        request_model: String::from_str(request_model),
        actual_model: String::from_str(actual_model),
        provider_type: String::from_str("cloud"),
        task_type: String::from_str(task_type),
        has_tool_calls: tally.has_tool_calls,
        is_successful: true,
        source: String::from_str("cloud"),
        prompt_tokens: pt,
        completion_tokens: ct,
        total_tokens: tt,
        latency_ms,
        is_exported: false,
        created_at,
    }
}

/// Collect the streamed response as a training sample, with a fresh id,
/// stamped now: only when the tally collects and holds some text; `None` also
/// when no id or timestamp could be had.
pub fn collect_stream_sample(
    tally: &StreamTally,
    request_messages: String,
    request_tools: Option<String>,
    request_model: &str,
    actual_model: &str,
    task_type: &str,
    latency_ms: i32,
) -> (r: Option<TrainingSampleRow>)
    requires
        tally.prompt_tokens + tally.completion_tokens <= u32::MAX,
    ensures
        !(tally.collect && tally.content@.len() > 0) ==> r is None,
        r matches Some(row) ==> sample_row_holds(
            row,
            request_messages@,
            request_tools,
            assistant_message_text(tally.content@),
            request_model@,
            actual_model@,
            "cloud"@,
            task_type@,
            tally.has_tool_calls,
            "cloud"@,
            tally.prompt_tokens as i32,
            tally.completion_tokens as i32,
            ((tally.prompt_tokens + tally.completion_tokens) as i32) as int,
            latency_ms,
        ),
        r matches Some(row) ==> is_uuid_v4_text(row.id@),
        r matches Some(row) ==> is_utc_rfc3339(row.created_at@),
{
    if !tally.stores_sample() {
        return None;
    }
    let id = match new_record_id() {
        Some(id) => id,
        None => return None,
    };
    let created_at = match utc_timestamp() {
        Some(t) => t,
        None => return None,
    };
    Some(
        stream_sample_row(
            id,
            created_at,
            tally,
            request_messages,
            request_tools,
            request_model,
            actual_model,
            task_type,
            latency_ms,
        ),
    )
}

/// The failover loop tries the targets one after another, in their order,
/// each at most once: after `k` failures it tries target `k` (a fallback when
/// `k > 0`), and once all `total` targets failed it stops, reporting a failure
/// exactly when there was a target to try.
pub proof fn lemma_failover_tries_targets_in_order(total: usize, k: nat)
    requires
        k <= total,
    ensures
        after_failures(total, k) == (FailoverState { next: k as usize, total }),
        k < total ==> failover_step(after_failures(total, k)) == (FailoverStep::Attempt {
            index: k as usize,
            was_fallback: k > 0,
        }),
        k == total ==> failover_step(after_failures(total, k)) == (FailoverStep::Exhausted {
            tried_any: total > 0,
        }),
    decreases k,
{
    if k > 0 {
        lemma_failover_tries_targets_in_order(total, (k - 1) as nat);
    }
}

/// The text of a sequence of chunks: each chunk's deltas, in order.
pub open spec fn stream_text(chunks: Seq<Seq<ChunkDelta>>) -> Seq<char>
    decreases chunks.len(),
{
    if chunks.len() == 0 {
        Seq::empty()
    } else {
        stream_text(chunks.drop_last()) + delta_text(chunks.last())
    }
}

/// The last non-zero prompt-token figure reported, else `kept`.
pub open spec fn last_prompt_count(kept: u32, usages: Seq<Option<TokenUsage>>) -> u32
    decreases usages.len(),
{
    if usages.len() == 0 {
        kept
    } else {
        let before = last_prompt_count(kept, usages.drop_last());
        match usages.last() {
            Some(u) => latest_count(before, u.prompt_tokens),
            None => before,
        }
    }
}

/// The last non-zero completion-token figure reported, else `kept`.
pub open spec fn last_completion_count(kept: u32, usages: Seq<Option<TokenUsage>>) -> u32
    decreases usages.len(),
{
    if usages.len() == 0 {
        kept
    } else {
        let before = last_completion_count(kept, usages.drop_last());
        match usages.last() {
            Some(u) => latest_count(before, u.completion_tokens),
            None => before,
        }
    }
}

/// Over a whole stream observed chunk by chunk, a collecting tally holds the
/// text of every chunk in order, after what it held at the start, and the last
/// non-zero token figures reported; a tally that does not collect keeps
/// its text.
pub proof fn lemma_tally_holds_whole_stream(
    states: Seq<StreamTally>,
    usages: Seq<Option<TokenUsage>>,
    chunks: Seq<Seq<ChunkDelta>>,
)
    requires
        usages.len() == chunks.len(),
        states.len() == chunks.len() + 1,
        forall|i: int|
            0 <= i < chunks.len() ==> tally_observes(#[trigger] states[i], states[i + 1], usages[i], chunks[i]),
    ensures
        states.last().collect == states[0].collect,
        states.last().content@ == if states[0].collect {
            states[0].content@ + stream_text(chunks)
        } else {
            states[0].content@
        },
        states.last().prompt_tokens == last_prompt_count(states[0].prompt_tokens, usages),
        states.last().completion_tokens == last_completion_count(states[0].completion_tokens, usages),
    decreases chunks.len(),
{
    if chunks.len() > 0 {
        let n = chunks.len() - 1;
        let s2 = states.drop_last();
        assert forall|i: int| 0 <= i < n implies tally_observes(
            #[trigger] s2[i],
            s2[i + 1],
            usages.drop_last()[i],
            chunks.drop_last()[i],
        ) by {
            assert(tally_observes(states[i], states[i + 1], usages[i], chunks[i]));
        }
        lemma_tally_holds_whole_stream(s2, usages.drop_last(), chunks.drop_last());
        assert(tally_observes(states[n], states[n + 1], usages[n], chunks[n]));
        assert(s2.last() == states[n]);
        if states[0].collect {
            assert(states.last().content@ =~= states[0].content@ + stream_text(chunks));
        }
    }
}

/// A header `Bearer ` followed by `k` presents exactly `k`, all of it; a
/// header without that prefix presents itself whole.
pub proof fn lemma_bearer_header_presents_the_rest(k: Seq<char>, other: Seq<char>)
    requires
        !"Bearer "@.is_prefix_of(other),
    ensures
        presented_key(Some("Bearer "@ + k)) == k,
        presented_key(Some("Bearer "@ + k)).len() == k.len(),
        presented_key(Some(other)) == other,
{
    reveal_strlit("Bearer ");
    let h = "Bearer "@ + k;
    assert("Bearer "@ =~= h.subrange(0, 7));
    assert(h.skip(7) =~= k);
}

/// A chunk whose usage reports a non-zero prompt (or completion) count sets
/// the tally's count to it, whatever was kept before; a zero report, or no
/// usage, keeps the count.
pub proof fn lemma_reported_count_replaces_kept(
    before: StreamTally,
    after: StreamTally,
    usage: Option<TokenUsage>,
    deltas: Seq<ChunkDelta>,
)
    requires
        tally_observes(before, after, usage, deltas),
    ensures
        usage matches Some(u) ==> (u.prompt_tokens > 0 ==> after.prompt_tokens == u.prompt_tokens),
        usage matches Some(u) ==> (u.completion_tokens > 0 ==> after.completion_tokens == u.completion_tokens),
        usage matches Some(u) ==> (u.prompt_tokens == 0 ==> after.prompt_tokens == before.prompt_tokens),
        usage matches Some(u) ==> (u.completion_tokens == 0 ==> after.completion_tokens
            == before.completion_tokens),
        usage is None ==> after.prompt_tokens == before.prompt_tokens && after.completion_tokens
            == before.completion_tokens,
{
}

/// A stored sample is flagged as calling tools exactly when its first choice
/// has at least one tool call.
pub proof fn lemma_tool_call_flag(n: usize, message_json: String)
    ensures
        first_choice_calls_tools(Some(ChoiceSummary { tool_call_count: Some(n), message_json })) == (n >= 1),
        !first_choice_calls_tools(Some(ChoiceSummary { tool_call_count: None, message_json })),
        !first_choice_calls_tools(None),
{
}

/// The text of deltas is the text of each delta in turn: a delta with text
/// adds exactly that text, one without adds nothing, and the text of two runs
/// of deltas is the first's followed by the second's.
pub proof fn lemma_delta_text_concatenates(a: Seq<ChunkDelta>, b: Seq<ChunkDelta>, d: ChunkDelta)
    ensures
        delta_text(a + b) == delta_text(a) + delta_text(b),
        d.content matches Some(c) ==> delta_text(seq![d]) == c@,
        d.content is None ==> delta_text(seq![d]).len() == 0,
    decreases b.len(),
{
    assert(seq![d].drop_last() =~= Seq::<ChunkDelta>::empty());
    assert(seq![d].last() == d);
    assert(delta_text(Seq::<ChunkDelta>::empty()) =~= Seq::<char>::empty());
    match d.content {
        Some(c) => {
            assert(delta_text(seq![d]) =~= c@);
        },
        None => {
            assert(delta_text(seq![d]) =~= Seq::<char>::empty());
        },
    }
    if b.len() == 0 {
        assert(a + b =~= a);
        assert(delta_text(a) + delta_text(b) =~= delta_text(a));
    } else {
        lemma_delta_text_concatenates(a, b.drop_last(), d);
        assert((a + b).drop_last() =~= a + b.drop_last());
        assert((a + b).last() == b.last());
        assert(delta_text(a + b) =~= delta_text(a) + delta_text(b));
    }
}

/// A usage row's total is the sum of its prompt and completion tokens, and it
/// is recorded as a success (status 200) of the given key.
pub proof fn lemma_usage_row_totals(
    row: UsageLogRow,
    key_id: Seq<char>,
    request_model: Seq<char>,
    model: Seq<char>,
    prompt_tokens: i32,
    completion_tokens: i32,
    latency_ms: i32,
)
    requires
        usage_row_records(row, key_id, request_model, model, prompt_tokens, completion_tokens, latency_ms),
    ensures
        row.total_tokens == row.prompt_tokens + row.completion_tokens,
        row.prompt_tokens == prompt_tokens,
        row.completion_tokens == completion_tokens,
        row.status_code == 200,
        row.key_id matches Some(k) && k@ == key_id,
{
}

} // verus!
