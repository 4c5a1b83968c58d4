//! The envelope in which a task goes to the control plane: who asks, what may
//! be spent and until when, a trace to follow, and the task itself.

use crate::clock::{rfc3339_form, Moment, LAST_SECOND};
use crate::error::{outcome, outcome_if_any, ErrorView, GatewayResult};
use crate::ids::{
    drawn, hex_digits, hyphenated_form, is_version_4, law_digits_are_the_identifiers_own, law_hex_width,
    simple_form, Uuid,
};
use crate::json::{items_view, Json, JsonView};
use crate::text::{joined, text_if_any};
use crate::urn::{urn_parsed, CapabilityUrn, UrnView};
use vstd::prelude::*;

verus! {

broadcast use vstd::string::group_string_axioms;

/// The seconds that a task has from the moment it is put in its envelope.
pub const DEADLINE_SECONDS: i64 = 60;

/// The credits that a task may spend where the caller sets no budget.
pub const DEFAULT_CREDITS: i64 = 1_000;

/// A task to hand to the control plane.
#[derive(Debug)]
pub struct Task {
    pub task_id: Uuid,
    pub urn: String,
    pub profile: String,
    pub prompt: String,
    pub tenant_id: Option<Uuid>,
    pub sensitivity_required: Option<String>,
    pub jurisdiction_required: Vec<String>,
    pub credits_budget: Option<i64>,
}

/// What a task is.
pub struct TaskView {
    pub task_id: Uuid,
    pub urn: Seq<char>,
    pub profile: Seq<char>,
    pub prompt: Seq<char>,
    pub tenant_id: Option<Uuid>,
    pub sensitivity_required: Option<Seq<char>>,
    pub jurisdiction_required: Seq<Seq<char>>,
    pub credits_budget: Option<i64>,
}

impl View for Task {
    type V = TaskView;

    open spec fn view(&self) -> TaskView {
        TaskView {
            task_id: self.task_id,
            urn: self.urn@,
            profile: self.profile@,
            prompt: self.prompt@,
            tenant_id: self.tenant_id,
            sensitivity_required: self.sensitivity_required.deep_view(),
            jurisdiction_required: self.jurisdiction_required.deep_view(),
            credits_budget: self.credits_budget,
        }
    }
}

// ---------------------------------------------------------------------------
// What goes into the envelope
// ---------------------------------------------------------------------------

/// A W3C trace parent: the trace is that of the task, the span is new.
pub open spec fn traceparent_of(task_id: Uuid, span: Uuid) -> Seq<char> {
    "00-"@ + simple_form(task_id.bits) + "-"@ + simple_form(span.bits).subrange(0, 16) + "-01"@
}

/// A UUID in JSON.
pub open spec fn uuid_json(id: Uuid) -> JsonView {
    JsonView::Text(hyphenated_form(id.bits))
}

/// A list of texts in JSON.
pub open spec fn texts_json(texts: Seq<Seq<char>>) -> JsonView {
    JsonView::Array(texts.map_values(|text: Seq<char>| JsonView::Text(text)))
}

/// The UUID that stands for nobody.
pub open spec fn nobody() -> Uuid {
    Uuid { bits: 0 }
}

impl TaskView {
    /// The task itself, before anything is said of the tenant.
    pub open spec fn bare_payload(self, capability: UrnView) -> JsonView {
        JsonView::object().with("task_id"@, uuid_json(self.task_id)).with(
            "owner_id"@,
            uuid_json(nobody()),
        ).with("execution_type"@, JsonView::Text("llm"@)).with(
            "payload"@,
            JsonView::object().with("profile"@, JsonView::Text(self.profile)).with(
                "prompt"@,
                JsonView::Text(self.prompt),
            ),
        ).with(
            "required_capabilities"@,
            JsonView::object().with("cpu_cores"@, JsonView::Null).with(
                "memory_mb"@,
                JsonView::Null,
            ).with("llm_profiles"@, JsonView::array()),
        ).with("allowed_nodes"@, JsonView::Text("hive-wide"@)).with(
            "capability_urn"@,
            capability.json(),
        )
    }

    /// The task itself. What the tenant requires is said only where it
    /// requires something.
    pub open spec fn payload(self, capability: UrnView) -> JsonView {
        let bare = self.bare_payload(capability);
        let with_tenant = match self.tenant_id {
            Some(id) => bare.with("tenant_id"@, uuid_json(id)),
            None => bare,
        };
        let with_sensitivity = match self.sensitivity_required {
            Some(tier) => with_tenant.with("sensitivity_required"@, JsonView::Text(tier)),
            None => with_tenant,
        };
        if self.jurisdiction_required.len() == 0 {
            with_sensitivity
        } else {
            with_sensitivity.with(
                "jurisdiction_required"@,
                texts_json(self.jurisdiction_required),
            )
        }
    }

    /// The credits that the task may spend.
    pub open spec fn credits(self) -> i64 {
        match self.credits_budget {
            Some(credits) => credits,
            None => DEFAULT_CREDITS,
        }
    }

    /// Who asks for the task.
    pub open spec fn origin(self) -> Uuid {
        match self.tenant_id {
            Some(id) => id,
            None => nobody(),
        }
    }

    /// What may be spent, and until when.
    pub open spec fn budget(self, deadline: Seq<char>) -> JsonView {
        JsonView::object().with("input_tokens_remaining"@, JsonView::Int(4096)).with(
            "output_tokens_remaining"@,
            JsonView::Int(4096),
        ).with("credits_remaining"@, JsonView::Int(self.credits() as int)).with(
            "spawn_depth_remaining"@,
            JsonView::Int(4),
        ).with(
            "wall_clock_deadline"@,
            JsonView::Text(deadline),
        )
    }

    /// The envelope with the task in it, due at the moment that `deadline`
    /// writes.
    pub open spec fn envelope(
        self,
        capability: UrnView,
        span: Uuid,
        deadline: Seq<char>,
    ) -> JsonView {
        JsonView::object().with("task_id"@, uuid_json(self.task_id)).with(
            "traceparent"@,
            JsonView::Text(traceparent_of(self.task_id, span)),
        ).with("idempotency_key"@, JsonView::Text(simple_form(self.task_id.bits))).with(
            "budget_context"@,
            self.budget(deadline),
        ).with("origin_user_id"@, uuid_json(self.origin())).with(
            "payload"@,
            self.payload(capability),
        )
    }

    /// The envelope with the task in it, or why the task has none: its URN
    /// names no capability.
    pub open spec fn body(self, span: Uuid, now: Moment) -> Result<JsonView, ErrorView> {
        match urn_parsed(self.urn) {
            Ok(capability) => Ok(
                self.envelope(capability, span, now.later(DEADLINE_SECONDS as int).text()),
            ),
            Err(error) => Err(error),
        }
    }

    /// The envelope with the task in it, or why the task has none; nothing where
    /// the moment is so late that the deadline has no calendar date.
    pub open spec fn body_if_due(self, span: Uuid, now: Moment) -> Option<
        Result<JsonView, ErrorView>,
    > {
        if urn_parsed(self.urn) is Ok && !now.reaches(DEADLINE_SECONDS as int) {
            None
        } else {
            Some(self.body(span, now))
        }
    }
}

// ---------------------------------------------------------------------------
// Making it
// ---------------------------------------------------------------------------

/// A W3C trace parent: the trace is that of the task, the span is `span`.
pub fn traceparent(task_id: Uuid, span: Uuid) -> (text: String)
    ensures
        text@ == traceparent_of(task_id, span),
{
    let span_digits = span.simple();
    proof {
        law_hex_width(span.bits as nat, 32);
    }
    let mut text = joined("00-", &task_id.simple());
    text.append("-");
    text.append(span_digits.as_str().substring_char(0, 16));
    text.append("-01");
    text
}

/// A W3C trace parent for a task, with a new random span.
pub fn mint_traceparent(task_id: Uuid) -> (text: String)
    ensures
        exists|span: Uuid| is_version_4(span.bits) && text@ == traceparent_of(task_id, span),
        exists|span: Uuid|
            call_ensures(Uuid::new_v4, (), span) && text@ == #[trigger] traceparent_of(
                task_id,
                span,
            ),
{
    let span = drawn(Uuid::new_v4);
    traceparent(task_id, span)
}

/// A list of texts in JSON.
fn json_of_texts(texts: &Vec<String>) -> (json: Json)
    ensures
        json@ == texts_json(texts.deep_view()),
{
    let mut items: Vec<Json> = Vec::new();
    let mut i: usize = 0;
    let ghost views = texts_json(texts.deep_view())->Array_0;
    assert(views.take(0) =~= items_view(items@));
    while i < texts.len()
        invariant
            i <= texts.len(),
            views == texts.deep_view().map_values(|text: Seq<char>| JsonView::Text(text)),
            items_view(items@) == views.take(i as int),
        decreases texts.len() - i,
    {
        let ghost before = items@;
        items.push(Json::text(&texts[i]));
        assert(items@.drop_last() =~= before);
        assert(views.take(i as int + 1) =~= views.take(i as int).push(views[i as int]));
        i = i + 1;
    }
    assert(views.take(i as int) =~= views);
    Json::Array(items)
}

impl Task {
    /// The task itself. What the tenant requires is said only where it
    /// requires something.
    pub fn payload(&self, capability: &CapabilityUrn) -> (json: Json)
        ensures
            json@ == self@.payload(capability@),
    {
        let mut payload = Json::object().with(
            "task_id",
            Json::Text(self.task_id.hyphenated()),
        ).with(
            "owner_id",
            Json::Text(Uuid::nil().hyphenated()),
        ).with("execution_type", Json::text("llm")).with(
            "payload",
            Json::object().with("profile", Json::text(&self.profile)).with(
                "prompt",
                Json::text(&self.prompt),
            ),
        ).with(
            "required_capabilities",
            Json::object().with("cpu_cores", Json::Null).with("memory_mb", Json::Null).with(
                "llm_profiles",
                Json::array(),
            ),
        ).with("allowed_nodes", Json::text("hive-wide")).with("capability_urn", capability.json());
        if let Some(id) = &self.tenant_id {
            payload = payload.with("tenant_id", Json::Text(id.hyphenated()));
        }
        if let Some(tier) = &self.sensitivity_required {
            payload = payload.with("sensitivity_required", Json::text(tier));
        }
        assert(self.jurisdiction_required.deep_view().len() == self.jurisdiction_required.len());
        if self.jurisdiction_required.len() > 0 {
            payload = payload.with(
                "jurisdiction_required",
                json_of_texts(&self.jurisdiction_required),
            );
        }
        payload
    }

    /// The envelope with the task in it, due at the moment that `deadline`
    /// writes.
    pub fn envelope(&self, capability: &CapabilityUrn, span: Uuid, deadline: String) -> (json: Json)
        ensures
            json@ == self@.envelope(capability@, span, deadline@),
    {
        let origin = match self.tenant_id {
            Some(id) => id,
            None => Uuid::nil(),
        };
        let credits: i64 = match self.credits_budget {
            Some(credits) => credits,
            None => DEFAULT_CREDITS,
        };
        let budget = Json::object().with("input_tokens_remaining", Json::Int(4096)).with(
            "output_tokens_remaining",
            Json::Int(4096),
        ).with("credits_remaining", Json::Int(credits)).with(
            "spawn_depth_remaining",
            Json::Int(4),
        ).with("wall_clock_deadline", Json::Text(deadline));
        Json::object().with("task_id", Json::Text(self.task_id.hyphenated())).with(
            "traceparent",
            Json::Text(traceparent(self.task_id, span)),
        ).with("idempotency_key", Json::Text(self.task_id.simple())).with(
            "budget_context",
            budget,
        ).with("origin_user_id", Json::Text(origin.hyphenated())).with(
            "payload",
            self.payload(capability),
        )
    }

    /// The envelope with the task in it, for a given span and moment.
    pub fn body(&self, span: Uuid, now: Moment) -> (body: GatewayResult<Json>)
        requires
            now.reaches(DEADLINE_SECONDS as int),
        ensures
            outcome(body) == self@.body(span, now),
    {
        match CapabilityUrn::parse(&self.urn) {
            Ok(capability) => Ok(
                self.envelope(&capability, span, now.text_after(DEADLINE_SECONDS)),
            ),
            Err(error) => Err(error),
        }
    }

    /// The envelope with the task in it, for a given span and moment. Nothing
    /// comes back where the moment is so late that the deadline of a good task
    /// has no calendar date.
    pub fn body_if_due(&self, span: Uuid, now: Moment) -> (body: Option<GatewayResult<Json>>)
        requires
            now.valid(),
        ensures
            body is None <==> (urn_parsed(self@.urn) is Ok && !now.reaches(
                DEADLINE_SECONDS as int,
            )),
            body matches Some(b) ==> outcome(b) == self@.body(span, now),
            outcome_if_any(body) == self@.body_if_due(span, now),
    {
        if now.seconds <= LAST_SECOND - DEADLINE_SECONDS {
            return Some(self.body(span, now));
        }
        match CapabilityUrn::parse(&self.urn) {
            Ok(_) => None,
            Err(error) => Some(Err(error)),
        }
    }

    /// The envelope with the task in it, with a new random span and a deadline
    /// counted from the present moment. Nothing comes back where the clock
    /// stands so late that the deadline has no calendar date.
    pub fn fresh_body(&self) -> (body: Option<GatewayResult<Json>>)
        ensures
            urn_parsed(self@.urn) matches Err(error) ==> (body matches Some(Err(e)) && e@ == error),
            possible_body(self@, outcome_if_any(body)),
    {
        let span = drawn(Uuid::new_v4);
        let now = drawn(Moment::now);
        let body = self.body_if_due(span, now);
        assert(outcome_if_any(body) == self@.body_if_due(span, now));
        body
    }
}

/// Whether the body is one that the task can lead to, whatever span was drawn
/// and whatever the clock read.
pub open spec fn possible_body(
    task: TaskView,
    body: Option<Result<JsonView, ErrorView>>,
) -> bool {
    exists|span: Uuid, now: Moment|
        call_ensures(Uuid::new_v4, (), span) && call_ensures(Moment::now, (), now) && is_version_4(
            span.bits,
        ) && now.valid() && body == #[trigger] task.body_if_due(span, now)
}

/// The envelope with a task in it, with a new random span and a deadline
/// counted from the present moment. Nothing comes back where the clock stands
/// so late that the deadline has no calendar date.
pub fn build_task_create_body(
    task_id: Uuid,
    urn: &str,
    profile: &str,
    prompt: &str,
    tenant_id: Option<Uuid>,
    sensitivity_required: Option<String>,
    jurisdiction_required: Vec<String>,
    credits_budget: Option<i64>,
) -> (body: Option<GatewayResult<Json>>)
    ensures
        urn_parsed(urn@) matches Err(error) ==> (body matches Some(Err(e)) && e@ == error),
        possible_body(
            (TaskView {
                task_id,
                urn: urn@,
                profile: profile@,
                prompt: prompt@,
                tenant_id,
                sensitivity_required: sensitivity_required.deep_view(),
                jurisdiction_required: jurisdiction_required.deep_view(),
                credits_budget,
            }),
            outcome_if_any(body),
        ),
{
    let task = Task {
        task_id,
        urn: urn.to_owned(),
        profile: profile.to_owned(),
        prompt: prompt.to_owned(),
        tenant_id,
        sensitivity_required,
        jurisdiction_required,
        credits_budget,
    };
    task.fresh_body()
}

// ---------------------------------------------------------------------------
// Laws
// ---------------------------------------------------------------------------

/// The names in a payload are all different.
proof fn lemma_payload_names_differ()
    ensures
        "task_id"@ != "owner_id"@,
        "task_id"@ != "execution_type"@,
        "task_id"@ != "payload"@,
        "task_id"@ != "required_capabilities"@,
        "task_id"@ != "allowed_nodes"@,
        "task_id"@ != "capability_urn"@,
        "task_id"@ != "tenant_id"@,
        "task_id"@ != "sensitivity_required"@,
        "task_id"@ != "jurisdiction_required"@,
        "owner_id"@ != "execution_type"@,
        "owner_id"@ != "payload"@,
        "owner_id"@ != "required_capabilities"@,
        "owner_id"@ != "allowed_nodes"@,
        "owner_id"@ != "capability_urn"@,
        "owner_id"@ != "tenant_id"@,
        "owner_id"@ != "sensitivity_required"@,
        "owner_id"@ != "jurisdiction_required"@,
        "execution_type"@ != "payload"@,
        "execution_type"@ != "required_capabilities"@,
        "execution_type"@ != "allowed_nodes"@,
        "execution_type"@ != "capability_urn"@,
        "execution_type"@ != "tenant_id"@,
        "execution_type"@ != "sensitivity_required"@,
        "execution_type"@ != "jurisdiction_required"@,
        "payload"@ != "required_capabilities"@,
        "payload"@ != "allowed_nodes"@,
        "payload"@ != "capability_urn"@,
        "payload"@ != "tenant_id"@,
        "payload"@ != "sensitivity_required"@,
        "payload"@ != "jurisdiction_required"@,
        "required_capabilities"@ != "allowed_nodes"@,
        "required_capabilities"@ != "capability_urn"@,
        "required_capabilities"@ != "tenant_id"@,
        "required_capabilities"@ != "sensitivity_required"@,
        "required_capabilities"@ != "jurisdiction_required"@,
        "allowed_nodes"@ != "capability_urn"@,
        "allowed_nodes"@ != "tenant_id"@,
        "allowed_nodes"@ != "sensitivity_required"@,
        "allowed_nodes"@ != "jurisdiction_required"@,
        "capability_urn"@ != "tenant_id"@,
        "capability_urn"@ != "sensitivity_required"@,
        "capability_urn"@ != "jurisdiction_required"@,
        "tenant_id"@ != "sensitivity_required"@,
        "tenant_id"@ != "jurisdiction_required"@,
        "sensitivity_required"@ != "jurisdiction_required"@,
{
    reveal_strlit("task_id");
    reveal_strlit("owner_id");
    reveal_strlit("execution_type");
    reveal_strlit("payload");
    reveal_strlit("required_capabilities");
    reveal_strlit("allowed_nodes");
    reveal_strlit("capability_urn");
    reveal_strlit("tenant_id");
    reveal_strlit("sensitivity_required");
    reveal_strlit("jurisdiction_required");
    assert("task_id"@.len() == 7);
    assert("owner_id"@.len() == 8);
    assert("execution_type"@.len() == 14);
    assert("payload"@.len() == 7);
    assert("required_capabilities"@.len() == 21);
    assert("allowed_nodes"@.len() == 13);
    assert("capability_urn"@.len() == 14);
    assert("tenant_id"@.len() == 9);
    assert("sensitivity_required"@.len() == 20);
    assert("jurisdiction_required"@.len() == 21);
    assert("task_id"@[0] != "payload"@[0]);
    assert("execution_type"@[0] != "capability_urn"@[0]);
    assert("required_capabilities"@[0] != "jurisdiction_required"@[0]);
}

/// The names in an envelope are all different.
proof fn lemma_envelope_names_differ()
    ensures
        "task_id"@ != "traceparent"@,
        "task_id"@ != "idempotency_key"@,
        "task_id"@ != "budget_context"@,
        "task_id"@ != "origin_user_id"@,
        "task_id"@ != "payload"@,
        "traceparent"@ != "idempotency_key"@,
        "traceparent"@ != "budget_context"@,
        "traceparent"@ != "origin_user_id"@,
        "traceparent"@ != "payload"@,
        "idempotency_key"@ != "budget_context"@,
        "idempotency_key"@ != "origin_user_id"@,
        "idempotency_key"@ != "payload"@,
        "budget_context"@ != "origin_user_id"@,
        "budget_context"@ != "payload"@,
        "origin_user_id"@ != "payload"@,
{
    reveal_strlit("task_id");
    reveal_strlit("traceparent");
    reveal_strlit("idempotency_key");
    reveal_strlit("budget_context");
    reveal_strlit("origin_user_id");
    reveal_strlit("payload");
    assert("task_id"@.len() == 7);
    assert("traceparent"@.len() == 11);
    assert("idempotency_key"@.len() == 15);
    assert("budget_context"@.len() == 14);
    assert("origin_user_id"@.len() == 14);
    assert("payload"@.len() == 7);
    assert("task_id"@[0] != "payload"@[0]);
    assert("budget_context"@[0] != "origin_user_id"@[0]);
}

/// What the tenant's gateway sets passes through unchanged, and what it does
/// not set is not in the payload at all.
pub proof fn law_tenant_settings_pass_through(task: TaskView, capability: UrnView)
    ensures
        task.payload(capability).get("tenant_id"@) == (match task.tenant_id {
            Some(id) => Some(uuid_json(id)),
            None => None,
        }),
        task.payload(capability).get("sensitivity_required"@) == (match task.sensitivity_required {
            Some(tier) => Some(JsonView::Text(tier)),
            None => None,
        }),
        task.payload(capability).get("jurisdiction_required"@) == (
        if task.jurisdiction_required.len() == 0 {
            None
        } else {
            Some(texts_json(task.jurisdiction_required))
        }),
{
    lemma_payload_names_differ();
    lemma_envelope_names_differ();
}

/// The envelope and the payload in it name the same task, and the trace and the
/// idempotency key are the task's own digits.
pub proof fn law_one_task_throughout(
    task: TaskView,
    capability: UrnView,
    span: Uuid,
    deadline: Seq<char>,
)
    ensures
        task.envelope(capability, span, deadline).get("task_id"@) == Some(uuid_json(task.task_id)),
        task.envelope(capability, span, deadline).get("payload"@) == Some(task.payload(capability)),
        task.payload(capability).get("task_id"@) == Some(uuid_json(task.task_id)),
        task.envelope(capability, span, deadline).get("idempotency_key"@) == Some(
            JsonView::Text(simple_form(task.task_id.bits)),
        ),
        task.envelope(capability, span, deadline).get("traceparent"@) == Some(
            JsonView::Text(traceparent_of(task.task_id, span)),
        ),
        traceparent_of(task.task_id, span).subrange(3, 35) == simple_form(task.task_id.bits),
{
    lemma_payload_names_differ();
    lemma_envelope_names_differ();
    law_hex_width(task.task_id.bits as nat, 32);
    reveal_strlit("00-");
    assert(traceparent_of(task.task_id, span).subrange(3, 35) =~= simple_form(task.task_id.bits));
}

/// Two tasks with different identifiers never share an idempotency key.
pub proof fn law_idempotency_keys_differ(
    left: TaskView,
    left_capability: UrnView,
    left_span: Uuid,
    left_deadline: Seq<char>,
    right: TaskView,
    right_capability: UrnView,
    right_span: Uuid,
    right_deadline: Seq<char>,
)
    requires
        left.task_id != right.task_id,
    ensures
        left.envelope(left_capability, left_span, left_deadline).get("idempotency_key"@)
            != right.envelope(right_capability, right_span, right_deadline).get(
            "idempotency_key"@,
        ),
{
    law_one_task_throughout(left, left_capability, left_span, left_deadline);
    law_one_task_throughout(right, right_capability, right_span, right_deadline);
    law_digits_are_the_identifiers_own(left.task_id, right.task_id);
}

/// Whether `c` is a lower-case hexadecimal digit.
pub open spec fn is_hex_digit(c: char) -> bool {
    '0' <= c <= '9' || 'a' <= c <= 'f'
}

proof fn lemma_hex_only(n: nat, width: nat)
    ensures
        forall|i: int| 0 <= i < width ==> is_hex_digit(#[trigger] hex_digits(n, width)[i]),
    decreases width,
{
    law_hex_width(n, width);
    if width > 0 {
        lemma_hex_only(n / 16, (width - 1) as nat);
        law_hex_width(n / 16, (width - 1) as nat);
        assert forall|i: int| 0 <= i < width implies is_hex_digit(
            #[trigger] hex_digits(n, width)[i],
        ) by {
            if i < width - 1 {
                assert(hex_digits(n, width)[i] == hex_digits(n / 16, (width - 1) as nat)[i]);
            }
        }
    }
}

/// A trace parent has the W3C form: version `00`, 32 digits of trace, 16 digits
/// of span and the flags `01`, with hyphens between.
pub proof fn law_traceparent_has_w3c_form(task_id: Uuid, span: Uuid)
    ensures
        traceparent_of(task_id, span).len() == 55,
        traceparent_of(task_id, span).subrange(0, 3) == "00-"@,
        forall|i: int|
            3 <= i < 35 || 36 <= i < 52 ==> is_hex_digit(
                #[trigger] traceparent_of(task_id, span)[i],
            ),
        traceparent_of(task_id, span)[35] == '-',
        traceparent_of(task_id, span).subrange(52, 55) == "-01"@,
{
    let trace = simple_form(task_id.bits);
    let digits = simple_form(span.bits);
    law_hex_width(task_id.bits as nat, 32);
    law_hex_width(span.bits as nat, 32);
    lemma_hex_only(task_id.bits as nat, 32);
    lemma_hex_only(span.bits as nat, 32);
    reveal_strlit("00-");
    reveal_strlit("-");
    reveal_strlit("-01");
    let text = traceparent_of(task_id, span);
    assert forall|i: int| 3 <= i < 35 || 36 <= i < 52 implies is_hex_digit(#[trigger] text[i]) by {
        if i < 35 {
            assert(text[i] == trace[i - 3]);
        } else {
            assert(text[i] == digits[i - 36]);
        }
    }
    assert(text.subrange(0, 3) =~= "00-"@);
    assert(text.subrange(52, 55) =~= "-01"@);
}

/// The budget is what the caller set, or a thousand credits; it leaves room for
/// tasks under this one and ends at the deadline. The asker is the tenant, or
/// nobody.
pub proof fn law_budget_and_origin(
    task: TaskView,
    capability: UrnView,
    span: Uuid,
    deadline: Seq<char>,
)
    ensures
        task.envelope(capability, span, deadline).get("budget_context"@) == Some(
            task.budget(deadline),
        ),
        task.budget(deadline).get("credits_remaining"@) == Some(
            JsonView::Int(
                match task.credits_budget {
                    Some(credits) => credits as int,
                    None => 1000,
                },
            ),
        ),
        task.budget(deadline).get("spawn_depth_remaining"@) == Some(JsonView::Int(4)),
        task.budget(deadline).get("wall_clock_deadline"@) == Some(JsonView::Text(deadline)),
        task.envelope(capability, span, deadline).get("origin_user_id"@) == Some(
            uuid_json(
                match task.tenant_id {
                    Some(id) => id,
                    None => nobody(),
                },
            ),
        ),
{
    lemma_payload_names_differ();
    lemma_envelope_names_differ();
    reveal_strlit("credits_remaining");
    reveal_strlit("spawn_depth_remaining");
    reveal_strlit("wall_clock_deadline");
    assert("credits_remaining"@.len() == 17);
    assert("spawn_depth_remaining"@.len() == 21);
    assert("wall_clock_deadline"@.len() == 19);
}

/// The prompt, the profile and the capability reach the control plane as they
/// were given.
pub proof fn law_what_is_asked_passes_through(task: TaskView, capability: UrnView)
    ensures
        task.payload(capability).get("capability_urn"@) == Some(capability.json()),
        task.payload(capability).get("payload"@) matches Some(inner) && inner.get("prompt"@)
            == Some(JsonView::Text(task.prompt)) && inner.get("profile"@) == Some(
            JsonView::Text(task.profile),
        ),
{
    lemma_payload_names_differ();
    lemma_envelope_names_differ();
    reveal_strlit("payload");
    reveal_strlit("required_capabilities");
    reveal_strlit("allowed_nodes");
    reveal_strlit("capability_urn");
    reveal_strlit("profile");
    reveal_strlit("prompt");
    assert("payload"@.len() == 7);
    assert("required_capabilities"@.len() == 21);
    assert("allowed_nodes"@.len() == 13);
    assert("capability_urn"@.len() == 14);
    assert("profile"@.len() == 7);
    assert("prompt"@.len() == 6);
}

/// A task is all that its fields say.
pub proof fn law_task_is_its_fields(task: Task)
    ensures
        task@.task_id == task.task_id,
        task@.urn == task.urn@,
        task@.profile == task.profile@,
        task@.prompt == task.prompt@,
        task@.tenant_id == task.tenant_id,
        task@.sensitivity_required == text_if_any(task.sensitivity_required),
        task@.jurisdiction_required.len() == task.jurisdiction_required@.len(),
        forall|i: int|
            0 <= i < task.jurisdiction_required@.len() ==> #[trigger] task@.jurisdiction_required[i]
                == task.jurisdiction_required@[i]@,
        task@.credits_budget == task.credits_budget,
{
}

/// Texts in JSON are an array of as many texts, each in its place.
pub proof fn law_texts_in_json(texts: Seq<Seq<char>>)
    ensures
        texts_json(texts) is Array,
        texts_json(texts)->Array_0.len() == texts.len(),
        forall|i: int|
            0 <= i < texts.len() ==> #[trigger] texts_json(texts)->Array_0[i] == JsonView::Text(
                texts[i],
            ),
{
}

/// Every jurisdiction that a task requires is in its payload, in its place, and
/// no other is.
pub proof fn law_every_jurisdiction_is_required(task: TaskView, capability: UrnView)
    requires
        task.jurisdiction_required.len() > 0,
    ensures
        task.payload(capability).get("jurisdiction_required"@) matches Some(JsonView::Array(items))
            && items.len() == task.jurisdiction_required.len() && forall|i: int|
            0 <= i < items.len() ==> #[trigger] items[i] == JsonView::Text(
                task.jurisdiction_required[i],
            ),
{
    law_tenant_settings_pass_through(task, capability);
    law_texts_in_json(task.jurisdiction_required);
}

/// The span of a trace parent is the first half of the digits that were drawn for
/// it.
pub proof fn law_span_is_the_one_drawn(task_id: Uuid, span: Uuid)
    ensures
        traceparent_of(task_id, span).subrange(36, 52) == simple_form(span.bits).subrange(0, 16),
{
    law_hex_width(task_id.bits as nat, 32);
    law_hex_width(span.bits as nat, 32);
    reveal_strlit("00-");
    reveal_strlit("-");
    reveal_strlit("-01");
    assert(traceparent_of(task_id, span).subrange(36, 52) =~= simple_form(span.bits).subrange(
        0,
        16,
    ));
}

/// An identifier in JSON is its usual form; nobody's is all zeros.
pub proof fn law_identifiers_in_json(id: Uuid)
    ensures
        uuid_json(id) == JsonView::Text(hyphenated_form(id.bits)),
        nobody().bits == 0,
{
}

/// A task may spend what its caller set, or a thousand credits; its tenant asks
/// for it, or nobody.
pub proof fn law_credits_and_origin(task: TaskView)
    ensures
        task.credits_budget matches Some(credits) ==> task.credits() == credits,
        task.credits_budget is None ==> task.credits() == 1000,
        task.tenant_id matches Some(id) ==> task.origin() == id,
        task.tenant_id is None ==> task.origin() == (Uuid { bits: 0 }),
{
}

/// The budget holds these five limits and no other.
pub proof fn law_budget_is_five_limits(task: TaskView, deadline: Seq<char>)
    ensures
        task.budget(deadline) == JsonView::Object(
            map![
                "input_tokens_remaining"@ => JsonView::Int(4096),
                "output_tokens_remaining"@ => JsonView::Int(4096),
                "credits_remaining"@ => JsonView::Int(
                    match task.credits_budget {
                        Some(credits) => credits as int,
                        None => 1000,
                    },
                ),
                "spawn_depth_remaining"@ => JsonView::Int(4),
                "wall_clock_deadline"@ => JsonView::Text(deadline),
            ],
        ),
{
}

/// The envelope holds these six members and no other.
pub proof fn law_envelope_is_six_members(
    task: TaskView,
    capability: UrnView,
    span: Uuid,
    deadline: Seq<char>,
)
    ensures
        task.envelope(capability, span, deadline) == JsonView::Object(
            map![
                "task_id"@ => JsonView::Text(hyphenated_form(task.task_id.bits)),
                "traceparent"@ => JsonView::Text(traceparent_of(task.task_id, span)),
                "idempotency_key"@ => JsonView::Text(simple_form(task.task_id.bits)),
                "budget_context"@ => task.budget(deadline),
                "origin_user_id"@ => JsonView::Text(
                    hyphenated_form(
                        match task.tenant_id {
                            Some(id) => id.bits,
                            None => 0,
                        },
                    ),
                ),
                "payload"@ => task.payload(capability),
            ],
        ),
{
}

/// The payload is for nobody's language model anywhere in the hive, asks for no
/// hardware, and carries the task's identifier, prompt, profile and capability.
/// Besides these it holds what the tenant requires and nothing else.
pub proof fn law_payload_is_the_task(task: TaskView, capability: UrnView, name: Seq<char>)
    ensures
        task.payload(capability).get("task_id"@) == Some(
            JsonView::Text(hyphenated_form(task.task_id.bits)),
        ),
        task.payload(capability).get("owner_id"@) == Some(JsonView::Text(hyphenated_form(0))),
        task.payload(capability).get("execution_type"@) == Some(JsonView::Text("llm"@)),
        task.payload(capability).get("payload"@) == Some(
            JsonView::Object(
                map![
                    "profile"@ => JsonView::Text(task.profile),
                    "prompt"@ => JsonView::Text(task.prompt),
                ],
            ),
        ),
        task.payload(capability).get("required_capabilities"@) == Some(
            JsonView::Object(
                map![
                    "cpu_cores"@ => JsonView::Null,
                    "memory_mb"@ => JsonView::Null,
                    "llm_profiles"@ => JsonView::Array(Seq::<JsonView>::empty()),
                ],
            ),
        ),
        task.payload(capability).get("allowed_nodes"@) == Some(JsonView::Text("hive-wide"@)),
        task.payload(capability).get("capability_urn"@) == Some(
            JsonView::Object(
                map![
                    "namespace"@ => JsonView::Text(capability.namespace),
                    "domain"@ => JsonView::Text(capability.domain),
                    "operation"@ => JsonView::Text(capability.operation),
                    "version"@ => JsonView::Int(capability.version as int),
                ],
            ),
        ),
        task.tenant_id matches Some(id) ==> task.payload(capability).get("tenant_id"@) == Some(
            JsonView::Text(hyphenated_form(id.bits)),
        ),
        task.tenant_id is None ==> task.payload(capability).get("tenant_id"@) is None,
        task.sensitivity_required matches Some(tier) ==> task.payload(capability).get(
            "sensitivity_required"@,
        ) == Some(JsonView::Text(tier)),
        task.sensitivity_required is None ==> task.payload(capability).get(
            "sensitivity_required"@,
        ) is None,
        task.jurisdiction_required.len() == 0 ==> task.payload(capability).get(
            "jurisdiction_required"@,
        ) is None,
        task.payload(capability).get(name) is Some ==> name == "task_id"@ || name == "owner_id"@
            || name == "execution_type"@ || name == "payload"@ || name == "required_capabilities"@
            || name == "allowed_nodes"@ || name == "capability_urn"@ || name == "tenant_id"@ || name
            == "sensitivity_required"@ || name == "jurisdiction_required"@,
{
    lemma_payload_names_differ();
}

/// A task whose URN names a capability goes into an envelope for that capability,
/// due sixty seconds after the moment; any other is refused for its URN.
pub proof fn law_body_is_due_in_a_minute(task: TaskView, span: Uuid, now: Moment)
    requires
        now.reaches(60),
    ensures
        urn_parsed(task.urn) matches Ok(capability) ==> task.body(span, now) == Ok::<
            JsonView,
            ErrorView,
        >(
            task.envelope(
                capability,
                span,
                rfc3339_form((now.seconds + 60) as i64, now.nanos),
            ),
        ),
{
}

/// A task whose URN names no capability is refused for that, whatever the moment
/// is. One whose URN names one has no body only where the moment sixty seconds
/// later has no calendar date.
pub proof fn law_bodies_that_are_missing(task: TaskView, span: Uuid, now: Moment)
    ensures
        urn_parsed(task.urn) matches Err(error) ==> task.body(span, now) == Err::<
            JsonView,
            ErrorView,
        >(error) && task.body_if_due(span, now) == Some(Err::<JsonView, ErrorView>(error)),
        urn_parsed(task.urn) is Ok && now.reaches(60) ==> task.body_if_due(span, now) == Some(
            task.body(span, now),
        ),
        urn_parsed(task.urn) is Ok && !now.reaches(60) ==> task.body_if_due(span, now) is None,
{
}

} // verus!
