//! Running a task: it is handed to the control plane, then looked at again and
//! again until it has ended or its time is up.

use crate::client::{
    settle, settled, url_of, ClientView, Exchange, HoneycombClient, HttpRequest, HttpRequestView,
    Method,
};
use crate::clock::{rfc3339_form, Moment};
use crate::envelope::{
    law_body_is_due_in_a_minute, law_budget_and_origin, law_budget_is_five_limits,
    law_every_jurisdiction_is_required, law_one_task_throughout, law_payload_is_the_task,
    traceparent_of, Task, TaskView, DEADLINE_SECONDS,
};
use crate::error::{outcome, outcome_if_any, ErrorView, GatewayError, GatewayResult};
use crate::ids::{drawn, hyphenated_form, is_version_4, simple_form, Uuid};
use crate::json::{Json, JsonView};
use crate::text::{
    eq_ignore_ascii_case, folded, joined, law_folding_forgets_case_alone, same_letter, text_if_any,
    trim, trimmed,
};
use crate::tools::{
    optional_json, HttpMcpTools, RunRequestView, RunResponseView, RunSubagentRequest,
    RunSubagentResponse,
};
use crate::urn::{law_model_urn_is_accepted, law_model_with_a_slash_is_refused, urn_parsed};
use vstd::prelude::*;

verus! {

broadcast use vstd::string::group_string_axioms;

/// How long to wait between two looks at a task, in milliseconds.
pub const POLL_MILLIS: u64 = 500;

/// How long a task may take where the caller does not say, in seconds.
pub const DEFAULT_TIMEOUT_SECONDS: u64 = 60;

// ---------------------------------------------------------------------------
// Handing the task over
// ---------------------------------------------------------------------------

impl RunRequestView {
    /// The task that is asked for, under the identifier `task_id`, for a
    /// capability of the given URN and a prompt that is blank or not, or why
    /// there is none.
    pub open spec fn task_given(
        self,
        urn: Result<Seq<char>, ErrorView>,
        blank: bool,
        task_id: Uuid,
    ) -> Result<TaskView, ErrorView> {
        match urn {
            Err(error) => Err(error),
            Ok(urn) => if blank {
                Err(ErrorView::Invalid("prompt is empty"@))
            } else {
                Ok(
                    TaskView {
                        task_id,
                        urn,
                        profile: match self.profile {
                            Some(profile) => profile,
                            None => "default"@,
                        },
                        prompt: self.prompt,
                        tenant_id: self.tenant_id,
                        sensitivity_required: self.sensitivity_required,
                        jurisdiction_required: self.jurisdiction_required,
                        credits_budget: self.credits_budget,
                    },
                )
            },
        }
    }

    /// The task that is asked for, under the identifier `task_id`, or why
    /// there is none. A prompt is blank if it is whitespace alone.
    pub open spec fn task(self, task_id: Uuid) -> Result<TaskView, ErrorView> {
        self.task_given(self.resolved_urn(), trimmed(self.prompt).len() == 0, task_id)
    }

    /// The request that hands the task over, or why there is none.
    pub open spec fn submission(
        self,
        client: ClientView,
        task_id: Uuid,
        span: Uuid,
        now: Moment,
    ) -> Result<HttpRequestView, ErrorView> {
        match self.task(task_id) {
            Err(error) => Err(error),
            Ok(task) => match task.body(span, now) {
                Err(error) => Err(error),
                Ok(body) => Ok(client.post("/api/tasks/create"@, body)),
            },
        }
    }

    /// Why the task is not handed over, if it is not: no capability is named,
    /// or the prompt says nothing, or the URN names no capability, in this
    /// order.
    pub open spec fn refusal(self) -> Option<ErrorView> {
        match self.resolved_urn() {
            Err(error) => Some(error),
            Ok(urn) => if trimmed(self.prompt).len() == 0 {
                Some(ErrorView::Invalid("prompt is empty"@))
            } else {
                match urn_parsed(urn) {
                    Err(error) => Some(error),
                    Ok(_) => None,
                }
            },
        }
    }

    /// The request that hands the task over, or why there is none; nothing where
    /// the moment is so late that the deadline has no calendar date.
    pub open spec fn submission_if_due(
        self,
        client: ClientView,
        task_id: Uuid,
        span: Uuid,
        now: Moment,
    ) -> Option<Result<HttpRequestView, ErrorView>> {
        if self.refusal() is None && !now.reaches(DEADLINE_SECONDS as int) {
            None
        } else {
            Some(self.submission(client, task_id, span, now))
        }
    }

    /// The task to follow after it was handed over, or why there is none.
    pub open spec fn followed(self, created: Result<Uuid, ErrorView>) -> Result<Poll, ErrorView> {
        match created {
            Ok(task_id) => Ok(Poll { task_id, timeout_seconds: self.timeout() }),
            Err(error) => Err(error),
        }
    }

    /// How long the task may take, in seconds.
    pub open spec fn timeout(self) -> u64 {
        match self.timeout_seconds {
            Some(seconds) => seconds,
            None => DEFAULT_TIMEOUT_SECONDS,
        }
    }
}

impl RunSubagentRequest {
    /// The task that is asked for, under the identifier `task_id`, for a
    /// capability of the given URN and a prompt that is blank or not, or why
    /// there is none.
    pub fn task_given(&self, urn: GatewayResult<String>, blank: bool, task_id: Uuid) -> (task:
        GatewayResult<Task>)
        ensures
            outcome(task) == self@.task_given(outcome(urn), blank, task_id),
            task matches Ok(task) ==> task.task_id == task_id && task.tenant_id == self.tenant_id
                && task.credits_budget == self.credits_budget && task.prompt@ == self.prompt@,
    {
        let urn = match urn {
            Ok(urn) => urn,
            Err(error) => {
                return Err(error);
            },
        };
        if blank {
            return Err(GatewayError::invalid("prompt is empty"));
        }
        let profile = match &self.profile {
            Some(profile) => profile.clone(),
            None => "default".to_owned(),
        };
        Ok(
            Task {
                task_id,
                urn,
                profile,
                prompt: self.prompt.clone(),
                tenant_id: self.tenant_id,
                sensitivity_required: self.sensitivity_required.clone(),
                jurisdiction_required: self.jurisdiction_required.clone(),
                credits_budget: self.credits_budget,
            },
        )
    }

    /// The task that is asked for, under the identifier `task_id`, or why
    /// there is none.
    pub fn task(&self, task_id: Uuid) -> (task: GatewayResult<Task>)
        ensures
            outcome(task) == self@.task(task_id),
    {
        self.task_given(self.resolved_capability_urn(), trim(&self.prompt).is_empty(), task_id)
    }
}

impl HttpMcpTools {
    /// The request that hands a task over, for a given identifier, span and
    /// moment, or why there is none.
    pub fn submission(
        &self,
        request: &RunSubagentRequest,
        task_id: Uuid,
        span: Uuid,
        now: Moment,
    ) -> (submission: GatewayResult<HttpRequest>)
        requires
            now.reaches(DEADLINE_SECONDS as int),
        ensures
            outcome(submission) == request@.submission(self.client@, task_id, span, now),
    {
        let task = match request.task(task_id) {
            Ok(task) => task,
            Err(error) => {
                return Err(error);
            },
        };
        match task.body(span, now) {
            Ok(body) => Ok(self.client.post_request("/api/tasks/create", body)),
            Err(error) => Err(error),
        }
    }
}

/// Whether the submission is one that the request can lead to, whatever
/// identifiers were drawn and whatever the clock read.
pub open spec fn possible_submission(
    request: RunRequestView,
    client: ClientView,
    submission: Option<Result<HttpRequestView, ErrorView>>,
) -> bool {
    exists|task_id: Uuid, span: Uuid, now: Moment|
        call_ensures(Uuid::new_v4, (), task_id) && call_ensures(Uuid::new_v4, (), span)
            && call_ensures(Moment::now, (), now) && is_version_4(task_id.bits) && is_version_4(
            span.bits,
        ) && now.valid() && submission == #[trigger] request.submission_if_due(
            client,
            task_id,
            span,
            now,
        )
}

/// A request is refused for the reason it gives, and for no other, whatever
/// the identifiers and the clock are.
pub proof fn law_refusal_is_settled_by_the_request(
    request: RunRequestView,
    client: ClientView,
    task_id: Uuid,
    span: Uuid,
    now: Moment,
)
    ensures
        match request.refusal() {
            Some(error) => request.submission(client, task_id, span, now) == Err::<
                HttpRequestView,
                ErrorView,
            >(error),
            None => request.submission(client, task_id, span, now) is Ok,
        },
{
}

impl HttpMcpTools {
    /// The request that hands a task over, for a given identifier, span and
    /// moment, or why there is none. Nothing comes back where the moment is so
    /// late that the deadline of a good task has no calendar date.
    pub fn submission_if_due(
        &self,
        request: &RunSubagentRequest,
        task_id: Uuid,
        span: Uuid,
        now: Moment,
    ) -> (submission: Option<GatewayResult<HttpRequest>>)
        requires
            now.valid(),
        ensures
            submission is None <==> (request@.refusal() is None && !now.reaches(
                DEADLINE_SECONDS as int,
            )),
            submission matches Some(s) ==> outcome(s) == request@.submission(
                self.client@,
                task_id,
                span,
                now,
            ),
            outcome_if_any(submission) == request@.submission_if_due(
                self.client@,
                task_id,
                span,
                now,
            ),
    {
        let task = match request.task(task_id) {
            Ok(task) => task,
            Err(error) => {
                return Some(Err(error));
            },
        };
        match task.body_if_due(span, now) {
            Some(Ok(body)) => Some(Ok(self.client.post_request("/api/tasks/create", body))),
            Some(Err(error)) => Some(Err(error)),
            None => None,
        }
    }

    /// The request that hands a task over, under a new random identifier and
    /// with a deadline counted from the present moment, or why there is none.
    /// Nothing comes back where the clock stands so late that the deadline has
    /// no calendar date.
    pub fn run_subagent_request(&self, request: &RunSubagentRequest) -> (submission: Option<
        GatewayResult<HttpRequest>,
    >)
        ensures
            request@.refusal() matches Some(error) ==> (submission matches Some(Err(e)) && e@
                == error),
            request@.refusal() is None ==> (submission matches Some(s) ==> s is Ok),
            possible_submission(request@, self.client@, outcome_if_any(submission)),
    {
        let task_id = drawn(Uuid::new_v4);
        let span = drawn(Uuid::new_v4);
        let now = drawn(Moment::now);
        let submission = self.submission_if_due(request, task_id, span, now);
        proof {
            law_refusal_is_settled_by_the_request(request@, self.client@, task_id, span, now);
            assert(outcome_if_any(submission) == request@.submission_if_due(
                self.client@,
                task_id,
                span,
                now,
            ));
        }
        submission
    }
}

// ---------------------------------------------------------------------------
// Looking at the task
// ---------------------------------------------------------------------------

/// A task that was handed over: the identifier that the control plane gave it,
/// and how long it may take.
#[derive(Clone, Copy, Debug, PartialEq, Eq, Structural)]
pub struct Poll {
    pub task_id: Uuid,
    pub timeout_seconds: u64,
}

/// What the control plane shows of a task.
#[derive(Debug, Clone)]
pub struct TaskStatus {
    pub status: String,
    pub output: Option<Json>,
    pub last_error: Option<String>,
}

/// What is shown of a task.
pub struct StatusView {
    pub status: Seq<char>,
    pub output: Option<JsonView>,
    pub last_error: Option<Seq<char>>,
}

impl View for TaskStatus {
    type V = StatusView;

    open spec fn view(&self) -> StatusView {
        StatusView {
            status: self.status@,
            output: optional_json(self.output),
            last_error: self.last_error.deep_view(),
        }
    }
}

/// What to do after a look at a task.
#[derive(Debug)]
pub enum PollStep {
    /// Hand the response out: the task has ended.
    Done(RunSubagentResponse),
    /// Look again after so many milliseconds.
    Wait { millis: u64 },
}

/// What is to be done after a look at a task.
pub enum StepView {
    Done(RunResponseView),
    Wait { millis: u64 },
}

impl View for PollStep {
    type V = StepView;

    open spec fn view(&self) -> StepView {
        match self {
            PollStep::Done(response) => StepView::Done(response@),
            PollStep::Wait { millis } => StepView::Wait { millis: *millis },
        }
    }
}

/// Whether a status says that the task has ended. The case of its letters makes
/// no difference.
pub open spec fn ended(status: Seq<char>) -> bool {
    ||| folded(status) == folded("succeeded"@)
    ||| folded(status) == folded("completed"@)
    ||| folded(status) == folded("failed"@)
    ||| folded(status) == folded("timed_out"@)
    ||| folded(status) == folded("cancelled"@)
}

/// Whether a status says that the task has ended.
pub fn has_ended(status: &str) -> (answer: bool)
    ensures
        answer == ended(status@),
{
    eq_ignore_ascii_case(status, "succeeded") || eq_ignore_ascii_case(status, "completed")
        || eq_ignore_ascii_case(status, "failed") || eq_ignore_ascii_case(status, "timed_out")
        || eq_ignore_ascii_case(status, "cancelled")
}

/// What is known of what a look at a task showed.
pub open spec fn seen(path: Seq<char>, exchange: Exchange<TaskStatus>) -> Result<
    StatusView,
    ErrorView,
> {
    match settled(Method::Get, path, exchange) {
        Ok(status) => Ok(status@),
        Err(error) => Err(error),
    }
}

impl Poll {
    /// Where the task is looked at.
    pub open spec fn path_view(self) -> Seq<char> {
        "/api/tasks/"@ + hyphenated_form(self.task_id.bits)
    }

    /// Whether the time is up after so many nanoseconds.
    pub open spec fn is_up(self, elapsed_nanos: u128) -> bool {
        elapsed_nanos >= self.timeout_seconds * 1_000_000_000
    }

    /// The next look at the task, or the end of the wait.
    pub open spec fn look_view(self, client: ClientView, elapsed_nanos: u128) -> Result<
        HttpRequestView,
        ErrorView,
    > {
        if self.is_up(elapsed_nanos) {
            Err(ErrorView::TaskTimeout { seconds: self.timeout_seconds })
        } else {
            Ok(client.get(self.path_view()))
        }
    }

    /// The response for a task that ended so.
    pub open spec fn response_view(self, status: StatusView) -> RunResponseView {
        RunResponseView {
            task_id: self.task_id,
            status: status.status,
            output: status.output,
            error: status.last_error,
        }
    }

    /// What to do after a look at the task.
    pub open spec fn step_view(self, seen: Result<StatusView, ErrorView>) -> Result<
        StepView,
        ErrorView,
    > {
        match seen {
            Err(error) => Err(error),
            Ok(status) => if ended(status.status) {
                Ok(StepView::Done(self.response_view(status)))
            } else {
                Ok(StepView::Wait { millis: POLL_MILLIS })
            },
        }
    }

    /// Where the task is looked at.
    pub fn path(&self) -> (path: String)
        ensures
            path@ == self.path_view(),
    {
        joined("/api/tasks/", &self.task_id.hyphenated())
    }

    /// The next look at the task, so many nanoseconds after it was handed over,
    /// or the error that its time is up.
    pub fn look(&self, client: &HoneycombClient, elapsed_nanos: u128) -> (request: GatewayResult<
        HttpRequest,
    >)
        ensures
            outcome(request) == self.look_view(client@, elapsed_nanos),
    {
        let limit: u128 = self.timeout_seconds as u128 * 1_000_000_000;
        if elapsed_nanos >= limit {
            return Err(GatewayError::TaskTimeout { seconds: self.timeout_seconds });
        }
        Ok(client.get_request(&self.path()))
    }

    /// What to do after a look at the task.
    pub fn step(&self, exchange: Exchange<TaskStatus>) -> (step: GatewayResult<PollStep>)
        ensures
            outcome(step) == self.step_view(seen(self.path_view(), exchange)),
            exchange matches Exchange::Decoded(shown) ==> (ended(shown.status@) ==> (step matches Ok(
                PollStep::Done(response),
            ) && response.task_id == self.task_id && response.status@ == shown.status@
                && response.output == shown.output && response.error == shown.last_error)),
    {
        match settle(Method::Get, &self.path(), exchange) {
            Err(error) => Err(error),
            Ok(status) => if has_ended(&status.status) {
                Ok(
                    PollStep::Done(
                        RunSubagentResponse {
                            task_id: self.task_id,
                            status: status.status,
                            output: status.output,
                            error: status.last_error,
                        },
                    ),
                )
            } else {
                Ok(PollStep::Wait { millis: POLL_MILLIS })
            },
        }
    }
}

/// What happened in a wait.
#[derive(Debug)]
pub enum WaitEvent {
    /// The wait began, or a pause is over, so many nanoseconds after the task
    /// was handed over.
    Woken { elapsed_nanos: u128 },
    /// A look at the task came back.
    Seen(Exchange<TaskStatus>),
}

/// What to do next in a wait.
#[derive(Debug)]
pub enum WaitAct {
    /// Look at the task: send the request.
    Look(HttpRequest),
    /// Pause for so many milliseconds.
    Pause { millis: u64 },
    /// The wait is over.
    End(GatewayResult<RunSubagentResponse>),
}

/// What is to be done next in a wait.
pub enum ActView {
    Look(HttpRequestView),
    Pause { millis: u64 },
    End(Result<RunResponseView, ErrorView>),
}

impl View for WaitAct {
    type V = ActView;

    open spec fn view(&self) -> ActView {
        match self {
            WaitAct::Look(request) => ActView::Look(request@),
            WaitAct::Pause { millis } => ActView::Pause { millis: *millis },
            WaitAct::End(result) => ActView::End(outcome(*result)),
        }
    }
}

impl Poll {
    /// What to do when the wait begins or a pause is over: look at the task
    /// while there is time.
    pub open spec fn act_when_woken(self, client: ClientView, elapsed_nanos: u128) -> ActView {
        match self.look_view(client, elapsed_nanos) {
            Ok(request) => ActView::Look(request),
            Err(error) => ActView::End(Err(error)),
        }
    }

    /// What to do when a look came back: pause while the task goes on.
    pub open spec fn act_when_seen(self, seen: Result<StatusView, ErrorView>) -> ActView {
        match self.step_view(seen) {
            Ok(StepView::Done(response)) => ActView::End(Ok(response)),
            Ok(StepView::Wait { millis }) => ActView::Pause { millis },
            Err(error) => ActView::End(Err(error)),
        }
    }

    /// What to do next in the wait.
    pub fn act(&self, client: &HoneycombClient, event: WaitEvent) -> (act: WaitAct)
        ensures
            act@ == (match event {
                WaitEvent::Woken { elapsed_nanos } => self.act_when_woken(client@, elapsed_nanos),
                WaitEvent::Seen(exchange) => self.act_when_seen(seen(self.path_view(), exchange)),
            }),
    {
        match event {
            WaitEvent::Woken { elapsed_nanos } => match self.look(client, elapsed_nanos) {
                Ok(request) => WaitAct::Look(request),
                Err(error) => WaitAct::End(Err(error)),
            },
            WaitEvent::Seen(exchange) => match self.step(exchange) {
                Ok(PollStep::Done(response)) => WaitAct::End(Ok(response)),
                Ok(PollStep::Wait { millis }) => WaitAct::Pause { millis },
                Err(error) => WaitAct::End(Err(error)),
            },
        }
    }
}

impl HttpMcpTools {
    /// The task that was handed over, from the exchange of the request that did
    /// it: the control plane answers with the task's identifier.
    pub fn submitted(&self, request: &RunSubagentRequest, exchange: Exchange<Uuid>) -> (poll:
        GatewayResult<Poll>)
        ensures
            (match poll {
                Ok(poll) => Ok(poll),
                Err(error) => Err(error@),
            }) == (match settled(Method::Post, "/api/tasks/create"@, exchange) {
                Ok(task_id) => Ok(Poll { task_id, timeout_seconds: request@.timeout() }),
                Err(error) => Err(error),
            }),
            (match poll {
                Ok(poll) => Ok(poll),
                Err(error) => Err(error@),
            }) == request@.followed(settled(Method::Post, "/api/tasks/create"@, exchange)),
    {
        match settle(Method::Post, "/api/tasks/create", exchange) {
            Ok(task_id) => {
                let timeout_seconds: u64 = match request.timeout_seconds {
                    Some(seconds) => seconds,
                    None => DEFAULT_TIMEOUT_SECONDS,
                };
                Ok(Poll { task_id, timeout_seconds })
            },
            Err(error) => Err(error),
        }
    }
}

// ---------------------------------------------------------------------------
// Laws
// ---------------------------------------------------------------------------

/// One look at a task: how long after the task was handed over, and what it
/// would show.
pub struct Look {
    pub elapsed_nanos: u128,
    pub seen: Result<StatusView, ErrorView>,
}

/// How a wait ends that takes these looks in turn, if they are enough to end
/// it.
pub open spec fn wait(poll: Poll, looks: Seq<Look>) -> Option<Result<RunResponseView, ErrorView>>
    decreases looks.len(),
{
    if looks.len() == 0 {
        None
    } else if poll.is_up(looks[0].elapsed_nanos) {
        Some(Err(ErrorView::TaskTimeout { seconds: poll.timeout_seconds }))
    } else {
        match poll.step_view(looks[0].seen) {
            Err(error) => Some(Err(error)),
            Ok(StepView::Done(response)) => Some(Ok(response)),
            Ok(StepView::Wait { .. }) => wait(poll, looks.drop_first()),
        }
    }
}

/// Whether a look comes in time and shows a task that goes on.
pub open spec fn goes_on(poll: Poll, look: Look) -> bool {
    !poll.is_up(look.elapsed_nanos) && (look.seen matches Ok(status) && !ended(status.status))
}

proof fn lemma_wait_goes_on(poll: Poll, looks: Seq<Look>, n: int)
    requires
        0 <= n <= looks.len(),
        forall|i: int| 0 <= i < n ==> goes_on(poll, #[trigger] looks[i]),
    ensures
        wait(poll, looks) == wait(poll, looks.skip(n)),
    decreases n,
{
    if n == 0 {
        assert(looks.skip(0) =~= looks);
    } else {
        assert(goes_on(poll, looks[0]));
        let rest = looks.drop_first();
        assert forall|i: int| 0 <= i < n - 1 implies goes_on(poll, #[trigger] rest[i]) by {
            assert(goes_on(poll, looks[i + 1]));
        }
        lemma_wait_goes_on(poll, rest, n - 1);
        assert(rest.skip(n - 1) =~= looks.skip(n));
    }
}

/// The wait goes on until the first look that shows an ended task, and hands
/// out what that look shows.
pub proof fn law_wait_ends_with_the_task(poll: Poll, looks: Seq<Look>, n: int, status: StatusView)
    requires
        0 <= n < looks.len(),
        forall|i: int| 0 <= i < n ==> goes_on(poll, #[trigger] looks[i]),
        !poll.is_up(looks[n].elapsed_nanos),
        looks[n].seen == Ok::<StatusView, ErrorView>(status),
        ended(status.status),
    ensures
        wait(poll, looks) == Some(Ok::<RunResponseView, ErrorView>(poll.response_view(status))),
{
    lemma_wait_goes_on(poll, looks, n);
    assert(looks.skip(n)[0] == looks[n]);
}

/// The wait ends with a timeout at the first look that comes too late, whatever
/// the task would show then.
pub proof fn law_wait_ends_when_time_is_up(poll: Poll, looks: Seq<Look>, n: int)
    requires
        0 <= n < looks.len(),
        forall|i: int| 0 <= i < n ==> goes_on(poll, #[trigger] looks[i]),
        poll.is_up(looks[n].elapsed_nanos),
    ensures
        wait(poll, looks) == Some(
            Err::<RunResponseView, ErrorView>(
                ErrorView::TaskTimeout { seconds: poll.timeout_seconds },
            ),
        ),
{
    lemma_wait_goes_on(poll, looks, n);
    assert(looks.skip(n)[0] == looks[n]);
}

/// The first look that fails, wherever it comes, ends the wait with its error.
pub proof fn law_failed_look_ends_the_wait(
    poll: Poll,
    looks: Seq<Look>,
    n: int,
    error: ErrorView,
)
    requires
        0 <= n < looks.len(),
        forall|i: int| 0 <= i < n ==> goes_on(poll, #[trigger] looks[i]),
        !poll.is_up(looks[n].elapsed_nanos),
        looks[n].seen == Err::<StatusView, ErrorView>(error),
    ensures
        wait(poll, looks) == Some(Err::<RunResponseView, ErrorView>(error)),
{
    lemma_wait_goes_on(poll, looks, n);
    assert(looks.skip(n)[0] == looks[n]);
}

/// A wait goes the way that its acts lead: it is woken, looks at the task, and
/// after a pause does the same again, until an act ends it.
pub proof fn law_wait_follows_the_acts(poll: Poll, client: ClientView, looks: Seq<Look>)
    requires
        looks.len() > 0,
    ensures
        wait(poll, looks) == (match poll.act_when_woken(client, looks[0].elapsed_nanos) {
            ActView::End(result) => Some(result),
            _ => match poll.act_when_seen(looks[0].seen) {
                ActView::End(result) => Some(result),
                _ => wait(poll, looks.drop_first()),
            },
        }),
{
}

/// Whether each look comes after the pause that follows the one before.
pub open spec fn spaced(looks: Seq<Look>) -> bool {
    forall|i: int|
        0 < i < looks.len() ==> (#[trigger] looks[i]).elapsed_nanos >= looks[i - 1].elapsed_nanos
            + POLL_MILLIS * 1_000_000
}

proof fn lemma_spaced_looks_take_time(looks: Seq<Look>, n: int)
    requires
        spaced(looks),
        0 <= n < looks.len(),
    ensures
        looks[n].elapsed_nanos >= n * 500_000_000,
    decreases n,
{
    if n > 0 {
        lemma_spaced_looks_take_time(looks, n - 1);
        assert(looks[n].elapsed_nanos >= looks[n - 1].elapsed_nanos + POLL_MILLIS * 1_000_000);
    }
}

proof fn lemma_open_wait_goes_on(poll: Poll, looks: Seq<Look>, n: int)
    requires
        wait(poll, looks) is None,
        0 <= n < looks.len(),
    ensures
        goes_on(poll, looks[n]),
    decreases looks.len(),
{
    if n > 0 {
        lemma_open_wait_goes_on(poll, looks.drop_first(), n - 1);
    }
}

/// With the pauses kept, at most two looks for each second of the task's time
/// come in time.
pub proof fn law_looks_are_few(poll: Poll, looks: Seq<Look>)
    requires
        spaced(looks),
        forall|i: int| 0 <= i < looks.len() ==> !poll.is_up((#[trigger] looks[i]).elapsed_nanos),
    ensures
        looks.len() <= 2 * poll.timeout_seconds,
{
    if looks.len() > 0 {
        let last = looks.len() - 1;
        lemma_spaced_looks_take_time(looks, last);
        assert(!poll.is_up(looks[last].elapsed_nanos));
    }
}

/// With the pauses kept, a wait is over after two looks for each second of the
/// task's time and one more.
pub proof fn law_wait_ends(poll: Poll, looks: Seq<Look>)
    requires
        spaced(looks),
        looks.len() > 2 * poll.timeout_seconds,
    ensures
        wait(poll, looks) is Some,
{
    if wait(poll, looks) is None {
        assert forall|i: int| 0 <= i < looks.len() implies !poll.is_up(
            (#[trigger] looks[i]).elapsed_nanos,
        ) by {
            lemma_open_wait_goes_on(poll, looks, i);
        }
        law_looks_are_few(poll, looks);
    }
}

/// A response that comes out of a wait is that of an ended task, under the
/// identifier that was waited for.
pub proof fn law_only_ended_tasks_are_handed_out(poll: Poll, looks: Seq<Look>)
    ensures
        wait(poll, looks) matches Some(Ok(response)) ==> ended(response.status) && response.task_id
            == poll.task_id,
    decreases looks.len(),
{
    if looks.len() > 0 {
        law_only_ended_tasks_are_handed_out(poll, looks.drop_first());
    }
}

/// A task for a model is handed over: a model's identifier, without a slash and
/// not blank, and a prompt that is not blank are enough.
pub proof fn law_model_and_prompt_are_enough(request: RunRequestView, id: Seq<char>)
    requires
        request.capability_urn is None,
        request.model_id == Some(id),
        trimmed(id).len() > 0,
        !trimmed(id).contains('/'),
        trimmed(request.prompt).len() > 0,
    ensures
        request.refusal() is None,
{
    law_model_urn_is_accepted(trimmed(id));
}

/// A task for a model whose identifier holds a slash is refused, unless a URN is
/// given.
pub proof fn law_task_for_a_model_with_a_slash_is_refused(request: RunRequestView, id: Seq<char>)
    requires
        request.capability_urn is None,
        request.model_id == Some(id),
        trimmed(id).contains('/'),
    ensures
        request.refusal() is Some,
{
    law_model_with_a_slash_is_refused(trimmed(id));
}

/// A task for a capability is handed over: a URN that names one and a prompt
/// that is not blank are enough.
pub proof fn law_urn_and_prompt_are_enough(request: RunRequestView, urn: Seq<char>)
    requires
        request.capability_urn == Some(urn),
        urn_parsed(urn) is Ok,
        trimmed(request.prompt).len() > 0,
    ensures
        request.refusal() is None,
{
}

/// A task with a blank prompt is refused, whatever it is for.
pub proof fn law_blank_prompt_is_refused(request: RunRequestView)
    requires
        trimmed(request.prompt).len() == 0,
    ensures
        request.refusal() is Some,
{
}

/// A task that names neither a capability nor a model is refused.
pub proof fn law_some_model_is_required(request: RunRequestView)
    requires
        request.capability_urn is None,
        request.model_id is None,
    ensures
        request.refusal() == Some(
            ErrorView::Invalid("run_subagent requires `capability_urn` or `model_id`"@),
        ),
{
}

/// The case of the letters of a status makes no difference.
pub proof fn law_case_of_a_status_makes_no_difference(left: Seq<char>, right: Seq<char>)
    requires
        folded(left) == folded(right),
    ensures
        ended(left) == ended(right),
{
}

/// What a task carries is what the request asks for: its tenant, its sensitivity
/// tier, its jurisdictions, its budget, its prompt, and its profile or the
/// default one.
pub proof fn law_task_carries_the_request(request: RunRequestView, task_id: Uuid)
    ensures
        request.task(task_id) matches Ok(task) ==> {
            &&& task.task_id == task_id
            &&& request.resolved_urn() == Ok::<Seq<char>, ErrorView>(task.urn)
            &&& task.tenant_id == request.tenant_id
            &&& task.sensitivity_required == request.sensitivity_required
            &&& task.jurisdiction_required == request.jurisdiction_required
            &&& task.credits_budget == request.credits_budget
            &&& task.prompt == request.prompt
            &&& request.profile matches Some(profile) ==> task.profile == profile
            &&& request.profile is None ==> task.profile == "default"@
        },
{
}

/// There is a task if and only if a capability is named and the prompt is not
/// blank. Where no capability is named that is why there is none, blank prompt or
/// not.
pub proof fn law_when_there_is_a_task(request: RunRequestView, task_id: Uuid)
    ensures
        request.task(task_id) is Ok <==> request.resolved_urn() is Ok && trimmed(
            request.prompt,
        ).len() > 0,
        request.resolved_urn() matches Err(error) ==> request.task(task_id) == Err::<
            TaskView,
            ErrorView,
        >(error),
        request.resolved_urn() is Ok && trimmed(request.prompt).len() == 0 ==> request.task(task_id)
            == Err::<TaskView, ErrorView>(ErrorView::Invalid("prompt is empty"@)),
{
}

/// A task is made of the URN that is given, and of nothing where the URN is
/// missing or the prompt is blank.
pub proof fn law_task_for_a_given_urn(
    request: RunRequestView,
    urn: Result<Seq<char>, ErrorView>,
    blank: bool,
    task_id: Uuid,
)
    ensures
        urn matches Err(error) ==> request.task_given(urn, blank, task_id) == Err::<
            TaskView,
            ErrorView,
        >(error),
        urn is Ok && blank ==> request.task_given(urn, blank, task_id) == Err::<
            TaskView,
            ErrorView,
        >(ErrorView::Invalid("prompt is empty"@)),
        urn is Ok && !blank ==> (request.task_given(urn, blank, task_id) matches Ok(task)
            && task.urn == urn->Ok_0 && task.task_id == task_id && task.tenant_id
            == request.tenant_id && task.sensitivity_required == request.sensitivity_required
            && task.jurisdiction_required == request.jurisdiction_required && task.credits_budget
            == request.credits_budget && task.prompt == request.prompt && task.profile == (
        match request.profile {
            Some(profile) => profile,
            None => "default"@,
        })),
{
}

/// Why a request is refused: it names no capability; else its prompt is blank;
/// else its URN names none. There is no other reason.
pub proof fn law_reasons_to_refuse(request: RunRequestView)
    ensures
        request.resolved_urn() matches Err(error) ==> request.refusal() == Some(error),
        request.resolved_urn() is Ok && trimmed(request.prompt).len() == 0 ==> request.refusal()
            == Some(ErrorView::Invalid("prompt is empty"@)),
        request.resolved_urn() is Ok && trimmed(request.prompt).len() > 0 ==> {
            &&& urn_parsed(request.resolved_urn()->Ok_0) matches Err(error) ==> request.refusal()
                == Some(error)
            &&& urn_parsed(request.resolved_urn()->Ok_0) is Ok ==> request.refusal() is None
        },
{
}

/// What is posted for a request carries the request: it goes to the control plane
/// under the client's key, its origin and its payload's tenant are the request's
/// tenant, and the other settings, the prompt and the capability are the
/// request's.
pub proof fn law_submission_carries_the_request(
    request: RunRequestView,
    client: ClientView,
    task_id: Uuid,
    span: Uuid,
    now: Moment,
)
    requires
        request.refusal() is None,
        now.reaches(60),
    ensures
        request.submission(client, task_id, span, now) is Ok,
        ({
            let posted = request.submission(client, task_id, span, now)->Ok_0;
            let body = posted.body->Some_0;
            let payload = body.get("payload"@)->Some_0;
            let capability = urn_parsed(request.resolved_urn()->Ok_0)->Ok_0;
            &&& posted.method == Method::Post
            &&& posted.url == url_of(client.base_url, "/api/tasks/create"@)
            &&& posted.api_key == client.api_key
            &&& posted.body is Some
            &&& body.get("payload"@) is Some
            &&& body.get("task_id"@) == Some(JsonView::Text(hyphenated_form(task_id.bits)))
            &&& body.get("idempotency_key"@) == Some(JsonView::Text(simple_form(task_id.bits)))
            &&& body.get("traceparent"@) == Some(JsonView::Text(traceparent_of(task_id, span)))
            &&& body.get("origin_user_id"@) == Some(
                JsonView::Text(
                    hyphenated_form(
                        match request.tenant_id {
                            Some(id) => id.bits,
                            None => 0,
                        },
                    ),
                ),
            )
            &&& body.get("budget_context"@) == Some(
                JsonView::Object(
                    map![
                        "input_tokens_remaining"@ => JsonView::Int(4096),
                        "output_tokens_remaining"@ => JsonView::Int(4096),
                        "credits_remaining"@ => JsonView::Int(
                            match request.credits_budget {
                                Some(credits) => credits as int,
                                None => 1000,
                            },
                        ),
                        "spawn_depth_remaining"@ => JsonView::Int(4),
                        "wall_clock_deadline"@ => JsonView::Text(
                            rfc3339_form((now.seconds + 60) as i64, now.nanos),
                        ),
                    ],
                ),
            )
            &&& payload.get("task_id"@) == Some(JsonView::Text(hyphenated_form(task_id.bits)))
            &&& payload.get("tenant_id"@) == (match request.tenant_id {
                Some(id) => Some(JsonView::Text(hyphenated_form(id.bits))),
                None => None,
            })
            &&& payload.get("sensitivity_required"@) == (match request.sensitivity_required {
                Some(tier) => Some(JsonView::Text(tier)),
                None => None,
            })
            &&& request.jurisdiction_required.len() == 0 ==> payload.get(
                "jurisdiction_required"@,
            ) is None
            &&& request.jurisdiction_required.len() > 0 ==> payload.get("jurisdiction_required"@)
                == Some(
                JsonView::Array(
                    Seq::new(
                        request.jurisdiction_required.len(),
                        |i: int| JsonView::Text(request.jurisdiction_required[i]),
                    ),
                ),
            )
            &&& payload.get("capability_urn"@) == Some(
                JsonView::Object(
                    map![
                        "namespace"@ => JsonView::Text(capability.namespace),
                        "domain"@ => JsonView::Text(capability.domain),
                        "operation"@ => JsonView::Text(capability.operation),
                        "version"@ => JsonView::Int(capability.version as int),
                    ],
                ),
            )
            &&& payload.get("payload"@) == Some(
                JsonView::Object(
                    map![
                        "profile"@ => JsonView::Text(
                            match request.profile {
                                Some(profile) => profile,
                                None => "default"@,
                            },
                        ),
                        "prompt"@ => JsonView::Text(request.prompt),
                    ],
                ),
            )
        }),
{
    let task = request.task(task_id)->Ok_0;
    let capability = urn_parsed(task.urn)->Ok_0;
    let deadline = rfc3339_form((now.seconds + 60) as i64, now.nanos);
    law_body_is_due_in_a_minute(task, span, now);
    law_one_task_throughout(task, capability, span, deadline);
    law_budget_and_origin(task, capability, span, deadline);
    law_budget_is_five_limits(task, deadline);
    law_payload_is_the_task(task, capability, Seq::empty());
    if request.jurisdiction_required.len() > 0 {
        law_every_jurisdiction_is_required(task, capability);
        let items = task.payload(capability).get("jurisdiction_required"@)->Some_0->Array_0;
        assert(items =~= Seq::new(
            request.jurisdiction_required.len(),
            |i: int| JsonView::Text(request.jurisdiction_required[i]),
        ));
    }
}

/// A submission is missing only where the request is good and the moment sixty
/// seconds later has no calendar date.
pub proof fn law_submissions_that_are_missing(
    request: RunRequestView,
    client: ClientView,
    task_id: Uuid,
    span: Uuid,
    now: Moment,
)
    ensures
        request.refusal() matches Some(error) ==> request.submission_if_due(
            client,
            task_id,
            span,
            now,
        ) == Some(Err::<HttpRequestView, ErrorView>(error)),
        request.refusal() is None && now.reaches(60) ==> request.submission_if_due(
            client,
            task_id,
            span,
            now,
        ) == Some(request.submission(client, task_id, span, now)),
        request.refusal() is None && !now.reaches(60) ==> request.submission_if_due(
            client,
            task_id,
            span,
            now,
        ) is None,
{
    law_refusal_is_settled_by_the_request(request, client, task_id, span, now);
}

/// A task may take as long as its request says, or a minute.
pub proof fn law_time_that_a_task_has(request: RunRequestView)
    ensures
        request.timeout_seconds matches Some(seconds) ==> request.timeout() == seconds,
        request.timeout_seconds is None ==> request.timeout() == 60,
{
}

/// The task that is followed is the one that the control plane made, for as long
/// as the request says or a minute; where it made none, its failure is the
/// outcome.
pub proof fn law_the_task_made_is_followed(
    request: RunRequestView,
    task_id: Uuid,
    error: ErrorView,
)
    ensures
        request.followed(Ok(task_id)) matches Ok(poll) && poll.task_id == task_id && (
        request.timeout_seconds matches Some(seconds) ==> poll.timeout_seconds == seconds) && (
        request.timeout_seconds is None ==> poll.timeout_seconds == 60),
        request.followed(Err(error)) == Err::<Poll, ErrorView>(error),
{
}

/// What is shown of a task is all that its fields say.
pub proof fn law_status_is_its_fields(status: TaskStatus)
    ensures
        status@.status == status.status@,
        status.output matches Some(json) ==> status@.output == Some(json@),
        status.output is None ==> status@.output is None,
        status@.last_error == text_if_any(status.last_error),
{
}

/// A step is what it says.
pub proof fn law_step_is_what_it_says(response: RunSubagentResponse, millis: u64)
    ensures
        PollStep::Done(response)@ == StepView::Done(response@),
        (PollStep::Wait { millis })@ == (StepView::Wait { millis }),
{
}

/// An act is what it says.
pub proof fn law_act_is_what_it_says(
    request: HttpRequest,
    response: RunSubagentResponse,
    error: GatewayError,
    millis: u64,
)
    ensures
        WaitAct::Look(request)@ == ActView::Look(request@),
        (WaitAct::Pause { millis })@ == (ActView::Pause { millis }),
        WaitAct::End(Ok(response))@ == ActView::End(Ok::<RunResponseView, ErrorView>(response@)),
        WaitAct::End(Err(error))@ == ActView::End(Err::<RunResponseView, ErrorView>(error@)),
{
}

/// Whether two texts have the same letters in the same places, in either case.
pub open spec fn same_word(left: Seq<char>, right: Seq<char>) -> bool {
    left.len() == right.len() && forall|i: int|
        0 <= i < left.len() ==> same_letter(#[trigger] left[i], right[i])
}

/// A task has ended if and only if its status is one of five words, in letters of
/// either case.
pub proof fn law_five_words_say_ended(status: Seq<char>)
    ensures
        ended(status) <==> same_word(status, "succeeded"@) || same_word(status, "completed"@)
            || same_word(status, "failed"@) || same_word(status, "timed_out"@) || same_word(
            status,
            "cancelled"@,
        ),
{
    law_folding_forgets_case_alone(status, "succeeded"@);
    law_folding_forgets_case_alone(status, "completed"@);
    law_folding_forgets_case_alone(status, "failed"@);
    law_folding_forgets_case_alone(status, "timed_out"@);
    law_folding_forgets_case_alone(status, "cancelled"@);
}

/// A look is a request for the task under its identifier, as long as less than
/// its time has gone by; after that there is none, but the error that its time is
/// up.
pub proof fn law_looks_are_for_the_task(poll: Poll, client: ClientView, elapsed_nanos: u128)
    ensures
        elapsed_nanos < 1_000_000_000 * poll.timeout_seconds ==> poll.look_view(
            client,
            elapsed_nanos,
        ) == Ok::<HttpRequestView, ErrorView>(
            client.get("/api/tasks/"@ + hyphenated_form(poll.task_id.bits)),
        ),
        elapsed_nanos >= 1_000_000_000 * poll.timeout_seconds ==> poll.look_view(
            client,
            elapsed_nanos,
        ) == Err::<HttpRequestView, ErrorView>(
            ErrorView::TaskTimeout { seconds: poll.timeout_seconds },
        ),
        poll.is_up(elapsed_nanos) <==> elapsed_nanos >= 1_000_000_000 * poll.timeout_seconds,
{
}

/// What a look showed is what was decoded, and the control plane's failure where
/// nothing was.
pub proof fn law_looks_show_what_was_decoded(
    path: Seq<char>,
    status: TaskStatus,
    exchange: Exchange<TaskStatus>,
)
    ensures
        seen(path, Exchange::Decoded(status)) == Ok::<StatusView, ErrorView>(status@),
        settled(Method::Get, path, exchange) matches Err(error) ==> seen(path, exchange) == Err::<
            StatusView,
            ErrorView,
        >(error),
{
}

/// A task that has ended is handed out with what it showed: its status, its
/// output and its error, under the identifier that was looked at.
pub proof fn law_ended_task_is_handed_out_whole(poll: Poll, status: StatusView)
    requires
        ended(status.status),
    ensures
        poll.step_view(Ok(status)) matches Ok(StepView::Done(response)) && response.task_id
            == poll.task_id && response.status == status.status && response.output
            == status.output && response.error == status.last_error,
        poll.act_when_seen(Ok(status)) matches ActView::End(Ok(response)) && response.task_id
            == poll.task_id && response.status == status.status && response.output
            == status.output && response.error == status.last_error,
{
}

/// A task that goes on is looked at again after half a second, and a look that
/// failed ends the wait with its error.
pub proof fn law_other_looks(poll: Poll, status: StatusView, error: ErrorView)
    ensures
        !ended(status.status) ==> poll.step_view(Ok(status)) == Ok::<StepView, ErrorView>(
            StepView::Wait { millis: 500 },
        ) && poll.act_when_seen(Ok(status)) == (ActView::Pause { millis: 500 }),
        poll.step_view(Err(error)) == Err::<StepView, ErrorView>(error),
        poll.act_when_seen(Err(error)) == ActView::End(Err::<RunResponseView, ErrorView>(error)),
{
}

/// On waking, a wait looks at the task while its time is not up, and ends with
/// that error when it is.
pub proof fn law_waking(poll: Poll, client: ClientView, elapsed_nanos: u128)
    ensures
        poll.look_view(client, elapsed_nanos) matches Ok(request) ==> poll.act_when_woken(
            client,
            elapsed_nanos,
        ) == ActView::Look(request),
        poll.look_view(client, elapsed_nanos) matches Err(error) ==> poll.act_when_woken(
            client,
            elapsed_nanos,
        ) == ActView::End(Err::<RunResponseView, ErrorView>(error)),
{
}

} // verus!
