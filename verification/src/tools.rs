//! The tools: what callers ask for, what they get, and what it costs.

use crate::client::{settle, settled, Exchange, HoneycombClient, HttpRequest, Method};
use crate::error::{outcome, ErrorView, GatewayError, GatewayResult};
use crate::ids::Uuid;
use crate::json::{Json, JsonView};
use crate::size::{class, class_of, Class};
use crate::text::{contains, lowercased, occurs, replaced, text_if_any, trim, trimmed};
use crate::urn::{
    law_urn_reads_back, model_urn, urn_for_model, urn_parsed, CapabilityUrn, UrnView,
};
use vstd::prelude::*;

verus! {

broadcast use vstd::string::group_string_axioms;

// ---------------------------------------------------------------------------
// Requests and responses
// ---------------------------------------------------------------------------

/// One capability that the control plane advertises.
#[derive(Debug, Clone)]
pub struct CapabilityInfo {
    pub urn: String,
    pub workload: String,
    pub description: String,
    pub model_ref: String,
    pub lora_ref: Option<String>,
    pub latency_p50_ms: u32,
    pub min_tier_band: String,
    pub lifecycle: String,
}

/// The capabilities that are on offer.
#[derive(Debug, Clone)]
pub struct DescribeClusterResponse {
    pub capabilities: Vec<CapabilityInfo>,
}

/// A task to run: a prompt, which says what to do, and the model to run it on.
///
/// The model is named by `capability_urn` or by `model_id`; if both are given,
/// `capability_urn` wins. `profile` names the comb-side profile and defaults
/// to `"default"`; `timeout_seconds` defaults to 60. The other fields come from
/// the tenant's gateway and pass through to the control plane.
#[derive(Debug, Clone)]
pub struct RunSubagentRequest {
    pub model_id: Option<String>,
    pub capability_urn: Option<String>,
    pub prompt: String,
    pub profile: Option<String>,
    pub timeout_seconds: Option<u64>,
    /// The tenant that the call belongs to.
    pub tenant_id: Option<Uuid>,
    /// The sensitivity tier that the task requires.
    pub sensitivity_required: Option<String>,
    /// The jurisdictions that the executing comb must satisfy.
    pub jurisdiction_required: Vec<String>,
    /// The credits that the task may spend.
    pub credits_budget: Option<i64>,
}

/// What a task to run is.
pub struct RunRequestView {
    pub model_id: Option<Seq<char>>,
    pub capability_urn: Option<Seq<char>>,
    pub prompt: Seq<char>,
    pub profile: Option<Seq<char>>,
    pub timeout_seconds: Option<u64>,
    pub tenant_id: Option<Uuid>,
    pub sensitivity_required: Option<Seq<char>>,
    pub jurisdiction_required: Seq<Seq<char>>,
    pub credits_budget: Option<i64>,
}

impl View for RunSubagentRequest {
    type V = RunRequestView;

    open spec fn view(&self) -> RunRequestView {
        RunRequestView {
            model_id: self.model_id.deep_view(),
            capability_urn: self.capability_urn.deep_view(),
            prompt: self.prompt@,
            profile: self.profile.deep_view(),
            timeout_seconds: self.timeout_seconds,
            tenant_id: self.tenant_id,
            sensitivity_required: self.sensitivity_required.deep_view(),
            jurisdiction_required: self.jurisdiction_required.deep_view(),
            credits_budget: self.credits_budget,
        }
    }
}

/// How a task ended.
#[derive(Debug, Clone)]
pub struct RunSubagentResponse {
    pub task_id: Uuid,
    pub status: String,
    pub output: Option<Json>,
    pub error: Option<String>,
}

/// What is known of how a task ended.
pub struct RunResponseView {
    pub task_id: Uuid,
    pub status: Seq<char>,
    pub output: Option<JsonView>,
    pub error: Option<Seq<char>>,
}

/// What an optional JSON value is.
pub open spec fn optional_json(json: Option<Json>) -> Option<JsonView> {
    match json {
        Some(json) => Some(json@),
        None => None,
    }
}

impl View for RunSubagentResponse {
    type V = RunResponseView;

    open spec fn view(&self) -> RunResponseView {
        RunResponseView {
            task_id: self.task_id,
            status: self.status@,
            output: optional_json(self.output),
            error: self.error.deep_view(),
        }
    }
}

/// A call whose cost is asked for.
#[derive(Debug, Clone)]
pub struct EstimateCostRequest {
    pub capability_urn: String,
    pub input_size_tokens: u64,
}

/// What a call is expected to cost, and how that was worked out.
#[derive(Debug, Clone)]
pub struct EstimateCostResponse {
    pub credits_estimate: u64,
    pub multipliers_applied: Json,
}

impl RunRequestView {
    /// The URN of the capability that the task is for.
    pub open spec fn resolved_urn(self) -> Result<Seq<char>, ErrorView> {
        match self.capability_urn {
            Some(urn) => Ok(urn),
            None => match self.model_id {
                Some(id) => model_urn(trimmed(id)),
                None => Err(
                    ErrorView::Invalid("run_subagent requires `capability_urn` or `model_id`"@),
                ),
            },
        }
    }
}

impl RunRequestView {
    /// What is taken of a task that a raw caller asks for: it sets neither the
    /// tenant nor the sensitivity tier.
    pub open spec fn for_raw_caller(self) -> RunRequestView {
        RunRequestView { tenant_id: None, sensitivity_required: None, ..self }
    }
}

impl RunSubagentRequest {
    /// The URN of the capability that the task is for: the given URN if there
    /// is one, else that of the model.
    pub fn resolved_capability_urn(&self) -> (urn: GatewayResult<String>)
        ensures
            outcome(urn) == self@.resolved_urn(),
    {
        match &self.capability_urn {
            Some(urn) => Ok(urn.clone()),
            None => match &self.model_id {
                Some(id) => urn_for_model(trim(id)),
                None => Err(
                    GatewayError::invalid("run_subagent requires `capability_urn` or `model_id`"),
                ),
            },
        }
    }
}

/// A URN that is given wins over a model.
pub proof fn law_explicit_urn_wins(request: RunRequestView, urn: Seq<char>)
    requires
        request.capability_urn == Some(urn),
    ensures
        request.resolved_urn() == Ok::<Seq<char>, ErrorView>(urn),
{
}

// ---------------------------------------------------------------------------
// Cost
// ---------------------------------------------------------------------------

/// A price: credits for a thousand tokens, and the category it is for.
pub struct Tier {
    pub credits_per_1k: u64,
    pub category: Seq<char>,
}

/// The part of a URN that names the model: its operation, or all of a text that
/// is no URN.
pub open spec fn model_name(urn: Seq<char>) -> Seq<char> {
    match urn_parsed(urn) {
        Ok(capability) => capability.operation,
        Err(_) => urn,
    }
}

/// The price of the capability whose URN, in lower case, is `urn`. The largest
/// models, GPUs, code and the web have prices of their own; other models are
/// priced by their class.
pub open spec fn tier_of(urn: Seq<char>) -> Tier {
    let class = class_of(model_name(urn));
    if occurs(urn, "70b"@) {
        Tier { credits_per_1k: 100, category: "inference/70b-cpu"@ }
    } else if occurs(urn, "13b"@) {
        match class {
            Class::Tiny => Tier { credits_per_1k: 5, category: "inference/tiny-cpu"@ },
            Class::Small => Tier { credits_per_1k: 20, category: "inference/7b-cpu"@ },
            Class::Large => Tier { credits_per_1k: 40, category: "inference/13b-cpu"@ },
            Class::Other => Tier { credits_per_1k: 30, category: "inference/13b-cpu"@ },
        }
    } else if occurs(urn, "gpu"@) {
        Tier { credits_per_1k: 5, category: "inference/7b-gpu"@ }
    } else if occurs(urn, "/code/"@) || occurs(urn, "/exec/"@) {
        Tier { credits_per_1k: 2000, category: "code/exec"@ }
    } else if occurs(urn, "/web/"@) || occurs(urn, "/search/"@) {
        Tier { credits_per_1k: 5000, category: "web/search"@ }
    } else {
        match class {
            Class::Tiny => Tier { credits_per_1k: 5, category: "inference/tiny-cpu"@ },
            Class::Large => Tier { credits_per_1k: 40, category: "inference/large-cpu"@ },
            _ => Tier { credits_per_1k: 20, category: "inference/7b-cpu"@ },
        }
    }
}

/// The class of the model that a URN, in lower case, names.
fn model_class(urn: &str) -> (answer: Class)
    ensures
        answer == class_of(model_name(urn@)),
{
    match CapabilityUrn::parse(urn) {
        Ok(capability) => class(&capability.operation),
        Err(_) => class(urn),
    }
}

/// The price of the capability whose URN, in lower case, is `urn`: credits for
/// a thousand tokens, and the category.
pub fn tier(urn: &str) -> (tier: (u64, &'static str))
    ensures
        tier.0 == tier_of(urn@).credits_per_1k,
        tier.1@ == tier_of(urn@).category,
{
    if contains(urn, "70b") {
        (100, "inference/70b-cpu")
    } else if contains(urn, "13b") {
        match model_class(urn) {
            Class::Tiny => (5, "inference/tiny-cpu"),
            Class::Small => (20, "inference/7b-cpu"),
            Class::Large => (40, "inference/13b-cpu"),
            Class::Other => (30, "inference/13b-cpu"),
        }
    } else if contains(urn, "gpu") {
        (5, "inference/7b-gpu")
    } else if contains(urn, "/code/") || contains(urn, "/exec/") {
        (2000, "code/exec")
    } else if contains(urn, "/web/") || contains(urn, "/search/") {
        (5000, "web/search")
    } else {
        match model_class(urn) {
            Class::Tiny => (5, "inference/tiny-cpu"),
            Class::Large => (40, "inference/large-cpu"),
            _ => (20, "inference/7b-cpu"),
        }
    }
}

/// Whether the cost of so many tokens can be worked out in 64 bits.
pub open spec fn priceable(tokens: u64, credits_per_1k: u64) -> bool {
    tokens * credits_per_1k + 999 <= u64::MAX
}

/// What so many tokens cost: the price for each thousand and for what is left,
/// in whole credits, and one credit at the least.
pub open spec fn credits_of(tokens: nat, credits_per_1k: nat) -> nat {
    let credits = (tokens * credits_per_1k + 999) / 1000;
    if credits < 1 {
        1
    } else {
        credits
    }
}

/// What so many tokens cost.
pub fn credits(tokens: u64, credits_per_1k: u64) -> (credits: u64)
    requires
        priceable(tokens, credits_per_1k),
    ensures
        credits == credits_of(tokens as nat, credits_per_1k as nat),
{
    let credits: u64 = (tokens * credits_per_1k + 999) / 1000;
    if credits < 1 {
        1
    } else {
        credits
    }
}

/// How an estimate was worked out.
pub open spec fn multipliers(urn: Seq<char>, tokens: u64, tier: Tier) -> JsonView {
    JsonView::object().with("capability_urn"@, JsonView::Text(urn)).with(
        "category"@,
        JsonView::Text(tier.category),
    ).with("credits_per_1k_tokens"@, JsonView::Int(tier.credits_per_1k as int)).with(
        "input_size_tokens"@,
        JsonView::Int(tokens as int),
    ).with(
        "note"@,
        JsonView::Text(
            "Phase 1 estimate — based on model size from URN, not profiled benchmarks"@,
        ),
    )
}

/// The estimate for a capability whose URN, in lower case, is `lower`.
pub fn estimate(request: &EstimateCostRequest, lower: &str) -> (response: EstimateCostResponse)
    requires
        priceable(request.input_size_tokens, tier_of(lower@).credits_per_1k),
    ensures
        response.credits_estimate == credits_of(
            request.input_size_tokens as nat,
            tier_of(lower@).credits_per_1k as nat,
        ),
        response.multipliers_applied@ == multipliers(
            request.capability_urn@,
            request.input_size_tokens,
            tier_of(lower@),
        ),
{
    let (credits_per_1k, category) = tier(lower);
    let multipliers_applied = Json::object().with(
        "capability_urn",
        Json::text(&request.capability_urn),
    ).with("category", Json::text(category)).with(
        "credits_per_1k_tokens",
        Json::UInt(credits_per_1k),
    ).with("input_size_tokens", Json::UInt(request.input_size_tokens)).with(
        "note",
        Json::text("Phase 1 estimate — based on model size from URN, not profiled benchmarks"),
    );
    EstimateCostResponse {
        credits_estimate: credits(request.input_size_tokens, credits_per_1k),
        multipliers_applied,
    }
}

/// Whether `urn` names something that has a price of its own, whatever the size
/// of the model: the largest models, a GPU, code or the web.
pub open spec fn priced_apart(urn: Seq<char>) -> bool {
    ||| occurs(urn, "70b"@)
    ||| occurs(urn, "gpu"@)
    ||| occurs(urn, "/code/"@)
    ||| occurs(urn, "/exec/"@)
    ||| occurs(urn, "/web/"@)
    ||| occurs(urn, "/search/"@)
}

/// A thousand tokens cost 5 credits on a tiny model, 20 on a small one and 40 to
/// 100 on a large one. On a model of any other size they cost 20, or 30 where
/// the URN holds `13b`.
pub proof fn law_price_goes_by_size(urn: Seq<char>)
    requires
        !priced_apart(urn),
    ensures
        match class_of(model_name(urn)) {
            Class::Tiny => tier_of(urn).credits_per_1k == 5,
            Class::Small => tier_of(urn).credits_per_1k == 20,
            Class::Large => 40 <= tier_of(urn).credits_per_1k <= 100,
            Class::Other => tier_of(urn).credits_per_1k == if occurs(urn, "13b"@) {
                30u64
            } else {
                20u64
            },
        },
{
}

/// The operation of a URN names the model, and nothing else in the URN does.
pub proof fn law_operation_names_the_model(capability: UrnView)
    requires
        !capability.namespace.contains('/'),
        !capability.domain.contains('/'),
        !capability.operation.contains('/'),
    ensures
        model_name(capability.text()) == capability.operation,
{
    law_urn_reads_back(capability);
}

/// A call costs one credit at the least.
pub proof fn law_at_least_one_credit(tokens: nat, credits_per_1k: nat)
    ensures
        credits_of(tokens, credits_per_1k) >= 1,
{
}

/// The cost is rounded up: it covers the price of the tokens, and one credit
/// less would not, unless it is the least that is asked.
pub proof fn law_cost_is_rounded_up(tokens: nat, credits_per_1k: nat)
    ensures
        credits_of(tokens, credits_per_1k) * 1000 >= tokens * credits_per_1k,
        credits_of(tokens, credits_per_1k) > 1 ==> (credits_of(tokens, credits_per_1k) - 1) * 1000
            < tokens * credits_per_1k,
{
}

/// More tokens never cost less.
pub proof fn law_cost_grows_with_tokens(fewer: nat, more: nat, credits_per_1k: nat)
    requires
        fewer <= more,
    ensures
        credits_of(fewer, credits_per_1k) <= credits_of(more, credits_per_1k),
{
    assert(fewer * credits_per_1k <= more * credits_per_1k) by (nonlinear_arith)
        requires
            fewer <= more,
    ;
}

/// A thousand tokens cost the price for a thousand, and so many thousands so
/// many times that.
pub proof fn law_cost_of_whole_thousands(thousands: nat, credits_per_1k: nat)
    requires
        thousands > 0,
        credits_per_1k > 0,
    ensures
        credits_of(1000 * thousands, credits_per_1k) == thousands * credits_per_1k,
{
    assert(1000 * thousands * credits_per_1k == 1000 * (thousands * credits_per_1k))
        by (nonlinear_arith);
    assert(thousands * credits_per_1k >= 1) by (nonlinear_arith)
        requires
            thousands > 0,
            credits_per_1k > 0,
    ;
}

// ---------------------------------------------------------------------------
// The tools over HTTP
// ---------------------------------------------------------------------------

/// The tools, as the control plane behind `client` offers them.
#[derive(Debug)]
pub struct HttpMcpTools {
    pub client: HoneycombClient,
}

impl HttpMcpTools {
    /// The tools of the control plane behind `client`.
    pub fn new(client: HoneycombClient) -> (tools: HttpMcpTools)
        ensures
            tools.client == client,
    {
        HttpMcpTools { client }
    }

    /// The request for the capabilities on offer.
    pub fn describe_cluster_request(&self) -> (request: HttpRequest)
        ensures
            request@ == self.client@.get("/api/capabilities"@),
    {
        self.client.get_request("/api/capabilities")
    }

    /// The capabilities on offer, from the exchange of that request.
    pub fn describe_cluster(&self, exchange: Exchange<Vec<CapabilityInfo>>) -> (response:
        GatewayResult<DescribeClusterResponse>)
        ensures
            (match response {
                Ok(response) => Ok(response.capabilities),
                Err(error) => Err(error@),
            }) == settled(Method::Get, "/api/capabilities"@, exchange),
    {
        match settle(Method::Get, "/api/capabilities", exchange) {
            Ok(capabilities) => Ok(DescribeClusterResponse { capabilities }),
            Err(error) => Err(error),
        }
    }

    /// What a call is expected to cost.
    pub fn estimate_cost(&self, request: EstimateCostRequest) -> (response: GatewayResult<
        EstimateCostResponse,
    >)
        requires
            priceable(
                request.input_size_tokens,
                tier_of(lowercased(request.capability_urn@)).credits_per_1k,
            ),
        ensures
            response matches Ok(r) && r.credits_estimate == credits_of(
                request.input_size_tokens as nat,
                tier_of(lowercased(request.capability_urn@)).credits_per_1k as nat,
            ) && r.multipliers_applied@ == multipliers(
                request.capability_urn@,
                request.input_size_tokens,
                tier_of(lowercased(request.capability_urn@)),
            ),
    {
        let lower = request.capability_urn.to_lowercase();
        Ok(estimate(&request, &lower))
    }

    /// What a call is expected to cost, or nothing if that cannot be worked out
    /// in 64 bits.
    pub fn try_estimate_cost(&self, request: EstimateCostRequest) -> (response: Option<
        GatewayResult<EstimateCostResponse>,
    >)
        ensures
            response is Some <==> priceable(
                request.input_size_tokens,
                tier_of(lowercased(request.capability_urn@)).credits_per_1k,
            ),
            response matches Some(response) ==> (response matches Ok(r) && r.credits_estimate
                == credits_of(
                request.input_size_tokens as nat,
                tier_of(lowercased(request.capability_urn@)).credits_per_1k as nat,
            ) && r.multipliers_applied@ == multipliers(
                request.capability_urn@,
                request.input_size_tokens,
                tier_of(lowercased(request.capability_urn@)),
            )),
    {
        let lower = request.capability_urn.to_lowercase();
        let (credits_per_1k, _) = tier(&lower);
        match request.input_size_tokens.checked_mul(credits_per_1k) {
            Some(product) => if product <= u64::MAX - 999 {
                Some(self.estimate_cost(request))
            } else {
                None
            },
            None => None,
        }
    }
}

// ---------------------------------------------------------------------------
// Laws of requests and responses
// ---------------------------------------------------------------------------

/// A request is all that its fields say.
pub proof fn law_request_is_its_fields(request: RunSubagentRequest)
    ensures
        request@.model_id == text_if_any(request.model_id),
        request@.capability_urn == text_if_any(request.capability_urn),
        request@.prompt == request.prompt@,
        request@.profile == text_if_any(request.profile),
        request@.timeout_seconds == request.timeout_seconds,
        request@.tenant_id == request.tenant_id,
        request@.sensitivity_required == text_if_any(request.sensitivity_required),
        request@.jurisdiction_required.len() == request.jurisdiction_required@.len(),
        forall|i: int|
            0 <= i < request.jurisdiction_required@.len()
                ==> #[trigger] request@.jurisdiction_required[i] == request.jurisdiction_required@[i]@,
        request@.credits_budget == request.credits_budget,
{
}

/// A response is all that its fields say.
pub proof fn law_response_is_its_fields(response: RunSubagentResponse)
    ensures
        response@.task_id == response.task_id,
        response@.status == response.status@,
        response.output matches Some(json) ==> response@.output == Some(json@),
        response.output is None ==> response@.output is None,
        response@.error == text_if_any(response.error),
{
}

/// An optional value is the value, where there is one.
pub proof fn law_optional_values(json: Json)
    ensures
        optional_json(Some(json)) == Some(json@),
        optional_json(None) is None,
{
}

/// A request names its capability by the URN that it gives, or else by its model,
/// whose identifier is taken without the whitespace around it.
pub proof fn law_capability_is_named_by_urn_or_model(request: RunRequestView)
    ensures
        request.capability_urn matches Some(urn) ==> request.resolved_urn() == Ok::<
            Seq<char>,
            ErrorView,
        >(urn),
        request.capability_urn is None ==> (request.model_id matches Some(id) ==> (if trimmed(
            id,
        ).len() == 0 {
            request.resolved_urn() == Err::<Seq<char>, ErrorView>(
                ErrorView::Invalid("model_id is empty"@),
            )
        } else {
            request.resolved_urn() == Ok::<Seq<char>, ErrorView>(
                "oasf://commons/inference/"@ + replaced(trimmed(id), ':', '-') + "/v1"@,
            )
        })),
        request.capability_urn is None && request.model_id is None ==> request.resolved_urn()
            == Err::<Seq<char>, ErrorView>(
            ErrorView::Invalid("run_subagent requires `capability_urn` or `model_id`"@),
        ),
{
}

/// A raw caller's request is its own but for the tenant and the sensitivity tier,
/// which it does not set.
pub proof fn law_raw_request_is_its_own(request: RunRequestView)
    ensures
        request.for_raw_caller().tenant_id is None,
        request.for_raw_caller().sensitivity_required is None,
        request.for_raw_caller().model_id == request.model_id,
        request.for_raw_caller().capability_urn == request.capability_urn,
        request.for_raw_caller().prompt == request.prompt,
        request.for_raw_caller().profile == request.profile,
        request.for_raw_caller().timeout_seconds == request.timeout_seconds,
        request.for_raw_caller().jurisdiction_required == request.jurisdiction_required,
        request.for_raw_caller().credits_budget == request.credits_budget,
{
}

// ---------------------------------------------------------------------------
// Laws of prices
// ---------------------------------------------------------------------------

/// The model that a text names is named by its operation where it is a URN, and
/// by all of it where it is none.
pub proof fn law_where_the_model_is_named(text: Seq<char>)
    ensures
        urn_parsed(text) matches Ok(capability) ==> model_name(text) == capability.operation,
        urn_parsed(text) is Err ==> model_name(text) == text,
{
}

/// Whether a capability costs so many credits for a thousand tokens, in the given
/// category.
pub open spec fn costs(urn: Seq<char>, credits_per_1k: u64, category: Seq<char>) -> bool {
    tier_of(urn).credits_per_1k == credits_per_1k && tier_of(urn).category == category
}

/// A URN that holds `70b` is priced so whatever else it holds. After it `gpu`
/// goes before code, and code before the web; either of two words for code or
/// for the web will do, and so will both. A URN with `13b` in it is priced by its
/// model.
pub proof fn law_words_with_a_price_of_their_own(urn: Seq<char>)
    ensures
        occurs(urn, "70b"@) ==> costs(urn, 100, "inference/70b-cpu"@),
        !occurs(urn, "70b"@) && !occurs(urn, "13b"@) ==> {
            &&& occurs(urn, "gpu"@) ==> costs(urn, 5, "inference/7b-gpu"@)
            &&& !occurs(urn, "gpu"@) && occurs(urn, "/code/"@) ==> costs(urn, 2000, "code/exec"@)
            &&& !occurs(urn, "gpu"@) && occurs(urn, "/exec/"@) ==> costs(urn, 2000, "code/exec"@)
            &&& !occurs(urn, "gpu"@) && !occurs(urn, "/code/"@) && !occurs(urn, "/exec/"@) ==> {
                &&& occurs(urn, "/web/"@) ==> costs(urn, 5000, "web/search"@)
                &&& occurs(urn, "/search/"@) ==> costs(urn, 5000, "web/search"@)
            }
        },
        !occurs(urn, "70b"@) && occurs(urn, "13b"@) ==> {
            &&& class_of(model_name(urn)) == Class::Large ==> costs(urn, 40, "inference/13b-cpu"@)
            &&& class_of(model_name(urn)) == Class::Small ==> costs(urn, 20, "inference/7b-cpu"@)
            &&& class_of(model_name(urn)) == Class::Tiny ==> costs(urn, 5, "inference/tiny-cpu"@)
            &&& class_of(model_name(urn)) == Class::Other ==> costs(urn, 30, "inference/13b-cpu"@)
        },
{
}

/// A URN without any such word is priced by its model, and is in the category of
/// that model's class.
pub proof fn law_models_are_priced_by_class(urn: Seq<char>)
    requires
        !priced_apart(urn),
        !occurs(urn, "13b"@),
    ensures
        class_of(model_name(urn)) == Class::Large ==> costs(urn, 40, "inference/large-cpu"@),
        class_of(model_name(urn)) == Class::Tiny ==> costs(urn, 5, "inference/tiny-cpu"@),
        class_of(model_name(urn)) == Class::Small ==> costs(urn, 20, "inference/7b-cpu"@),
        class_of(model_name(urn)) == Class::Other ==> costs(urn, 20, "inference/7b-cpu"@),
{
}

/// A URN is priced apart where one of the words is in it.
pub proof fn law_words_priced_apart(urn: Seq<char>)
    ensures
        priced_apart(urn) <==> occurs(urn, "70b"@) || occurs(urn, "gpu"@) || occurs(urn, "/code/"@)
            || occurs(urn, "/exec/"@) || occurs(urn, "/web/"@) || occurs(urn, "/search/"@),
{
}

/// The cost is the one whole number of credits that covers the price of the
/// tokens with less than a credit to spare, and is one where that is less.
pub proof fn law_cost_is_the_one_number(tokens: nat, credits_per_1k: nat, credits: nat)
    ensures
        credits_of(tokens, credits_per_1k) == credits <==> credits >= 1 && credits * 1000 >= tokens
            * credits_per_1k && (credits > 1 ==> (credits - 1) * 1000 < tokens * credits_per_1k),
{
}

/// A cost can be worked out where the price of the tokens, in thousandths of a
/// credit, and what rounding adds to it fit in 64 bits.
pub proof fn law_what_can_be_priced(tokens: u64, credits_per_1k: u64)
    ensures
        priceable(tokens, credits_per_1k) <==> tokens * credits_per_1k <= 18_446_744_073_709_550_616,
{
}

/// An estimate says which capability it is for, in which category and at what
/// price it was put, for how many tokens, and that it is an estimate.
pub proof fn law_estimate_says_how_it_was_made(urn: Seq<char>, tokens: u64, tier: Tier)
    ensures
        multipliers(urn, tokens, tier) == JsonView::Object(
            map![
                "capability_urn"@ => JsonView::Text(urn),
                "category"@ => JsonView::Text(tier.category),
                "credits_per_1k_tokens"@ => JsonView::Int(tier.credits_per_1k as int),
                "input_size_tokens"@ => JsonView::Int(tokens as int),
                "note"@ => JsonView::Text(
                    "Phase 1 estimate — based on model size from URN, not profiled benchmarks"@,
                ),
            ],
        ),
{
}

} // verus!
