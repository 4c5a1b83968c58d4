//! Capability URNs: `oasf://<namespace>/<domain>/<operation>/v<version>`.

use crate::error::{outcome, ErrorView, GatewayError, GatewayResult};
use crate::json::{Json, JsonView};
use crate::text::{
    decimal, digits_value, is_digit, is_numeral, joined, joined_with, law_decimal_reads_back,
    law_split_counts_add_up, law_split_of_appended, law_split_of_one_piece, law_split_then_join,
    parse_u32, replace, replaced, split, split_on, strip_prefix, unsigned_part,
};
use vstd::prelude::*;

verus! {

broadcast use vstd::string::group_string_axioms;

/// A capability: what the segments of its URN say.
#[derive(Debug)]
pub struct CapabilityUrn {
    pub namespace: String,
    pub domain: String,
    pub operation: String,
    pub version: u32,
}

/// What the segments of a URN say.
pub struct UrnView {
    pub namespace: Seq<char>,
    pub domain: Seq<char>,
    pub operation: Seq<char>,
    pub version: u32,
}

impl View for CapabilityUrn {
    type V = UrnView;

    open spec fn view(&self) -> UrnView {
        UrnView {
            namespace: self.namespace@,
            domain: self.domain@,
            operation: self.operation@,
            version: self.version,
        }
    }
}

/// What every URN starts with.
pub open spec fn scheme() -> Seq<char> {
    "oasf://"@
}

/// What `urn` names, or why it names nothing.
pub open spec fn urn_parsed(urn: Seq<char>) -> Result<UrnView, ErrorView> {
    if !scheme().is_prefix_of(urn) {
        Err(ErrorView::Invalid("URN must start with oasf://: "@ + urn))
    } else {
        let parts = split_on(urn.skip(scheme().len() as int), '/');
        if parts.len() != 4 {
            Err(ErrorView::Invalid("URN must have 4 segments after oasf://: "@ + urn))
        } else if !"v"@.is_prefix_of(parts[3]) {
            Err(ErrorView::Invalid("URN version must start with 'v': "@ + urn))
        } else if !is_numeral(parts[3].skip("v"@.len() as int)) {
            Err(ErrorView::Invalid("URN version not an integer: "@ + urn))
        } else {
            Ok(
                UrnView {
                    namespace: parts[0],
                    domain: parts[1],
                    operation: parts[2],
                    version: digits_value(
                        unsigned_part(parts[3].skip("v"@.len() as int)),
                    ) as u32,
                },
            )
        }
    }
}

impl UrnView {
    /// The capability as the control plane takes it.
    pub open spec fn json(self) -> JsonView {
        JsonView::object().with("namespace"@, JsonView::Text(self.namespace)).with(
            "domain"@,
            JsonView::Text(self.domain),
        ).with("operation"@, JsonView::Text(self.operation)).with(
            "version"@,
            JsonView::Int(self.version as int),
        )
    }

    /// The URN that names the capability.
    pub open spec fn text(self) -> Seq<char> {
        scheme() + self.namespace + seq!['/'] + self.domain + seq!['/'] + self.operation + seq!['/']
            + seq!['v'] + decimal(self.version as nat)
    }
}

/// The URN of the capability that runs the model `id`, an identifier without
/// whitespace around it.
pub open spec fn model_urn(id: Seq<char>) -> Result<Seq<char>, ErrorView> {
    if id.len() == 0 {
        Err(ErrorView::Invalid("model_id is empty"@))
    } else {
        Ok("oasf://commons/inference/"@ + replaced(id, ':', '-') + "/v1"@)
    }
}

impl CapabilityUrn {
    /// Reads a URN.
    pub fn parse(urn: &str) -> (parsed: GatewayResult<CapabilityUrn>)
        ensures
            outcome(parsed) == urn_parsed(urn@),
    {
        let stripped = match strip_prefix(urn, "oasf://") {
            Some(rest) => rest,
            None => {
                return Err(GatewayError::Invalid(joined("URN must start with oasf://: ", urn)));
            },
        };
        let parts = split(stripped, '/');
        assert(parts.deep_view().len() == parts.len());
        assert(forall|i: int| 0 <= i < parts.len() ==> parts.deep_view()[i] == parts@[i]@);
        if parts.len() != 4 {
            return Err(
                GatewayError::Invalid(joined("URN must have 4 segments after oasf://: ", urn)),
            );
        }
        let version_text = match strip_prefix(&parts[3], "v") {
            Some(rest) => rest,
            None => {
                return Err(GatewayError::Invalid(joined("URN version must start with 'v': ", urn)));
            },
        };
        match parse_u32(version_text) {
            Some(version) => Ok(
                CapabilityUrn {
                    namespace: parts[0].clone(),
                    domain: parts[1].clone(),
                    operation: parts[2].clone(),
                    version,
                },
            ),
            None => Err(GatewayError::Invalid(joined("URN version not an integer: ", urn))),
        }
    }

    /// The capability as the control plane takes it.
    pub fn json(&self) -> (json: Json)
        ensures
            json@ == self@.json(),
    {
        Json::object().with("namespace", Json::text(&self.namespace)).with(
            "domain",
            Json::text(&self.domain),
        ).with("operation", Json::text(&self.operation)).with(
            "version",
            Json::UInt(self.version as u64),
        )
    }
}

/// Reads a URN into the form that the control plane takes.
pub fn parse_urn(urn: &str) -> (parsed: GatewayResult<Json>)
    ensures
        outcome(parsed) == (match urn_parsed(urn@) {
            Ok(capability) => Ok(capability.json()),
            Err(error) => Err(error),
        }),
{
    match CapabilityUrn::parse(urn) {
        Ok(capability) => Ok(capability.json()),
        Err(error) => Err(error),
    }
}

/// The URN of the capability that runs the model `id`, an identifier without
/// whitespace around it.
pub fn urn_for_model(id: &str) -> (urn: GatewayResult<String>)
    ensures
        outcome(urn) == model_urn(id@),
{
    if id.is_empty() {
        return Err(GatewayError::invalid("model_id is empty"));
    }
    let mut urn = joined("oasf://commons/inference/", &replace(id, ':', '-'));
    urn.append("/v1");
    Ok(urn)
}

// ---------------------------------------------------------------------------
// Laws
// ---------------------------------------------------------------------------

/// Four segments, put together, come apart again.
proof fn lemma_four_segments(a: Seq<char>, b: Seq<char>, c: Seq<char>, d: Seq<char>)
    requires
        !a.contains('/'),
        !b.contains('/'),
        !c.contains('/'),
        !d.contains('/'),
    ensures
        split_on(a + seq!['/'] + b + seq!['/'] + c + seq!['/'] + d, '/') == seq![a, b, c, d],
{
    law_split_of_one_piece(a, '/');
    law_split_of_appended(a, '/', b);
    law_split_of_appended(a + seq!['/'] + b, '/', c);
    law_split_of_appended(a + seq!['/'] + b + seq!['/'] + c, '/', d);
    assert(seq![a].push(b).push(c).push(d) =~= seq![a, b, c, d]);
}

/// The URN of a capability whose segments hold no slash reads back as that
/// capability.
pub proof fn law_urn_reads_back(capability: UrnView)
    requires
        !capability.namespace.contains('/'),
        !capability.domain.contains('/'),
        !capability.operation.contains('/'),
    ensures
        urn_parsed(capability.text()) == Ok::<UrnView, ErrorView>(capability),
{
    let number = decimal(capability.version as nat);
    let last = seq!['v'] + number;
    law_decimal_reads_back(capability.version as nat);
    assert(!last.contains('/')) by {
        if last.contains('/') {
            let k = last.index_of('/');
            if k > 0 {
                assert(is_digit(number[k - 1]));
            }
        }
    }
    lemma_four_segments(capability.namespace, capability.domain, capability.operation, last);
    let tail = capability.namespace + seq!['/'] + capability.domain + seq!['/']
        + capability.operation + seq!['/'] + last;
    assert(capability.text() =~= scheme() + tail);
    assert((scheme() + tail).skip(scheme().len() as int) =~= tail);
    reveal_strlit("v");
    assert("v"@ =~= seq!['v']);
    assert(last.skip(1) =~= number);
}

/// Whether `text` is the URN of a capability, with its version written as
/// `numeral`.
pub open spec fn spells(text: Seq<char>, capability: UrnView, numeral: Seq<char>) -> bool {
    &&& text == scheme() + capability.namespace + seq!['/'] + capability.domain + seq!['/']
        + capability.operation + seq!['/'] + seq!['v'] + numeral
    &&& is_numeral(numeral)
    &&& digits_value(unsigned_part(numeral)) == capability.version
}

/// A URN that is accepted is made of the segments it is read as, none of which
/// holds a slash: nothing else is accepted, and nothing is dropped.
pub proof fn law_accepted_urn_is_its_segments(urn: Seq<char>)
    requires
        urn_parsed(urn) is Ok,
    ensures
        !urn_parsed(urn)->Ok_0.namespace.contains('/'),
        !urn_parsed(urn)->Ok_0.domain.contains('/'),
        !urn_parsed(urn)->Ok_0.operation.contains('/'),
        exists|numeral: Seq<char>| spells(urn, urn_parsed(urn)->Ok_0, numeral),
{
    let capability = urn_parsed(urn)->Ok_0;
    let tail = urn.skip(scheme().len() as int);
    let parts = split_on(tail, '/');
    law_split_then_join(tail, '/');
    assert(!parts[0].contains('/') && !parts[1].contains('/') && !parts[2].contains('/'));
    reveal_strlit("v");
    assert("v"@ =~= seq!['v']);
    let numeral = parts[3].skip(1);
    assert(parts[3] =~= seq!['v'] + numeral);
    let three = parts.drop_last();
    let two = three.drop_last();
    let one = two.drop_last();
    assert(joined_with(one, '/') == parts[0]);
    assert(joined_with(two, '/') == parts[0] + seq!['/'] + parts[1]);
    assert(joined_with(three, '/') == parts[0] + seq!['/'] + parts[1] + seq!['/'] + parts[2]);
    assert(urn =~= scheme() + tail);
    assert(urn =~= scheme() + capability.namespace + seq!['/'] + capability.domain + seq!['/']
        + capability.operation + seq!['/'] + seq!['v'] + numeral);
    assert(spells(urn, capability, numeral));
}

/// The URN made for a model is accepted, and names version 1 of the model in
/// the common inference domain, unless the identifier holds a slash.
pub proof fn law_model_urn_is_accepted(id: Seq<char>)
    requires
        id.len() > 0,
        !id.contains('/'),
    ensures
        model_urn(id) is Ok,
        urn_parsed(model_urn(id)->Ok_0) == Ok::<UrnView, ErrorView>(
            (UrnView {
                namespace: "commons"@,
                domain: "inference"@,
                operation: replaced(id, ':', '-'),
                version: 1,
            }),
        ),
{
    let operation = replaced(id, ':', '-');
    let capability = UrnView {
        namespace: "commons"@,
        domain: "inference"@,
        operation,
        version: 1,
    };
    reveal_strlit("commons");
    reveal_strlit("inference");
    reveal_strlit("oasf://");
    reveal_strlit("oasf://commons/inference/");
    reveal_strlit("/v1");
    assert(!operation.contains('/')) by {
        if operation.contains('/') {
            let k = operation.index_of('/');
            assert(id[k] == '/');
        }
    }
    assert(decimal(1) =~= seq!['1']);
    assert("oasf://commons/inference/"@ =~= scheme() + "commons"@ + seq!['/'] + "inference"@
        + seq!['/']);
    assert("/v1"@ =~= seq!['/'] + seq!['v'] + decimal(1));
    assert(model_urn(id)->Ok_0 =~= capability.text());
    law_urn_reads_back(capability);
}

/// A model's identifier with a slash in it makes a URN of too many segments,
/// which is refused.
pub proof fn law_model_with_a_slash_is_refused(id: Seq<char>)
    requires
        id.contains('/'),
    ensures
        model_urn(id) is Ok,
        urn_parsed(model_urn(id)->Ok_0) == Err::<UrnView, ErrorView>(
            ErrorView::Invalid(
                "URN must have 4 segments after oasf://: "@ + model_urn(id)->Ok_0,
            ),
        ),
{
    let operation = replaced(id, ':', '-');
    let at = id.index_of('/');
    let head = operation.take(at);
    let tail = operation.skip(at + 1);
    assert(operation[at] == '/');
    assert(operation =~= head + seq!['/'] + tail);
    reveal_strlit("oasf://");
    reveal_strlit("oasf://commons/inference/");
    reveal_strlit("commons");
    reveal_strlit("inference");
    reveal_strlit("/v1");
    reveal_strlit("v1");
    let urn = model_urn(id)->Ok_0;
    let first = "commons"@ + seq!['/'] + "inference"@;
    let second = first + seq!['/'] + head;
    let third = second + seq!['/'] + tail;
    assert("oasf://commons/inference/"@ =~= scheme() + first + seq!['/']);
    assert("/v1"@ =~= seq!['/'] + "v1"@);
    assert(urn =~= scheme() + (third + seq!['/'] + "v1"@));
    assert(urn.skip(scheme().len() as int) =~= third + seq!['/'] + "v1"@);
    law_split_counts_add_up("commons"@, '/', "inference"@);
    law_split_counts_add_up(first, '/', head);
    law_split_counts_add_up(second, '/', tail);
    law_split_counts_add_up(third, '/', "v1"@);
    law_split_then_join("commons"@, '/');
    law_split_then_join("inference"@, '/');
    law_split_then_join(head, '/');
    law_split_then_join(tail, '/');
    law_split_then_join("v1"@, '/');
}

/// A capability is the segments that it was read with.
pub proof fn law_capability_is_its_segments(capability: CapabilityUrn)
    ensures
        capability@.namespace == capability.namespace@,
        capability@.domain == capability.domain@,
        capability@.operation == capability.operation@,
        capability@.version == capability.version,
{
}

/// The URN made of the scheme and four segments.
pub open spec fn of_segments(a: Seq<char>, b: Seq<char>, c: Seq<char>, d: Seq<char>) -> Seq<char> {
    "oasf://"@ + (a + seq!['/'] + b + seq!['/'] + c + seq!['/'] + d)
}

/// A URN of four segments names what its first three say, in the version whose
/// number follows the `v` of the last. Without that `v`, or without a number
/// after it, it is refused for that reason.
pub proof fn law_four_segments_are_read(
    a: Seq<char>,
    b: Seq<char>,
    c: Seq<char>,
    d: Seq<char>,
    number: Seq<char>,
)
    requires
        !a.contains('/'),
        !b.contains('/'),
        !c.contains('/'),
        !d.contains('/'),
    ensures
        d.len() == 0 || d[0] != 'v' ==> urn_parsed(of_segments(a, b, c, d)) == Err::<
            UrnView,
            ErrorView,
        >(ErrorView::Invalid("URN version must start with 'v': "@ + of_segments(a, b, c, d))),
        d == seq!['v'] + number && !is_numeral(number) ==> urn_parsed(of_segments(a, b, c, d))
            == Err::<UrnView, ErrorView>(
            ErrorView::Invalid("URN version not an integer: "@ + of_segments(a, b, c, d)),
        ),
        d == seq!['v'] + number && is_numeral(number) ==> {
            &&& urn_parsed(of_segments(a, b, c, d)) is Ok
            &&& urn_parsed(of_segments(a, b, c, d))->Ok_0.namespace == a
            &&& urn_parsed(of_segments(a, b, c, d))->Ok_0.domain == b
            &&& urn_parsed(of_segments(a, b, c, d))->Ok_0.operation == c
            &&& urn_parsed(of_segments(a, b, c, d))->Ok_0.version == digits_value(
                unsigned_part(number),
            )
        },
{
    lemma_four_segments(a, b, c, d);
    let tail = a + seq!['/'] + b + seq!['/'] + c + seq!['/'] + d;
    let urn = of_segments(a, b, c, d);
    assert(urn.skip(scheme().len() as int) =~= tail);
    assert(scheme().is_prefix_of(urn));
    reveal_strlit("v");
    assert("v"@ =~= seq!['v']);
    if seq!['v'].is_prefix_of(d) {
        assert(d.subrange(0, 1)[0] == 'v');
    }
    if d == seq!['v'] + number {
        assert(d.skip(1) =~= number);
    }
}

/// A text that does not start with the scheme, or has more or fewer than four
/// segments after it, is refused for that reason.
pub proof fn law_other_texts_are_no_urns(text: Seq<char>, tail: Seq<char>)
    ensures
        !"oasf://"@.is_prefix_of(text) ==> urn_parsed(text) == Err::<UrnView, ErrorView>(
            ErrorView::Invalid("URN must start with oasf://: "@ + text),
        ),
        split_on(tail, '/').len() != 4 ==> urn_parsed("oasf://"@ + tail) == Err::<
            UrnView,
            ErrorView,
        >(ErrorView::Invalid("URN must have 4 segments after oasf://: "@ + ("oasf://"@ + tail))),
{
    assert(("oasf://"@ + tail).skip(scheme().len() as int) =~= tail);
    assert(scheme().is_prefix_of("oasf://"@ + tail));
}

/// The control plane gets a capability as its three names and its version.
pub proof fn law_capability_in_json(capability: UrnView)
    ensures
        capability.json() == JsonView::Object(
            map![
                "namespace"@ => JsonView::Text(capability.namespace),
                "domain"@ => JsonView::Text(capability.domain),
                "operation"@ => JsonView::Text(capability.operation),
                "version"@ => JsonView::Int(capability.version as int),
            ],
        ),
{
}

/// The URN of a model is the model's identifier, with a hyphen for each colon,
/// in the common inference domain and version 1. An empty identifier has none.
pub proof fn law_urn_of_a_model(id: Seq<char>)
    ensures
        id.len() == 0 ==> model_urn(id) == Err::<Seq<char>, ErrorView>(
            ErrorView::Invalid("model_id is empty"@),
        ),
        id.len() > 0 ==> model_urn(id) == Ok::<Seq<char>, ErrorView>(
            "oasf://commons/inference/"@ + Seq::new(
                id.len(),
                |i: int| if id[i] == ':' { '-' } else { id[i] },
            ) + "/v1"@,
        ),
{
    assert(replaced(id, ':', '-') =~= Seq::new(
        id.len(),
        |i: int| if id[i] == ':' { '-' } else { id[i] },
    ));
}

} // verus!
