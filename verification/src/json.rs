//! JSON values: a tree the gateway builds and reads, and its passage to and
//! from `serde_json`, which parses and prints it.

use crate::text::same;
use vstd::prelude::*;

verus! {

broadcast use vstd::string::group_string_axioms;

// ---------------------------------------------------------------------------
// The tree
// ---------------------------------------------------------------------------

/// What a JSON value is, apart from how it is stored: an integer is its value,
/// and the members of an object have no order.
pub enum JsonView {
    Null,
    Bool(bool),
    Int(int),
    /// A number with a fraction or an exponent; it is carried, never computed
    /// with.
    Fraction(serde_json::Number),
    Text(Seq<char>),
    Array(Seq<JsonView>),
    Object(Map<Seq<char>, JsonView>),
}

/// A JSON value. Where an object names a member twice, the later one counts.
#[derive(Debug)]
pub enum Json {
    Null,
    Bool(bool),
    Int(i64),
    UInt(u64),
    Number(serde_json::Number),
    Text(String),
    Array(Vec<Json>),
    Object(Vec<(String, Json)>),
}

/// What `number` is: its integer value if it is an integer.
pub open spec fn number_view(number: serde_json::Number) -> JsonView {
    match number_integer(number) {
        Some(i) => JsonView::Int(i as int),
        None => JsonView::Fraction(number),
    }
}

/// What `json` is.
pub open spec fn json_view(json: Json) -> JsonView
    decreases json,
{
    match json {
        Json::Null => JsonView::Null,
        Json::Bool(b) => JsonView::Bool(b),
        Json::Int(i) => JsonView::Int(i as int),
        Json::UInt(u) => JsonView::Int(u as int),
        Json::Number(n) => number_view(n),
        Json::Text(s) => JsonView::Text(s@),
        Json::Array(items) => JsonView::Array(items_view(items@)),
        Json::Object(members) => JsonView::Object(members_view(members@)),
    }
}

/// The members of an empty object.
pub open spec fn no_members() -> Map<Seq<char>, JsonView> {
    Map::empty()
}

/// What each item is.
pub open spec fn items_view(items: Seq<Json>) -> Seq<JsonView>
    decreases items,
{
    if items.len() == 0 {
        Seq::empty()
    } else {
        items_view(items.drop_last()).push(json_view(items.last()))
    }
}

/// The members, by name; a later one takes the place of an earlier one.
pub open spec fn members_view(members: Seq<(String, Json)>) -> Map<Seq<char>, JsonView>
    decreases members,
{
    if members.len() == 0 {
        Map::empty()
    } else {
        members_view(members.drop_last()).insert(
            members.last().0@,
            json_view(members.last().1),
        )
    }
}

impl JsonView {
    /// The object without members.
    pub open spec fn object() -> JsonView {
        JsonView::Object(no_members())
    }

    /// The object with its member `name` set to `value`; what is no object
    /// stays as it is.
    pub open spec fn with(self, name: Seq<char>, value: JsonView) -> JsonView {
        match self {
            JsonView::Object(members) => JsonView::Object(members.insert(name, value)),
            _ => self,
        }
    }

    /// The object without its member `name`; what is no object stays as it is.
    pub open spec fn without(self, name: Seq<char>) -> JsonView {
        match self {
            JsonView::Object(members) => JsonView::Object(members.remove(name)),
            _ => self,
        }
    }

    /// The array without items.
    pub open spec fn array() -> JsonView {
        JsonView::Array(Seq::empty())
    }

    /// The array with `value` added at its end; what is no array stays as it
    /// is.
    pub open spec fn item(self, value: JsonView) -> JsonView {
        match self {
            JsonView::Array(items) => JsonView::Array(items.push(value)),
            _ => self,
        }
    }

    /// The member `name`, if this is an object that has one.
    pub open spec fn get(self, name: Seq<char>) -> Option<JsonView> {
        match self {
            JsonView::Object(members) => if members.dom().contains(name) {
                Some(members[name])
            } else {
                None
            },
            _ => None,
        }
    }

    /// The characters, if this is a text.
    pub open spec fn as_str(self) -> Option<Seq<char>> {
        match self {
            JsonView::Text(s) => Some(s),
            _ => None,
        }
    }
}

impl View for Json {
    type V = JsonView;

    open spec fn view(&self) -> JsonView {
        json_view(*self)
    }
}

impl Json {
    /// The object without members.
    pub fn object() -> (json: Json)
        ensures
            json@ == JsonView::object(),
    {
        Json::Object(Vec::new())
    }

    /// The text `s`.
    pub fn text(s: &str) -> (json: Json)
        ensures
            json@ == JsonView::Text(s@),
    {
        Json::Text(s.to_owned())
    }

    /// The object with its member `name` set to `value`; what is no object
    /// stays as it is.
    pub fn with(self, name: &str, value: Json) -> (json: Json)
        ensures
            json@ == self@.with(name@, value@),
    {
        match self {
            Json::Object(members) => {
                let mut members = members;
                let ghost before = members@;
                members.push((name.to_owned(), value));
                assert(members@.drop_last() =~= before);
                Json::Object(members)
            },
            other => other,
        }
    }

    /// The object without its member `name`; what is no object stays as it is.
    pub fn without(self, name: &str) -> (json: Json)
        ensures
            json@ == self@.without(name@),
    {
        match self {
            Json::Object(members) => {
                let ghost all = members@;
                let mut kept: Vec<(String, Json)> = Vec::new();
                assert(members_view(kept@) =~= members_view(all.take(0)).remove(name@));
                for member in it: members
                    invariant
                        it.seq() == all,
                        members_view(kept@) == members_view(all.take(it.index() as int)).remove(
                            name@,
                        ),
                {
                    let ghost i = it.index() as int;
                    let ghost before = kept@;
                    assert(all.take(i + 1).drop_last() =~= all.take(i));
                    if !same(member.0.as_str(), name) {
                        kept.push(member);
                        assert(kept@.drop_last() =~= before);
                    }
                    assert(members_view(kept@) =~= members_view(all.take(i + 1)).remove(name@));
                }
                assert(all.take(all.len() as int) =~= all);
                Json::Object(kept)
            },
            other => other,
        }
    }

    /// The array without items.
    pub fn array() -> (json: Json)
        ensures
            json@ == JsonView::array(),
    {
        Json::Array(Vec::new())
    }

    /// The array with `value` added at its end; what is no array stays as it
    /// is.
    pub fn item(self, value: Json) -> (json: Json)
        ensures
            json@ == self@.item(value@),
    {
        match self {
            Json::Array(items) => {
                let mut items = items;
                let ghost before = items@;
                items.push(value);
                assert(items@.drop_last() =~= before);
                Json::Array(items)
            },
            other => other,
        }
    }

    /// The member `name`, if this is an object that has one.
    pub fn get(&self, name: &str) -> (member: Option<&Json>)
        ensures
            member is Some <==> self@.get(name@) is Some,
            member matches Some(m) ==> self@.get(name@) == Some(m@),
    {
        match self {
            Json::Object(members) => {
                let mut i: usize = members.len();
                assert(members@.take(i as int) =~= members@);
                while i > 0
                    invariant
                        i <= members.len(),
                        *self == Json::Object(*members),
                        members_view(members@.take(i as int)).dom().contains(name@)
                            <==> members_view(members@).dom().contains(name@),
                        members_view(members@).dom().contains(name@) ==> members_view(
                            members@.take(i as int),
                        )[name@] == members_view(members@)[name@],
                    decreases i,
                {
                    i = i - 1;
                    assert(members@.take(i as int + 1).drop_last() =~= members@.take(i as int));
                    if same(members[i].0.as_str(), name) {
                        return Some(&members[i].1);
                    }
                }
                None
            },
            _ => None,
        }
    }

    /// The characters, if this is a text.
    pub fn as_str(&self) -> (text: Option<&str>)
        ensures
            text is Some <==> self@.as_str() is Some,
            text matches Some(t) ==> self@.as_str() == Some(t@),
    {
        match self {
            Json::Text(s) => Some(s.as_str()),
            _ => None,
        }
    }
}

impl Clone for Json {
    fn clone(&self) -> (copy: Json)
        ensures
            copy@ == self@,
        decreases self,
    {
        match self {
            Json::Null => Json::Null,
            Json::Bool(b) => Json::Bool(*b),
            Json::Int(i) => Json::Int(*i),
            Json::UInt(u) => Json::UInt(*u),
            Json::Number(n) => Json::Number(n.clone()),
            Json::Text(s) => Json::Text(s.clone()),
            Json::Array(items) => {
                let mut copies: Vec<Json> = Vec::new();
                let mut i: usize = 0;
                assert(items@.take(0) =~= copies@);
                while i < items.len()
                    invariant
                        i <= items.len(),
                        *self == Json::Array(*items),
                        items_view(copies@) == items_view(items@.take(i as int)),
                    decreases items.len() - i,
                {
                    let ghost before = copies@;
                    assert(decreases_to!(*self => self->Array_0));
                    assert(decreases_to!(items => items@));
                    assert(decreases_to!(items@ => items@[i as int]));
                    let copy = items[i].clone();
                    copies.push(copy);
                    assert(copies@.drop_last() =~= before);
                    assert(items@.take(i as int + 1).drop_last() =~= items@.take(i as int));
                    i = i + 1;
                }
                assert(items@.take(i as int) =~= items@);
                Json::Array(copies)
            },
            Json::Object(members) => {
                let mut copies: Vec<(String, Json)> = Vec::new();
                let mut i: usize = 0;
                assert(members@.take(0) =~= copies@);
                while i < members.len()
                    invariant
                        i <= members.len(),
                        *self == Json::Object(*members),
                        members_view(copies@) == members_view(members@.take(i as int)),
                    decreases members.len() - i,
                {
                    let ghost before = copies@;
                    assert(decreases_to!(*self => self->Object_0));
                    assert(decreases_to!(members => members@));
                    assert(decreases_to!(members@ => members@[i as int]));
                    let copy = members[i].1.clone();
                    copies.push((members[i].0.clone(), copy));
                    assert(copies@.drop_last() =~= before);
                    assert(members@.take(i as int + 1).drop_last() =~= members@.take(i as int));
                    i = i + 1;
                }
                assert(members@.take(i as int) =~= members@);
                Json::Object(copies)
            },
        }
    }
}

// ---------------------------------------------------------------------------
// serde_json
// ---------------------------------------------------------------------------

/// `serde_json::Number`, of which only the integer that it may be is known.
#[verifier::external_type_specification]
#[verifier::external_body]
pub struct ExNumber(serde_json::Number);

/// `serde_json::Value`, of which only what it holds is known.
#[verifier::external_type_specification]
#[verifier::external_body]
pub struct ExValue(serde_json::Value);

/// `serde_json::Map`, of which only the members that it holds are known.
#[verifier::external_type_specification]
#[verifier::external_body]
#[verifier::reject_recursive_types(K)]
#[verifier::reject_recursive_types(V)]
pub struct ExMap<K, V>(serde_json::Map<K, V>);

/// The integer that a number is, if it is one.
pub uninterp spec fn number_integer(number: serde_json::Number) -> Option<i128>;

/// What a `serde_json` value holds.
pub uninterp spec fn value_view(value: serde_json::Value) -> JsonView;

/// The members that a `serde_json` map holds, by name.
pub uninterp spec fn map_view(map: serde_json::Map<String, serde_json::Value>) -> Map<
    Seq<char>,
    JsonView,
>;

/// `Number::as_i128` gives the integer that a number is, or nothing for a
/// number with a fraction or an exponent. An integer lies between the least
/// `i64` and the greatest `u64`.
pub assume_specification[ serde_json::Number::as_i128 ](number: &serde_json::Number) -> (integer:
    Option<i128>)
    ensures
        integer == number_integer(*number),
        integer matches Some(i) ==> i64::MIN <= i <= u64::MAX,
;

/// `Number::from_i128` makes the number of an integer between the least `i64`
/// and the greatest `u64`, and none of any other.
pub assume_specification[ serde_json::Number::from_i128 ](i: i128) -> (number: Option<
    serde_json::Number,
>)
    ensures
        number is Some <==> i64::MIN <= i <= u64::MAX,
        number matches Some(n) ==> number_integer(n) == Some(i),
;

/// `Number::clone` gives the same number again.
pub assume_specification[ <serde_json::Number as Clone>::clone ](
    number: &serde_json::Number,
) -> (copy: serde_json::Number)
    ensures
        copy == *number,
;

/// One layer of a `serde_json` value, with its parts as they are.
pub enum Node {
    Null,
    Bool(bool),
    Number(serde_json::Number),
    Text(String),
    Items(Vec<serde_json::Value>),
    Members(serde_json::Map<String, serde_json::Value>),
}

/// What a layer and the values under it are.
pub open spec fn node_view(node: Node) -> JsonView {
    match node {
        Node::Null => JsonView::Null,
        Node::Bool(b) => JsonView::Bool(b),
        Node::Number(n) => number_view(n),
        Node::Text(s) => JsonView::Text(s@),
        Node::Items(items) => JsonView::Array(
            items@.map_values(|item: serde_json::Value| value_view(item)),
        ),
        Node::Members(map) => JsonView::Object(map_view(map)),
    }
}

/// Takes a `serde_json::Value` apart by its variant. A value holds what its
/// one layer and the values under it hold.
#[verifier::external_body]
fn open_value(value: serde_json::Value) -> (node: Node)
    ensures
        node_view(node) == value_view(value),
{
    match value {
        serde_json::Value::Null => Node::Null,
        serde_json::Value::Bool(b) => Node::Bool(b),
        serde_json::Value::Number(n) => Node::Number(n),
        serde_json::Value::String(s) => Node::Text(s),
        serde_json::Value::Array(items) => Node::Items(items),
        serde_json::Value::Object(map) => Node::Members(map),
    }
}

/// Makes a `serde_json::Value` of the variant that the layer is. A value holds
/// what its one layer and the values under it hold.
#[verifier::external_body]
fn close_value(node: Node) -> (value: serde_json::Value)
    ensures
        value_view(value) == node_view(node),
{
    match node {
        Node::Null => serde_json::Value::Null,
        Node::Bool(b) => serde_json::Value::Bool(b),
        Node::Number(n) => serde_json::Value::Number(n),
        Node::Text(s) => serde_json::Value::String(s),
        Node::Items(items) => serde_json::Value::Array(items),
        Node::Members(map) => serde_json::Value::Object(map),
    }
}

/// `serde_json::Map::new` makes a map without members.
#[verifier::external_body]
fn map_new() -> (map: serde_json::Map<String, serde_json::Value>)
    ensures
        map_view(map) == no_members(),
{
    serde_json::Map::new()
}

/// `serde_json::Map::insert` sets the member of that name, and hands out the
/// value that it had before, if any.
#[verifier::external_body]
fn map_insert(
    map: &mut serde_json::Map<String, serde_json::Value>,
    name: String,
    value: serde_json::Value,
) -> (before: Option<serde_json::Value>)
    ensures
        map_view(*final(map)) == map_view(*old(map)).insert(name@, value_view(value)),
        before is Some <==> map_view(*old(map)).dom().contains(name@),
        before matches Some(b) ==> value_view(b) == map_view(*old(map))[name@],
{
    map.insert(name, value)
}

/// The members of a list of names and values.
pub open spec fn pairs_view(pairs: Seq<(String, serde_json::Value)>) -> Map<Seq<char>, JsonView>
    decreases pairs.len(),
{
    if pairs.len() == 0 {
        Map::empty()
    } else {
        pairs_view(pairs.drop_last()).insert(pairs.last().0@, value_view(pairs.last().1))
    }
}

/// `serde_json::Map::into_iter` hands out each member once, so no name comes
/// twice. The order is not stated.
#[verifier::external_body]
fn map_into_pairs(map: serde_json::Map<String, serde_json::Value>) -> (pairs: Vec<
    (String, serde_json::Value),
>)
    ensures
        pairs_view(pairs@) == map_view(map),
        forall|i: int, j: int|
            0 <= i < j < pairs@.len() ==> #[trigger] pairs@[i].0@ != #[trigger] pairs@[j].0@,
{
    map.into_iter().collect()
}

proof fn lemma_pairs_member(pairs: Seq<(String, serde_json::Value)>, i: int)
    requires
        0 <= i < pairs.len(),
        forall|i: int, j: int|
            0 <= i < j < pairs.len() ==> #[trigger] pairs[i].0@ != #[trigger] pairs[j].0@,
    ensures
        pairs_view(pairs).dom().finite(),
        pairs_view(pairs).dom().contains(pairs[i].0@),
        pairs_view(pairs)[pairs[i].0@] == value_view(pairs[i].1),
    decreases pairs.len(),
{
    lemma_pairs_finite(pairs);
    if i < pairs.len() - 1 {
        let rest = pairs.drop_last();
        assert forall|a: int, b: int| 0 <= a < b < rest.len() implies #[trigger] rest[a].0@
            != #[trigger] rest[b].0@ by {
            assert(pairs[a].0@ != pairs[b].0@);
        }
        lemma_pairs_member(rest, i);
        assert(pairs[i].0@ != pairs[pairs.len() - 1].0@);
    }
}

proof fn lemma_pairs_finite(pairs: Seq<(String, serde_json::Value)>)
    ensures
        pairs_view(pairs).dom().finite(),
    decreases pairs.len(),
{
    if pairs.len() > 0 {
        lemma_pairs_finite(pairs.drop_last());
    }
}

/// A value as a tree.
pub fn from_value(value: serde_json::Value) -> (json: Json)
    ensures
        json@ == value_view(value),
    decreases value_view(value),
{
    let ghost whole = value_view(value);
    match open_value(value) {
        Node::Null => Json::Null,
        Node::Bool(b) => Json::Bool(b),
        Node::Number(n) => match n.as_i128() {
            Some(i) => if i < 0 {
                Json::Int(i as i64)
            } else {
                Json::UInt(i as u64)
            },
            None => Json::Number(n),
        },
        Node::Text(s) => Json::Text(s),
        Node::Items(values) => {
            let ghost all = values@;
            let mut items: Vec<Json> = Vec::new();
            assert(items_view(items@) =~= all.take(0).map_values(
                |item: serde_json::Value| value_view(item),
            ));
            for item in it: values
                invariant
                    it.seq() == all,
                    whole == value_view(value),
                    whole == JsonView::Array(
                        all.map_values(|item: serde_json::Value| value_view(item)),
                    ),
                    items_view(items@) == all.take(it.index() as int).map_values(
                        |item: serde_json::Value| value_view(item),
                    ),
            {
                let ghost i = it.index() as int;
                let ghost views = all.map_values(|item: serde_json::Value| value_view(item));
                assert(views[i] == value_view(item));
                assert(decreases_to!(whole => whole->Array_0));
                assert(decreases_to!(views => views[i]));
                let ghost before = items@;
                let json = from_value(item);
                items.push(json);
                assert(items@.drop_last() =~= before);
                assert(items_view(items@) =~= all.take(i + 1).map_values(
                    |item: serde_json::Value| value_view(item),
                ));
            }
            assert(all.take(all.len() as int) =~= all);
            Json::Array(items)
        },
        Node::Members(map) => {
            let pairs = map_into_pairs(map);
            let ghost all = pairs@;
            let mut members: Vec<(String, Json)> = Vec::new();
            assert(all.take(0) =~= Seq::empty());
            for pair in it: pairs
                invariant
                    it.seq() == all,
                    whole == value_view(value),
                    whole == JsonView::Object(pairs_view(all)),
                    forall|i: int, j: int|
                        0 <= i < j < all.len() ==> #[trigger] all[i].0@ != #[trigger] all[j].0@,
                    members_view(members@) == pairs_view(all.take(it.index() as int)),
            {
                let ghost i = it.index() as int;
                let (name, item) = pair;
                proof {
                    lemma_pairs_member(all, i);
                    assert(decreases_to!(whole => whole->Object_0));
                    assert(decreases_to!(pairs_view(all) => pairs_view(all)[all[i].0@]));
                }
                let ghost before = members@;
                let json = from_value(item);
                members.push((name, json));
                assert(members@.drop_last() =~= before);
                assert(all.take(i + 1).drop_last() =~= all.take(i));
            }
            assert(all.take(all.len() as int) =~= all);
            Json::Object(members)
        },
    }
}

/// The tree as a value.
pub fn to_value(json: &Json) -> (value: serde_json::Value)
    ensures
        value_view(value) == json@,
    decreases json,
{
    match json {
        Json::Null => close_value(Node::Null),
        Json::Bool(b) => close_value(Node::Bool(*b)),
        Json::Int(i) => number_value(*i as i128),
        Json::UInt(u) => number_value(*u as i128),
        Json::Number(n) => close_value(Node::Number(n.clone())),
        Json::Text(s) => close_value(Node::Text(s.clone())),
        Json::Array(items) => {
            let mut values: Vec<serde_json::Value> = Vec::new();
            let mut i: usize = 0;
            assert(items@.take(0) =~= Seq::empty());
            assert(values@.map_values(|item: serde_json::Value| value_view(item)) =~= items_view(
                items@.take(0),
            ));
            while i < items.len()
                invariant
                    i <= items.len(),
                    *json == Json::Array(*items),
                    values@.map_values(|item: serde_json::Value| value_view(item)) == items_view(
                        items@.take(i as int),
                    ),
                decreases items.len() - i,
            {
                let ghost before = values@;
                assert(decreases_to!(*json => json->Array_0));
                assert(decreases_to!(items => items@));
                assert(decreases_to!(items@ => items@[i as int]));
                let value = to_value(&items[i]);
                values.push(value);
                assert(items@.take(i as int + 1).drop_last() =~= items@.take(i as int));
                assert(values@.map_values(|item: serde_json::Value| value_view(item))
                    =~= before.map_values(|item: serde_json::Value| value_view(item)).push(
                    value_view(value),
                ));
                i = i + 1;
            }
            assert(items@.take(i as int) =~= items@);
            close_value(Node::Items(values))
        },
        Json::Object(members) => {
            let mut map = map_new();
            let mut i: usize = 0;
            assert(members@.take(0) =~= Seq::empty());
            while i < members.len()
                invariant
                    i <= members.len(),
                    *json == Json::Object(*members),
                    map_view(map) == members_view(members@.take(i as int)),
                decreases members.len() - i,
            {
                assert(decreases_to!(*json => json->Object_0));
                assert(decreases_to!(members => members@));
                assert(decreases_to!(members@ => members@[i as int]));
                let value = to_value(&members[i].1);
                let _ = map_insert(&mut map, members[i].0.clone(), value);
                assert(members@.take(i as int + 1).drop_last() =~= members@.take(i as int));
                i = i + 1;
            }
            assert(members@.take(i as int) =~= members@);
            close_value(Node::Members(map))
        },
    }
}

/// The value that is the integer `i`.
fn number_value(i: i128) -> (value: serde_json::Value)
    requires
        i64::MIN <= i <= u64::MAX,
    ensures
        value_view(value) == JsonView::Int(i as int),
{
    match serde_json::Number::from_i128(i) {
        Some(n) => close_value(Node::Number(n)),
        None => close_value(Node::Null),
    }
}

// ---------------------------------------------------------------------------
// JSON text
// ---------------------------------------------------------------------------

/// What `serde_json::from_str` reads in a text: a value, or the message of the
/// error.
pub uninterp spec fn json_read(text: Seq<char>) -> Result<JsonView, Seq<char>>;

/// What `serde_json::to_string` writes for a value, if it succeeds.
pub uninterp spec fn json_compact(json: JsonView) -> Option<Seq<char>>;

/// What `serde_json::to_string_pretty` writes for a value, if it succeeds.
pub uninterp spec fn json_pretty(json: JsonView) -> Option<Seq<char>>;

/// How deeply a JSON text may nest arrays and objects for `serde_json` to read
/// it.
pub const DEEPEST: u64 = 127;

/// Whether a value has no fraction in it and nests arrays and objects no deeper
/// than `depth`.
pub open spec fn exact_within(json: JsonView, depth: nat) -> bool
    decreases depth,
{
    match json {
        JsonView::Fraction(_) => false,
        JsonView::Array(items) => depth > 0 && forall|i: int|
            0 <= i < items.len() ==> exact_within(#[trigger] items[i], (depth - 1) as nat),
        JsonView::Object(members) => depth > 0 && forall|name: Seq<char>|
            members.dom().contains(name) ==> exact_within(
                #[trigger] members[name],
                (depth - 1) as nat,
            ),
        _ => true,
    }
}

/// Whether `serde_json` reads back what it writes for a value: there is no
/// fraction in it, and it is not nested too deeply.
pub open spec fn reads_back(json: JsonView) -> bool {
    exact_within(json, DEEPEST as nat)
}

/// Whether `text` is read as the value `json`.
pub open spec fn reads_as(text: Seq<char>, json: JsonView) -> bool {
    json_read(text) == Ok::<JsonView, Seq<char>>(json)
}

/// What a value, or the message in its place, holds.
pub open spec fn value_read(read: Result<serde_json::Value, String>) -> Result<
    JsonView,
    Seq<char>,
> {
    match read {
        Ok(value) => Ok(value_view(value)),
        Err(message) => Err(message@),
    }
}

/// `serde_json::from_str` reads one JSON value from the whole of `text`. What
/// it accepts, and the message where it does not, depend on the text alone.
#[verifier::external_body]
fn read_value(text: &str) -> (read: Result<serde_json::Value, String>)
    ensures
        value_read(read) == json_read(text@),
{
    match serde_json::from_str(text) {
        Ok(value) => Ok(value),
        Err(error) => Err(error.to_string()),
    }
}

/// `serde_json::to_string` writes a value on one line: it puts nothing between
/// the tokens, and inside texts and names it escapes control characters, the
/// line feed among them. It does not fail on a `serde_json::Value`, whose names
/// are all texts. What it writes depends on what the value holds alone, and
/// `serde_json::from_str` reads it back, unless there is a fraction in it or it
/// is nested deeper than the reader goes.
#[verifier::external_body]
fn write_compact(value: &serde_json::Value) -> (text: Option<String>)
    ensures
        text.deep_view() == json_compact(value_view(*value)),
        text is Some,
        text matches Some(t) ==> !t@.contains('\n'),
        text matches Some(t) ==> (reads_back(value_view(*value)) ==> reads_as(
            t@,
            value_view(*value),
        )),
{
    serde_json::to_string(value).ok()
}

/// `serde_json::to_string_pretty` writes a value over several indented lines.
/// It does not fail on a `serde_json::Value`, whose names are all texts. What it
/// writes depends on what the value holds alone, and `serde_json::from_str`
/// reads it back, unless there is a fraction in it or it is nested deeper than
/// the reader goes.
#[verifier::external_body]
fn write_pretty(value: &serde_json::Value) -> (text: Option<String>)
    ensures
        text.deep_view() == json_pretty(value_view(*value)),
        text is Some,
        text matches Some(t) ==> (reads_back(value_view(*value)) ==> reads_as(
            t@,
            value_view(*value),
        )),
{
    serde_json::to_string_pretty(value).ok()
}

/// The `Display` of `serde_json::Value` writes a value as `serde_json::to_string`
/// does.
#[verifier::external_body]
fn write_display(value: &serde_json::Value) -> (text: String)
    ensures
        json_compact(value_view(*value)) == Some(text@),
{
    value.to_string()
}

/// Reads a JSON text: the value, or the message of the error.
pub fn read(text: &str) -> (read: Result<Json, String>)
    ensures
        (match read {
            Ok(json) => Ok(json@),
            Err(message) => Err(message@),
        }) == json_read(text@),
{
    match read_value(text) {
        Ok(value) => Ok(from_value(value)),
        Err(message) => Err(message),
    }
}

/// The JSON text of a value on one line. It reads back as the value.
pub fn compact_text(json: &Json) -> (text: Option<String>)
    ensures
        text.deep_view() == json_compact(json@),
        text is Some,
        text matches Some(t) ==> !t@.contains('\n'),
        text matches Some(t) ==> (reads_back(json@) ==> reads_as(t@, json@)),
{
    write_compact(&to_value(json))
}

/// The JSON text of a value over several indented lines. It reads back as the
/// value.
pub fn pretty_text(json: &Json) -> (text: Option<String>)
    ensures
        text.deep_view() == json_pretty(json@),
        text is Some,
        text matches Some(t) ==> (reads_back(json@) ==> reads_as(t@, json@)),
{
    write_pretty(&to_value(json))
}

/// A value as it is displayed.
pub fn display_text(json: &Json) -> (text: String)
    ensures
        json_compact(json@) == Some(text@),
{
    write_display(&to_value(json))
}

// ---------------------------------------------------------------------------
// Laws
// ---------------------------------------------------------------------------

/// A single value is what its variant says; an integer is its value, however it
/// is stored.
pub proof fn law_single_values(b: bool, i: i64, u: u64, s: String)
    ensures
        Json::Null@ == JsonView::Null,
        Json::Bool(b)@ == JsonView::Bool(b),
        Json::Int(i)@ == JsonView::Int(i as int),
        Json::UInt(u)@ == JsonView::Int(u as int),
        Json::Text(s)@ == JsonView::Text(s@),
{
}

proof fn lemma_items_view(items: Seq<Json>)
    ensures
        items_view(items).len() == items.len(),
        forall|i: int| 0 <= i < items.len() ==> #[trigger] items_view(items)[i] == items[i]@,
    decreases items.len(),
{
    if items.len() > 0 {
        lemma_items_view(items.drop_last());
        assert forall|i: int| 0 <= i < items.len() implies #[trigger] items_view(items)[i]
            == items[i]@ by {
            if i < items.len() - 1 {
                assert(items_view(items.drop_last())[i] == items.drop_last()[i]@);
            }
        }
    }
}

/// An array holds its items, each in its place.
pub proof fn law_array_holds_its_items(items: Vec<Json>)
    ensures
        Json::Array(items)@ is Array,
        (Json::Array(items)@)->Array_0.len() == items@.len(),
        forall|i: int|
            0 <= i < items@.len() ==> #[trigger] (Json::Array(items)@)->Array_0[i] == items@[i]@,
{
    lemma_items_view(items@);
}

proof fn lemma_member_counts(members: Seq<(String, Json)>, i: int)
    requires
        0 <= i < members.len(),
        forall|j: int| i < j < members.len() ==> (#[trigger] members[j]).0@ != members[i].0@,
    ensures
        members_view(members).dom().contains(members[i].0@),
        members_view(members)[members[i].0@] == members[i].1@,
    decreases members.len(),
{
    if i < members.len() - 1 {
        let rest = members.drop_last();
        assert forall|j: int| i < j < rest.len() implies (#[trigger] rest[j]).0@ != rest[i].0@ by {
            assert(members[j].0@ != members[i].0@);
        }
        lemma_member_counts(rest, i);
        assert(members[members.len() - 1].0@ != members[i].0@);
    }
}

proof fn lemma_no_such_member(members: Seq<(String, Json)>, name: Seq<char>)
    requires
        forall|j: int| 0 <= j < members.len() ==> (#[trigger] members[j]).0@ != name,
    ensures
        !members_view(members).dom().contains(name),
    decreases members.len(),
{
    if members.len() > 0 {
        let rest = members.drop_last();
        assert forall|j: int| 0 <= j < rest.len() implies (#[trigger] rest[j]).0@ != name by {
            assert(members[j].0@ != name);
        }
        lemma_no_such_member(rest, name);
        assert(members[members.len() - 1].0@ != name);
    }
}

/// An object has the members that it lists: of two with one name the later
/// counts, and a name that it does not list it does not have.
pub proof fn law_object_has_its_members(members: Vec<(String, Json)>, name: Seq<char>, i: int)
    ensures
        Json::Object(members)@ is Object,
        0 <= i < members@.len() && members@[i].0@ == name && (forall|j: int|
            i < j < members@.len() ==> (#[trigger] members@[j]).0@ != name) ==> Json::Object(
            members,
        )@.get(name) == Some(members@[i].1@),
        (forall|j: int| 0 <= j < members@.len() ==> (#[trigger] members@[j]).0@ != name)
            ==> Json::Object(members)@.get(name) is None,
{
    if 0 <= i < members@.len() && members@[i].0@ == name && (forall|j: int|
        i < j < members@.len() ==> (#[trigger] members@[j]).0@ != name) {
        lemma_member_counts(members@, i);
    }
    if forall|j: int| 0 <= j < members@.len() ==> (#[trigger] members@[j]).0@ != name {
        lemma_no_such_member(members@, name);
    }
}

/// A member that is set is there, one that is taken out is not, and the others
/// stay as they are. What is no object has no members and gets none.
pub proof fn law_members_are_set_and_taken_out(
    json: JsonView,
    name: Seq<char>,
    value: JsonView,
    other: Seq<char>,
)
    ensures
        json is Object ==> json.with(name, value).get(name) == Some(value),
        json is Object ==> json.with(name, value) is Object && json.without(name) is Object,
        json.without(name).get(name) is None,
        other != name ==> json.with(name, value).get(other) == json.get(other),
        other != name ==> json.without(name).get(other) == json.get(other),
        json !is Object ==> json.with(name, value) == json && json.without(name) == json,
        json !is Object ==> json.get(name) is None,
        JsonView::object().get(name) is None,
        JsonView::object() is Object,
{
}

/// An item that is added comes last, after the others. What is no array gets
/// none.
pub proof fn law_items_are_added_at_the_end(json: JsonView, items: Seq<JsonView>, value: JsonView)
    ensures
        JsonView::Array(items).item(value) == JsonView::Array(items.push(value)),
        json !is Array ==> json.item(value) == json,
        JsonView::array() == JsonView::Array(Seq::<JsonView>::empty()),
{
}

/// A text, and nothing else, has characters.
pub proof fn law_texts_have_characters(json: JsonView, s: Seq<char>)
    ensures
        json.as_str() == Some(s) <==> json == JsonView::Text(s),
        json !is Text ==> json.as_str() is None,
{
}

/// What is written reads back if it has no fraction in it: a single value does,
/// and an array or an object does where its parts do, one level deeper.
pub proof fn law_what_reads_back(
    json: JsonView,
    items: Seq<JsonView>,
    members: Map<Seq<char>, JsonView>,
    depth: nat,
)
    requires
        forall|i: int| 0 <= i < items.len() ==> exact_within(#[trigger] items[i], depth),
        forall|name: Seq<char>|
            members.dom().contains(name) ==> exact_within(#[trigger] members[name], depth),
    ensures
        json is Null || json is Bool || json is Int || json is Text ==> reads_back(json),
        exact_within(JsonView::Array(items), depth + 1),
        exact_within(JsonView::Object(members), depth + 1),
        depth <= 126 ==> reads_back(JsonView::Array(items)) && reads_back(
            JsonView::Object(members),
        ),
    decreases depth,
{
    lemma_deeper_is_more(JsonView::Array(items), depth + 1, 127);
    lemma_deeper_is_more(JsonView::Object(members), depth + 1, 127);
}

proof fn lemma_deeper_is_more(json: JsonView, depth: nat, deeper: nat)
    ensures
        depth <= deeper && exact_within(json, depth) ==> exact_within(json, deeper),
    decreases depth,
{
    if depth <= deeper && exact_within(json, depth) {
        match json {
            JsonView::Array(items) => {
                assert forall|i: int| 0 <= i < items.len() implies exact_within(
                    #[trigger] items[i],
                    (deeper - 1) as nat,
                ) by {
                    lemma_deeper_is_more(items[i], (depth - 1) as nat, (deeper - 1) as nat);
                }
            },
            JsonView::Object(members) => {
                assert forall|name: Seq<char>| members.dom().contains(name) implies exact_within(
                    #[trigger] members[name],
                    (deeper - 1) as nat,
                ) by {
                    lemma_deeper_is_more(members[name], (depth - 1) as nat, (deeper - 1) as nat);
                }
            },
            _ => {},
        }
    }
}

} // verus!
