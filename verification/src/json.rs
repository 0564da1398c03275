//! JSON documents as trees. The library builds and reads trees; the text of
//! a tree is written and read by `serde_json`.

use crate::text::has_distinct_firsts;
use crate::text::str_eq;
use serde_json::Value;
use vstd::prelude::*;

verus! {

/// A JSON document as a mathematical value. An object is the sequence of
/// its members in the order in which they are written.
pub enum JsonView {
    Null,
    Bool(bool),
    /// A number that is an unsigned integer of 64 bits.
    Number(u64),
    /// A number that is an integer below zero.
    Negative(i64),
    /// Any other number, a fraction or an integer that 64 bits do not hold,
    /// as the text that stands for it.
    Decimal(Seq<char>),
    Text(Seq<char>),
    Array(Seq<JsonView>),
    Object(Seq<(Seq<char>, JsonView)>),
}

/// No two members of `members` share a key.
pub open spec fn distinct_keys(members: Seq<(Seq<char>, JsonView)>) -> bool {
    forall|i: int, j: int|
        0 <= i < j < members.len() ==> (#[trigger] members[i]).0 != (#[trigger] members[j]).0
}

/// The value of the first member of `members` from position `from` on whose
/// key is `key`.
pub open spec fn member_from(members: Seq<(Seq<char>, JsonView)>, key: Seq<char>, from: int) -> Option<
    JsonView,
>
    decreases members.len() - from,
{
    if from < 0 || from >= members.len() {
        None
    } else if members[from].0 == key {
        Some(members[from].1)
    } else {
        member_from(members, key, from + 1)
    }
}

/// A position that `member_index` gives lies in the object and holds the
/// key.
pub proof fn lemma_member_index(members: Seq<(Seq<char>, JsonView)>, key: Seq<char>, from: int)
    requires
        0 <= from,
    ensures
        member_index(members, key, from) matches Some(i) ==> from <= i < members.len() && members[i].0
            == key,
    decreases members.len() - from,
{
    if from < members.len() && members[from].0 != key {
        lemma_member_index(members, key, from + 1);
    }
}

/// The position of the first member of `members` from position `from` on
/// whose key is `key`.
pub open spec fn member_index(members: Seq<(Seq<char>, JsonView)>, key: Seq<char>, from: int) -> Option<
    int,
>
    decreases members.len() - from,
{
    if from < 0 || from >= members.len() {
        None
    } else if members[from].0 == key {
        Some(from)
    } else {
        member_index(members, key, from + 1)
    }
}

impl JsonView {
    /// Every object in the tree has distinct keys.
    pub open spec fn wf(self) -> bool
        decreases self,
    {
        match self {
            JsonView::Array(items) => {
                forall|i: int| 0 <= i < items.len() ==> (#[trigger] items[i]).wf()
            },
            JsonView::Object(members) => {
                &&& distinct_keys(members)
                &&& forall|i: int| 0 <= i < members.len() ==> (#[trigger] members[i]).1.wf()
            },
            _ => true,
        }
    }

    /// The tree holds no number but integers of 64 bits, and none under
    /// `Negative` that is not below zero.
    pub open spec fn exact(self) -> bool
        decreases self,
    {
        match self {
            JsonView::Decimal(_) => false,
            JsonView::Negative(i) => i < 0,
            JsonView::Array(items) => {
                forall|i: int| 0 <= i < items.len() ==> (#[trigger] items[i]).exact()
            },
            JsonView::Object(members) => {
                forall|i: int| 0 <= i < members.len() ==> (#[trigger] members[i]).1.exact()
            },
            _ => true,
        }
    }

    /// Every number of the tree can be written: none under `Negative` is
    /// zero or more, and the text of each under `Decimal` is read as a
    /// number that is no integer of 64 bits.
    pub open spec fn writable(self) -> bool
        decreases self,
    {
        match self {
            JsonView::Decimal(text) => number_read(text) matches Some(JsonView::Decimal(_)),
            JsonView::Negative(i) => i < 0,
            JsonView::Array(items) => {
                forall|i: int| 0 <= i < items.len() ==> (#[trigger] items[i]).writable()
            },
            JsonView::Object(members) => {
                forall|i: int| 0 <= i < members.len() ==> (#[trigger] members[i]).1.writable()
            },
            _ => true,
        }
    }

    /// The tree as it is written: each number under `Decimal` is the
    /// number that its text is read as, and all else is as it stands.
    pub open spec fn written(self) -> JsonView
        decreases self,
    {
        match self {
            JsonView::Decimal(text) => match number_read(text) {
                Some(number) => number,
                None => self,
            },
            JsonView::Array(items) => JsonView::Array(
                Seq::new(
                    items.len(),
                    |i: int|
                        if 0 <= i < items.len() {
                            items[i].written()
                        } else {
                            JsonView::Null
                        },
                ),
            ),
            JsonView::Object(members) => JsonView::Object(
                Seq::new(
                    members.len(),
                    |i: int|
                        if 0 <= i < members.len() {
                            (members[i].0, members[i].1.written())
                        } else {
                            (Seq::empty(), JsonView::Null)
                        },
                ),
            ),
            _ => self,
        }
    }

    /// The member `key` of an object; `None` for a value that is no object
    /// or has no such member.
    pub open spec fn member(self, key: Seq<char>) -> Option<JsonView> {
        match self {
            JsonView::Object(members) => member_from(members, key, 0),
            _ => None,
        }
    }

    /// The position of the first member `key` of an object.
    pub open spec fn position(self, key: Seq<char>) -> Option<int> {
        match self {
            JsonView::Object(members) => member_index(members, key, 0),
            _ => None,
        }
    }

    /// The text of a string value.
    pub open spec fn text(self) -> Option<Seq<char>> {
        match self {
            JsonView::Text(s) => Some(s),
            _ => None,
        }
    }

    /// The items of an array.
    pub open spec fn items(self) -> Option<Seq<JsonView>> {
        match self {
            JsonView::Array(items) => Some(items),
            _ => None,
        }
    }
}

/// An array is well formed exactly where its items are.
pub proof fn lemma_array_wf(items: Seq<JsonView>)
    ensures
        JsonView::Array(items).wf() <==> forall|i: int| 0 <= i < items.len() ==> (#[trigger] items[i]).wf(),
        JsonView::Array(items).exact() <==> forall|i: int|
            0 <= i < items.len() ==> (#[trigger] items[i]).exact(),
        JsonView::Array(items).writable() <==> forall|i: int|
            0 <= i < items.len() ==> (#[trigger] items[i]).writable(),
{
    let json = JsonView::Array(items);
    assert(json->Array_0 == items);
    if json.wf() {
        assert forall|i: int| 0 <= i < items.len() implies (#[trigger] items[i]).wf() by {
            assert(json->Array_0[i].wf());
        }
    }
    if json.exact() {
        assert forall|i: int| 0 <= i < items.len() implies (#[trigger] items[i]).exact() by {
            assert(json->Array_0[i].exact());
        }
    }
    if json.writable() {
        assert forall|i: int| 0 <= i < items.len() implies (#[trigger] items[i]).writable() by {
            assert(json->Array_0[i].writable());
        }
    }
}

/// An object is well formed exactly where its keys are distinct and its
/// values are well formed.
pub proof fn lemma_object_wf(members: Seq<(Seq<char>, JsonView)>)
    ensures
        JsonView::Object(members).wf() <==> distinct_keys(members) && forall|i: int|
            0 <= i < members.len() ==> (#[trigger] members[i]).1.wf(),
        JsonView::Object(members).exact() <==> forall|i: int|
            0 <= i < members.len() ==> (#[trigger] members[i]).1.exact(),
        JsonView::Object(members).writable() <==> forall|i: int|
            0 <= i < members.len() ==> (#[trigger] members[i]).1.writable(),
{
    let json = JsonView::Object(members);
    assert(json->Object_0 == members);
    if json.wf() {
        assert forall|i: int| 0 <= i < members.len() implies (#[trigger] members[i]).1.wf() by {
            assert(json->Object_0[i].1.wf());
        }
    }
    if json.exact() {
        assert forall|i: int| 0 <= i < members.len() implies (#[trigger] members[i]).1.exact() by {
            assert(json->Object_0[i].1.exact());
        }
    }
    if json.writable() {
        assert forall|i: int| 0 <= i < members.len() implies (#[trigger] members[i]).1.writable() by {
            assert(json->Object_0[i].1.writable());
        }
    }
}

/// A tree that holds no number but integers is written as it stands.
pub proof fn lemma_exact_is_written(tree: JsonView)
    requires
        tree.exact(),
    ensures
        tree.writable(),
        tree.written() == tree,
    decreases tree,
{
    match tree {
        JsonView::Array(items) => {
            lemma_array_wf(items);
            assert forall|i: int| 0 <= i < items.len() implies (#[trigger] items[i]).writable()
                && items[i].written() == items[i] by {
                lemma_exact_is_written(items[i]);
            }
            assert(tree.written()->Array_0 =~= items);
        },
        JsonView::Object(members) => {
            lemma_object_wf(members);
            assert forall|i: int| 0 <= i < members.len() implies (#[trigger] members[i]).1.writable()
                && members[i].1.written() == members[i].1 by {
                lemma_exact_is_written(members[i].1);
            }
            assert(tree.written()->Object_0 =~= members);
        },
        _ => {},
    }
}

/// A JSON document.
#[derive(Debug, PartialEq, Eq)]
pub enum Json {
    Null,
    Bool(bool),
    /// A number that is an unsigned integer of 64 bits.
    Number(u64),
    /// A number that is an integer below zero.
    Negative(i64),
    /// Any other number, a fraction or an integer that 64 bits do not hold,
    /// as the text that stands for it.
    Decimal(String),
    Text(String),
    Array(Vec<Json>),
    Object(Vec<(String, Json)>),
}

/// The tree that `json` stands for.
pub open spec fn tree_of(json: Json) -> JsonView
    decreases json,
{
    match json {
        Json::Null => JsonView::Null,
        Json::Bool(b) => JsonView::Bool(b),
        Json::Number(n) => JsonView::Number(n),
        Json::Negative(i) => JsonView::Negative(i),
        Json::Decimal(text) => JsonView::Decimal(text@),
        Json::Text(s) => JsonView::Text(s@),
        Json::Array(items) => JsonView::Array(
            Seq::new(
                items@.len(),
                |i: int|
                    if 0 <= i < items@.len() {
                        tree_of(items@[i])
                    } else {
                        JsonView::Null
                    },
            ),
        ),
        Json::Object(members) => JsonView::Object(
            Seq::new(
                members@.len(),
                |i: int|
                    if 0 <= i < members@.len() {
                        (members@[i].0@, tree_of(members@[i].1))
                    } else {
                        (Seq::empty(), JsonView::Null)
                    },
            ),
        ),
    }
}

impl View for Json {
    type V = JsonView;

    open spec fn view(&self) -> JsonView {
        tree_of(*self)
    }
}

impl DeepView for Json {
    type V = JsonView;

    open spec fn deep_view(&self) -> JsonView {
        self@
    }
}

/// The members of an object, each with its key and value taken by view.
pub open spec fn members_view(members: Seq<(String, Json)>) -> Seq<(Seq<char>, JsonView)> {
    Seq::new(members.len(), |i: int| (members[i].0@, members[i].1@))
}

/// The view of an array is the array of its items' views.
pub proof fn lemma_array_view(items: Vec<Json>)
    ensures
        Json::Array(items)@ == JsonView::Array(items.deep_view()),
{
    assert(tree_of(Json::Array(items))->Array_0 =~= items.deep_view());
}

/// The view of an object is the sequence of its members' views.
pub proof fn lemma_object_view(members: Vec<(String, Json)>)
    ensures
        Json::Object(members)@ == JsonView::Object(members_view(members@)),
{
    assert(tree_of(Json::Object(members))->Object_0 =~= members_view(members@));
}

impl Clone for Json {
    fn clone(&self) -> (copy: Self)
        ensures
            copy@ == self@,
        decreases self,
    {
        match self {
            Json::Null => Json::Null,
            Json::Bool(b) => Json::Bool(*b),
            Json::Number(n) => Json::Number(*n),
            Json::Negative(i) => Json::Negative(*i),
            Json::Decimal(text) => Json::Decimal(text.clone()),
            Json::Text(s) => Json::Text(s.clone()),
            Json::Array(items) => {
                let mut copies: Vec<Json> = Vec::new();
                let mut i: usize = 0;
                while i < items.len()
                    invariant
                        i <= items.len(),
                        copies.len() == i,
                        *self == Json::Array(*items),
                        forall|k: int| 0 <= k < i ==> (#[trigger] copies@[k])@ == items@[k]@,
                    decreases items.len() - i,
                {
                    assert(decreases_to!(self => items@[i as int])) by {
                        assert(decreases_to!(*self => self->Array_0));
                        assert(decreases_to!(*items => items@));
                        assert(decreases_to!(items@ => items@[i as int]));
                    }
                    copies.push(items[i].clone());
                    i += 1;
                }
                proof {
                    lemma_array_view(*items);
                    lemma_array_view(copies);
                    assert(copies.deep_view() =~= items.deep_view());
                }
                Json::Array(copies)
            },
            Json::Object(members) => {
                let mut copies: Vec<(String, Json)> = Vec::new();
                let mut i: usize = 0;
                while i < members.len()
                    invariant
                        i <= members.len(),
                        copies.len() == i,
                        forall|k: int|
                            0 <= k < i ==> (#[trigger] copies@[k]).0@ == members@[k].0@
                                && copies@[k].1@ == members@[k].1@,
                        *self == Json::Object(*members),
                    decreases members.len() - i,
                {
                    assert(decreases_to!(self => members@[i as int].1)) by {
                        assert(decreases_to!(*self => self->Object_0));
                        assert(decreases_to!(*members => members@));
                        assert(decreases_to!(members@ => members@[i as int]));
                        assert(decreases_to!(members@[i as int] => members@[i as int].1));
                    }
                    copies.push((members[i].0.clone(), members[i].1.clone()));
                    i += 1;
                }
                proof {
                    lemma_object_view(*members);
                    lemma_object_view(copies);
                    assert(members_view(copies@) =~= members_view(members@));
                }
                Json::Object(copies)
            },
        }
    }
}

impl Json {
    /// The member `key` of an object.
    pub fn get(&self, key: &str) -> (found: Option<&Json>)
        ensures
            found.deep_view() == self@.member(key@),
    {
        match self {
            Json::Object(members) => {
                proof {
                    lemma_object_view(*members);
                }
                let ghost m = members_view(members@);
                let mut i: usize = 0;
                while i < members.len()
                    invariant
                        i <= members.len(),
                        m == members_view(members@),
                        self@ == JsonView::Object(m),
                        member_from(m, key@, 0) == member_from(m, key@, i as int),
                    decreases members.len() - i,
                {
                    assert(m[i as int] == (members@[i as int].0@, members@[i as int].1@));
                    if str_eq(members[i].0.as_str(), key) {
                        return Some(&members[i].1);
                    }
                    i += 1;
                }
                None
            },
            _ => None,
        }
    }

    /// The position of the first member `key` of an object.
    pub fn position(&self, key: &str) -> (found: Option<usize>)
        ensures
            found is Some == self@.position(key@) is Some,
            found matches Some(i) ==> self@.position(key@) == Some(i as int),
    {
        match self {
            Json::Object(members) => {
                proof {
                    lemma_object_view(*members);
                }
                let ghost m = members_view(members@);
                let mut i: usize = 0;
                while i < members.len()
                    invariant
                        i <= members.len(),
                        m == members_view(members@),
                        self@ == JsonView::Object(m),
                        member_index(m, key@, 0) == member_index(m, key@, i as int),
                    decreases members.len() - i,
                {
                    assert(m[i as int] == (members@[i as int].0@, members@[i as int].1@));
                    if str_eq(members[i].0.as_str(), key) {
                        return Some(i);
                    }
                    i += 1;
                }
                None
            },
            _ => None,
        }
    }

    /// The text of a string value.
    pub fn as_str(&self) -> (text: Option<&str>)
        ensures
            text.deep_view() == self@.text(),
    {
        match self {
            Json::Text(s) => Some(s.as_str()),
            _ => None,
        }
    }

    /// The value of a boolean.
    pub fn as_bool(&self) -> (value: Option<bool>)
        ensures
            value == (match self@ {
                JsonView::Bool(b) => Some(b),
                _ => None,
            }),
    {
        match self {
            Json::Bool(b) => Some(*b),
            _ => None,
        }
    }

    /// The value of a number that is an unsigned integer of 64 bits.
    pub fn as_u64(&self) -> (value: Option<u64>)
        ensures
            value == (match self@ {
                JsonView::Number(n) => Some(n),
                _ => None,
            }),
    {
        match self {
            Json::Number(n) => Some(*n),
            _ => None,
        }
    }

    /// The value of a number that is an integer below zero.
    pub fn as_negative(&self) -> (value: Option<i64>)
        ensures
            value == (match self@ {
                JsonView::Negative(i) => Some(i),
                _ => None,
            }),
    {
        match self {
            Json::Negative(i) => Some(*i),
            _ => None,
        }
    }

    /// The text of a number that is no integer of 64 bits.
    pub fn as_decimal(&self) -> (text: Option<&str>)
        ensures
            text.deep_view() == (match self@ {
                JsonView::Decimal(t) => Some(t),
                _ => None,
            }),
    {
        match self {
            Json::Decimal(t) => Some(t.as_str()),
            _ => None,
        }
    }

    /// The items of an array.
    pub fn as_array(&self) -> (items: Option<&Vec<Json>>)
        ensures
            items.deep_view() == self@.items(),
    {
        match self {
            Json::Array(items) => {
                proof {
                    lemma_array_view(*items);
                }
                Some(items)
            },
            _ => None,
        }
    }

    /// Whether the value is `null`.
    pub fn is_null(&self) -> (yes: bool)
        ensures
            yes == (self@ is Null),
    {
        match self {
            Json::Null => true,
            _ => false,
        }
    }

    /// Whether the value is a string.
    pub fn is_string(&self) -> (yes: bool)
        ensures
            yes == (self@ is Text),
    {
        match self {
            Json::Text(_) => true,
            _ => false,
        }
    }
}

/// `serde_json::Value`, a JSON document as the outside crate holds it.
#[verifier::external_type_specification]
#[verifier::external_body]
pub struct ExValue(serde_json::Value);

/// `serde_json::Error`, the outside crate's reason for refusing a text.
#[verifier::external_type_specification]
#[verifier::external_body]
pub struct ExJsonError(serde_json::Error);

/// The tree that a `serde_json::Value` holds, its objects' members in the
/// order in which the value walks them.
pub uninterp spec fn value_tree(value: serde_json::Value) -> JsonView;

/// What `serde_json::to_string` gives for `tree`: its compact text, if any.
pub uninterp spec fn json_text(tree: JsonView) -> Option<Seq<char>>;

/// The tree that `serde_json::from_str` reads from `text`; `None` where it
/// refuses the text.
pub uninterp spec fn json_parsed(text: Seq<char>) -> Option<JsonView>;

/// The number that `serde_json::Number::from_str` reads from `text`, as
/// the tree of the value that holds it; `None` where it refuses the text.
pub uninterp spec fn number_read(text: Seq<char>) -> Option<JsonView>;

/// `serde_json::Number::from_str`, with the number handed back as a value:
/// it gives a number exactly where one is named for the text, and the
/// value holds that number.
#[verifier::external_body]
fn read_number(text: &str) -> (read: Result<serde_json::Value, serde_json::Error>)
    ensures
        read is Ok == number_read(text@) is Some,
        read matches Ok(value) ==> number_read(text@) == Some(value_tree(value)),
{
    text.parse::<serde_json::Number>().map(Value::Number)
}

/// Builds the `serde_json::Value` for a tree, variant by variant; a number
/// under `Decimal` is what `serde_json::Number::from_str` reads from its
/// text. With distinct keys in every object and numbers that can be
/// written, the value holds the tree as it is written.
#[verifier::external_body]
fn to_outside(json: &Json) -> (value: serde_json::Value)
    requires
        json@.wf(),
        json@.writable(),
    ensures
        value_tree(value) == json@.written(),
{
    match json {
        Json::Null => Value::Null,
        Json::Decimal(t) => t.parse().map_or(Value::Null, Value::Number),
        Json::Bool(b) => (*b).into(),
        Json::Number(n) => (*n).into(),
        Json::Negative(i) => (*i).into(),
        Json::Text(s) => s.clone().into(),
        Json::Array(items) => Value::Array(items.iter().map(to_outside).collect()),
        Json::Object(members) => Value::Object(
            members.iter().map(|m| (m.0.clone(), to_outside(&m.1))).collect(),
        ),
    }
}

/// Reads a `serde_json::Value` into a tree, variant by variant. A number
/// that is no integer of 64 bits is kept as the text that the outside
/// crate writes for it. The keys of a value's object are distinct.
#[verifier::external_body]
fn from_outside(value: &serde_json::Value) -> (json: Json)
    ensures
        json@ == value_tree(*value),
        json@.wf(),
{
    match value {
        Value::Null => Json::Null,
        Value::Bool(b) => Json::Bool(*b),
        Value::Number(n) => match (n.as_u64(), n.as_i64()) {
            (Some(u), _) => Json::Number(u),
            (None, Some(i)) => Json::Negative(i),
            (None, None) => Json::Decimal(n.to_string()),
        },
        Value::String(s) => Json::Text(s.clone()),
        Value::Array(items) => Json::Array(items.iter().map(from_outside).collect()),
        Value::Object(members) => Json::Object(
            members.iter().map(|m| (m.0.clone(), from_outside(m.1))).collect(),
        ),
    }
}

/// `serde_json::to_string` on a value: it gives the text that is named for
/// the value's tree. It gives no error: a value's keys are strings, its
/// numbers are finite, and the text is written to memory.
#[verifier::external_body]
fn write_text(value: &serde_json::Value) -> (written: Result<String, serde_json::Error>)
    ensures
        written is Ok,
        written_view(written) == json_text(value_tree(*value)),
{
    serde_json::to_string(value)
}

/// `serde_json::from_str` for a value: it gives a value exactly where a
/// tree is named for the text, and the value holds that tree.
#[verifier::external_body]
fn read_text(text: &str) -> (read: Result<serde_json::Value, serde_json::Error>)
    ensures
        read is Ok == json_parsed(text@) is Some,
        read matches Ok(value) ==> json_parsed(text@) == Some(value_tree(value)),
{
    serde_json::from_str(text)
}

impl Json {
    /// Whether every object in the tree has distinct keys.
    pub fn is_wf(&self) -> (yes: bool)
        ensures
            yes == self@.wf(),
        decreases self,
    {
        match self {
            Json::Array(items) => {
                proof {
                    lemma_array_view(*items);
                    lemma_array_wf(items.deep_view());
                }
                let mut i: usize = 0;
                while i < items.len()
                    invariant
                        i <= items.len(),
                        *self == Json::Array(*items),
                        self@ == JsonView::Array(items.deep_view()),
                        forall|k: int| 0 <= k < i ==> (#[trigger] items@[k])@.wf(),
                    decreases items.len() - i,
                {
                    assert(decreases_to!(self => items@[i as int])) by {
                        assert(decreases_to!(*self => self->Array_0));
                        assert(decreases_to!(*items => items@));
                        assert(decreases_to!(items@ => items@[i as int]));
                    }
                    if !items[i].is_wf() {
                        proof {
                            lemma_array_wf(items.deep_view());
                            assert(!items.deep_view()[i as int].wf());
                        }
                        return false;
                    }
                    i += 1;
                }
                assert forall|k: int| 0 <= k < items.deep_view().len() implies (
                #[trigger] items.deep_view()[k]).wf() by {
                    assert(items@[k]@.wf());
                }
                true
            },
            Json::Object(members) => {
                proof {
                    lemma_object_view(*members);
                    lemma_object_wf(members_view(members@));
                }
                if !has_distinct_firsts(members) {
                    proof {
                        let (a, b) = choose|a: int, b: int|
                            0 <= a < b < members@.len() && (#[trigger] members@[a]).0@ == (
                            #[trigger] members@[b]).0@;
                        assert(members_view(members@)[a].0 == members_view(members@)[b].0);
                    }
                    return false;
                }
                assert forall|a: int, b: int|
                    0 <= a < b < members@.len() implies (#[trigger] members_view(members@)[a]).0 != (
                #[trigger] members_view(members@)[b]).0 by {
                    assert(members@[a].0@ != members@[b].0@);
                }
                let mut i: usize = 0;
                while i < members.len()
                    invariant
                        i <= members.len(),
                        *self == Json::Object(*members),
                        self@ == JsonView::Object(members_view(members@)),
                        forall|k: int| 0 <= k < i ==> (#[trigger] members@[k]).1@.wf(),
                    decreases members.len() - i,
                {
                    assert(decreases_to!(self => members@[i as int].1)) by {
                        assert(decreases_to!(*self => self->Object_0));
                        assert(decreases_to!(*members => members@));
                        assert(decreases_to!(members@ => members@[i as int]));
                        assert(decreases_to!(members@[i as int] => members@[i as int].1));
                    }
                    if !members[i].1.is_wf() {
                        proof {
                            lemma_object_wf(members_view(members@));
                            assert(!members_view(members@)[i as int].1.wf());
                        }
                        return false;
                    }
                    i += 1;
                }
                assert forall|k: int| 0 <= k < members_view(members@).len() implies (
                #[trigger] members_view(members@)[k]).1.wf() by {
                    assert(members@[k].1@.wf());
                }
                true
            },
            _ => true,
        }
    }

    /// Whether the tree holds no number but integers, each under its own
    /// variant.
    pub fn is_exact(&self) -> (yes: bool)
        ensures
            yes == self@.exact(),
        decreases self,
    {
        match self {
            Json::Decimal(_) => false,
            Json::Negative(i) => *i < 0,
            Json::Array(items) => {
                proof {
                    lemma_array_view(*items);
                    lemma_array_wf(items.deep_view());
                }
                let mut i: usize = 0;
                while i < items.len()
                    invariant
                        i <= items.len(),
                        *self == Json::Array(*items),
                        self@ == JsonView::Array(items.deep_view()),
                        forall|k: int| 0 <= k < i ==> (#[trigger] items@[k])@.exact(),
                    decreases items.len() - i,
                {
                    assert(decreases_to!(self => items@[i as int])) by {
                        assert(decreases_to!(*self => self->Array_0));
                        assert(decreases_to!(*items => items@));
                        assert(decreases_to!(items@ => items@[i as int]));
                    }
                    if !items[i].is_exact() {
                        proof {
                            lemma_array_wf(items.deep_view());
                            assert(!items.deep_view()[i as int].exact());
                        }
                        return false;
                    }
                    i += 1;
                }
                assert forall|k: int| 0 <= k < items.deep_view().len() implies (
                #[trigger] items.deep_view()[k]).exact() by {
                    assert(items@[k]@.exact());
                }
                true
            },
            Json::Object(members) => {
                proof {
                    lemma_object_view(*members);
                    lemma_object_wf(members_view(members@));
                }
                let mut i: usize = 0;
                while i < members.len()
                    invariant
                        i <= members.len(),
                        *self == Json::Object(*members),
                        self@ == JsonView::Object(members_view(members@)),
                        forall|k: int| 0 <= k < i ==> (#[trigger] members@[k]).1@.exact(),
                    decreases members.len() - i,
                {
                    assert(decreases_to!(self => members@[i as int].1)) by {
                        assert(decreases_to!(*self => self->Object_0));
                        assert(decreases_to!(*members => members@));
                        assert(decreases_to!(members@ => members@[i as int]));
                        assert(decreases_to!(members@[i as int] => members@[i as int].1));
                    }
                    if !members[i].1.is_exact() {
                        proof {
                            lemma_object_wf(members_view(members@));
                            assert(!members_view(members@)[i as int].1.exact());
                        }
                        return false;
                    }
                    i += 1;
                }
                assert forall|k: int| 0 <= k < members_view(members@).len() implies (
                #[trigger] members_view(members@)[k]).1.exact() by {
                    assert(members@[k].1@.exact());
                }
                true
            },
            _ => true,
        }
    }

    /// Whether every number of the tree can be written.
    pub fn is_writable(&self) -> (yes: bool)
        ensures
            yes == self@.writable(),
        decreases self,
    {
        match self {
            Json::Decimal(text) => match read_number(text.as_str()) {
                Ok(value) => match from_outside(&value) {
                    Json::Decimal(_) => true,
                    _ => false,
                },
                Err(_) => false,
            },
            Json::Negative(i) => *i < 0,
            Json::Array(items) => {
                proof {
                    lemma_array_view(*items);
                    lemma_array_wf(items.deep_view());
                }
                let mut i: usize = 0;
                while i < items.len()
                    invariant
                        i <= items.len(),
                        *self == Json::Array(*items),
                        self@ == JsonView::Array(items.deep_view()),
                        forall|k: int| 0 <= k < i ==> (#[trigger] items@[k])@.writable(),
                    decreases items.len() - i,
                {
                    assert(decreases_to!(self => items@[i as int])) by {
                        assert(decreases_to!(*self => self->Array_0));
                        assert(decreases_to!(*items => items@));
                        assert(decreases_to!(items@ => items@[i as int]));
                    }
                    if !items[i].is_writable() {
                        proof {
                            lemma_array_wf(items.deep_view());
                            assert(!items.deep_view()[i as int].writable());
                        }
                        return false;
                    }
                    i += 1;
                }
                assert forall|k: int| 0 <= k < items.deep_view().len() implies (
                #[trigger] items.deep_view()[k]).writable() by {
                    assert(items@[k]@.writable());
                }
                true
            },
            Json::Object(members) => {
                proof {
                    lemma_object_view(*members);
                    lemma_object_wf(members_view(members@));
                }
                let mut i: usize = 0;
                while i < members.len()
                    invariant
                        i <= members.len(),
                        *self == Json::Object(*members),
                        self@ == JsonView::Object(members_view(members@)),
                        forall|k: int| 0 <= k < i ==> (#[trigger] members@[k]).1@.writable(),
                    decreases members.len() - i,
                {
                    assert(decreases_to!(self => members@[i as int].1)) by {
                        assert(decreases_to!(*self => self->Object_0));
                        assert(decreases_to!(*members => members@));
                        assert(decreases_to!(members@ => members@[i as int]));
                        assert(decreases_to!(members@[i as int] => members@[i as int].1));
                    }
                    if !members[i].1.is_writable() {
                        proof {
                            lemma_object_wf(members_view(members@));
                            assert(!members_view(members@)[i as int].1.writable());
                        }
                        return false;
                    }
                    i += 1;
                }
                assert forall|k: int| 0 <= k < members_view(members@).len() implies (
                #[trigger] members_view(members@)[k]).1.writable() by {
                    assert(members@[k].1@.writable());
                }
                true
            },
            _ => true,
        }
    }

    /// What the outside writer gave for a tree that can be written: its
    /// text where it gave one.
    pub fn written_text(written: Result<String, serde_json::Error>) -> (text: Option<String>)
        ensures
            text == (match written {
                Ok(t) => Some(t),
                Err(_) => None,
            }),
    {
        match written {
            Ok(text) => Some(text),
            Err(_) => None,
        }
    }

    /// The compact text of the document. A tree in which an object has a
    /// key twice, or which holds a number that cannot be written, has no
    /// text; for any other tree the text is what the outside writer gives
    /// for the tree as it is written.
    pub fn to_text(&self) -> (text: Option<String>)
        ensures
            text.deep_view() == rendered(self@),
            text is Some == (self@.wf() && self@.writable()),
    {
        if !self.is_wf() || !self.is_writable() {
            return None;
        }
        let value = to_outside(self);
        Json::written_text(write_text(&value))
    }

    /// Reads a document from its text; `None` where the text is no JSON.
    pub fn parse(text: &str) -> (json: Option<Json>)
        ensures
            json.deep_view() == json_parsed(text@),
            json matches Some(j) ==> j@.wf(),
    {
        match read_text(text) {
            Ok(value) => Some(from_outside(&value)),
            Err(_) => None,
        }
    }
}

/// What the outside writer gave, as a mathematical value: the text, or
/// `None` for an error.
pub open spec fn written_view(written: Result<String, serde_json::Error>) -> Option<Seq<char>> {
    match written {
        Ok(text) => Some(text@),
        Err(_) => None,
    }
}

/// The text of a tree. A tree in which an object has a key twice, or which
/// holds a number that cannot be written, has no text; for any other tree
/// the text is what the outside writer gives for the tree as it is written.
pub open spec fn rendered(tree: JsonView) -> Option<Seq<char>> {
    if tree.wf() && tree.writable() {
        json_text(tree.written())
    } else {
        None
    }
}

} // verus!
