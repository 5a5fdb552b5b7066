//! JSON values as plain data, with their mathematical model.

use vstd::prelude::*;
use std::str::FromStr;
use crate::integer::{format_i64, format_u64, integer_literal};
use crate::text::text_eq;

verus! {

/// Mathematical model of a JSON value.
///
/// A number is the text that writes it, so no precision is lost. The members
/// of an object keep their order; looking a key up finds its first member.
pub ghost enum JsonModel {
    Null,
    Bool(bool),
    Number(Seq<char>),
    Str(Seq<char>),
    Array(Seq<JsonModel>),
    Object(Seq<MemberModel>),
}

/// Mathematical model of one member of a JSON object.
pub ghost struct MemberModel {
    pub key: Seq<char>,
    pub value: JsonModel,
}

/// The value of the first member at or after position `from` whose key is `key`.
pub open spec fn find_member(
    members: Seq<MemberModel>,
    key: Seq<char>,
    from: int,
) -> Option<JsonModel>
    decreases members.len() - from,
{
    if from < 0 || from >= members.len() {
        None
    } else if members[from].key == key {
        Some(members[from].value)
    } else {
        find_member(members, key, from + 1)
    }
}

impl JsonModel {
    /// The value under `key`, if this is an object that has such a member.
    pub open spec fn member(self, key: Seq<char>) -> Option<JsonModel> {
        match self {
            JsonModel::Object(members) => find_member(members, key, 0),
            _ => None,
        }
    }

    /// True for a string or a number: a value without parts that carries a text.
    pub open spec fn is_scalar(self) -> bool {
        self is Str || self is Number
    }

    /// True where arrays and objects lie in each other at most `limit` deep:
    /// a value without parts nests within any limit, an array or object
    /// within a limit above zero that its parts nest within, less one.
    pub open spec fn nests_within(self, limit: nat) -> bool
        decreases limit,
    {
        match self {
            JsonModel::Array(items) => limit > 0 && forall|i: int|
                #![trigger items[i]]
                0 <= i < items.len() ==> items[i].nests_within((limit - 1) as nat),
            JsonModel::Object(members) => limit > 0 && forall|i: int|
                #![trigger members[i]]
                0 <= i < members.len() ==> members[i].value.nests_within((limit - 1) as nat),
            _ => true,
        }
    }
}

/// An array nests within a limit exactly if the limit is above zero and
/// every item nests within the limit less one.
pub proof fn lemma_array_nesting(items: Seq<JsonModel>, limit: nat)
    ensures
        JsonModel::Array(items).nests_within(limit) <==> limit > 0 && forall|i: int|
            #![trigger items[i]]
            0 <= i < items.len() ==> items[i].nests_within((limit - 1) as nat),
{
    let whole = JsonModel::Array(items);
    if whole.nests_within(limit) {
        assert forall|i: int| 0 <= i < items.len() implies items[i].nests_within(
            (limit - 1) as nat,
        ) by {
            assert(whole->Array_0[i] == items[i]);
        }
    }
}

/// An object nests within a limit exactly if the limit is above zero and
/// the value of every member nests within the limit less one.
pub proof fn lemma_object_nesting(members: Seq<MemberModel>, limit: nat)
    ensures
        JsonModel::Object(members).nests_within(limit) <==> limit > 0 && forall|i: int|
            #![trigger members[i]]
            0 <= i < members.len() ==> members[i].value.nests_within((limit - 1) as nat),
{
}

/// The deepest nesting of arrays and objects that is written out as text.
pub const DEPTH_LIMIT: usize = 128;

/// One member of a JSON object.
#[derive(Debug, PartialEq, Eq)]
pub struct Member {
    pub key: String,
    pub value: Json,
}

/// A JSON value.
#[derive(Debug, PartialEq, Eq)]
pub enum Json {
    Null,
    Bool(bool),
    Number(String),
    Str(String),
    Array(Vec<Json>),
    Object(Vec<Member>),
}

impl View for Member {
    type V = MemberModel;

    open spec fn view(&self) -> MemberModel {
        MemberModel { key: self.key@, value: self.value@ }
    }
}

impl View for Json {
    type V = JsonModel;

    open spec fn view(&self) -> JsonModel
        decreases self,
    {
        match self {
            Json::Null => JsonModel::Null,
            Json::Bool(b) => JsonModel::Bool(*b),
            Json::Number(text) => JsonModel::Number(text@),
            Json::Str(text) => JsonModel::Str(text@),
            Json::Array(items) => JsonModel::Array(
                Seq::new(
                    items@.len(),
                    |i: int|
                        if 0 <= i < items@.len() {
                            items@[i]@
                        } else {
                            JsonModel::Null
                        },
                ),
            ),
            Json::Object(members) => JsonModel::Object(
                Seq::new(
                    members@.len(),
                    |i: int|
                        if 0 <= i < members@.len() {
                            MemberModel { key: members@[i].key@, value: members@[i].value@ }
                        } else {
                            MemberModel { key: Seq::empty(), value: JsonModel::Null }
                        },
                ),
            ),
        }
    }
}

impl DeepView for Json {
    type V = JsonModel;

    open spec fn deep_view(&self) -> JsonModel {
        self@
    }
}

/// The models of a list of values, in order.
pub open spec fn items_model(items: Seq<Json>) -> Seq<JsonModel> {
    Seq::new(items.len(), |i: int| if 0 <= i < items.len() { items[i]@ } else { JsonModel::Null })
}

/// The models of a list of members, in order.
pub open spec fn members_model(members: Seq<Member>) -> Seq<MemberModel> {
    Seq::new(
        members.len(),
        |i: int|
            if 0 <= i < members.len() {
                members[i]@
            } else {
                MemberModel { key: Seq::empty(), value: JsonModel::Null }
            },
    )
}

/// `serde_json::Value`, the form in which the parser hands a document over.
#[verifier::external_type_specification]
#[verifier::external_body]
pub struct ExValue(serde_json::Value);

/// What `serde_json::from_str` reads from a text: the document as a value, or
/// `None` where the parser reports an error. The value has each number as the
/// text that `serde_json::Number` displays, which keeps every digit of the
/// literal, and the members of each object as the parser's map walks them.
pub uninterp spec fn json_parse(text: Seq<char>) -> Option<JsonModel>;

/// Calls `serde_json::from_str` for a `serde_json::Value` and hands the
/// document over as a [`Json`]. The contract claims only that the outcome is
/// the one that the parser has for this text.
#[verifier::external_body]
fn read_document(text: &str) -> (document: Option<Json>)
    ensures
        document matches Some(value) ==> json_parse(text@) == Some(value@),
        document is None ==> json_parse(text@) is None,
{
    match serde_json::from_str::<serde_json::Value>(text) {
        Ok(value) => Some(from_value(&value)),
        Err(_) => None,
    }
}

/// Turns a `serde_json::Value` into a [`Json`], variant by variant; a number
/// becomes the text that `serde_json::Number` displays.
#[verifier::external_body]
fn from_value(value: &serde_json::Value) -> Json {
    match value {
        serde_json::Value::Null => Json::Null,
        serde_json::Value::Bool(flag) => Json::Bool(*flag),
        serde_json::Value::Number(number) => Json::Number(number.to_string()),
        serde_json::Value::String(text) => Json::Str(text.clone()),
        serde_json::Value::Array(items) => Json::Array(items.iter().map(from_value).collect()),
        serde_json::Value::Object(map) => Json::Object(
            map.iter().map(|(key, item)| Member { key: key.clone(), value: from_value(item) }).collect(),
        ),
    }
}

/// What `serde_json::to_string` writes for a value: the text of the
/// document, or `None` where the value holds a number whose text
/// `serde_json::Number` does not take. An object is written as the parser's
/// map holds it: the keys in the map's order, and of several members with
/// one key the last.
pub uninterp spec fn json_text(document: JsonModel) -> Option<Seq<char>>;

/// Calls `serde_json::to_string` on the value as a `serde_json::Value`. The
/// contract claims only that the outcome is the one that the writer has for
/// this value.
#[verifier::external_body]
fn write_document(document: &Json) -> (text: Option<String>)
    requires
        document@.nests_within(DEPTH_LIMIT as nat),
    ensures
        text matches Some(written) ==> json_text(document@) == Some(written@),
        text is None ==> json_text(document@) is None,
{
    match to_value(document) {
        Some(value) => serde_json::to_string(&value).ok(),
        None => None,
    }
}

/// Turns a [`Json`] into a `serde_json::Value`, variant by variant; the text
/// of a number goes through `serde_json::Number::from_str`, which may refuse it.
#[verifier::external_body]
fn to_value(json: &Json) -> Option<serde_json::Value>
    requires
        json@.nests_within(DEPTH_LIMIT as nat),
{
    Some(match json {
        Json::Null => serde_json::Value::Null,
        Json::Bool(flag) => serde_json::Value::Bool(*flag),
        Json::Number(text) => serde_json::Value::Number(serde_json::Number::from_str(text).ok()?),
        Json::Str(text) => serde_json::Value::String(text.clone()),
        Json::Array(items) => serde_json::Value::Array(items.iter().map(to_value).collect::<Option<_>>()?),
        Json::Object(members) => serde_json::Value::Object(
            members.iter().map(|m| Some((m.key.clone(), to_value(&m.value)?))).collect::<Option<_>>()?,
        ),
    })
}

/// The text of a document: what the writer makes of it, if it nests within
/// [`DEPTH_LIMIT`].
pub open spec fn rendered(document: JsonModel) -> Option<Seq<char>> {
    if document.nests_within(DEPTH_LIMIT as nat) {
        json_text(document)
    } else {
        None
    }
}

/// The model of an array is the list of its items' models.
pub proof fn lemma_array_model(items: Vec<Json>)
    ensures
        Json::Array(items)@ == JsonModel::Array(items_model(items@)),
{
    assert(Json::Array(items)@->Array_0 =~= items_model(items@));
}

/// The model of an object is the list of its members' models.
pub proof fn lemma_object_model(members: Vec<Member>)
    ensures
        Json::Object(members)@ == JsonModel::Object(members_model(members@)),
{
    assert(Json::Object(members)@->Object_0 =~= members_model(members@));
}

impl Member {
    /// The member that holds `value` under `key`.
    pub fn new(key: &str, value: Json) -> (member: Member)
        ensures
            member@ == (MemberModel { key: key@, value: value@ }),
    {
        Member { key: key.to_owned(), value }
    }
}

impl Json {
    /// The string that holds `text`.
    pub fn string(text: &str) -> (j: Json)
        ensures
            j@ == JsonModel::Str(text@),
    {
        Json::Str(text.to_owned())
    }

    /// The number that writes a signed integer.
    pub fn number_i64(n: i64) -> (j: Json)
        ensures
            j@ == JsonModel::Number(integer_literal(n as int)),
    {
        Json::Number(format_i64(n))
    }

    /// The number that writes an unsigned integer.
    pub fn number_u64(n: u64) -> (j: Json)
        ensures
            j@ == JsonModel::Number(integer_literal(n as int)),
    {
        Json::Number(format_u64(n))
    }

    /// The array of these items.
    pub fn array(items: Vec<Json>) -> (j: Json)
        ensures
            j@ == JsonModel::Array(items_model(items@)),
    {
        proof {
            lemma_array_model(items);
        }
        Json::Array(items)
    }

    /// The object of these members.
    pub fn object(members: Vec<Member>) -> (j: Json)
        ensures
            j@ == JsonModel::Object(members_model(members@)),
    {
        proof {
            lemma_object_model(members);
        }
        Json::Object(members)
    }

    /// Tells whether arrays and objects lie in each other at most `limit` deep.
    pub fn nests_within(&self, limit: usize) -> (ok: bool)
        ensures
            ok == self@.nests_within(limit as nat),
        decreases limit,
    {
        match self {
            Json::Array(items) => {
                if limit == 0 {
                    return false;
                }
                proof {
                    lemma_array_model(*items);
                }
                let ghost models = items_model(items@);
                proof {
                    lemma_array_nesting(models, limit as nat);
                }
                let mut i: usize = 0;
                while i < items.len()
                    invariant
                        i <= items.len(),
                        limit > 0,
                        self@.nests_within(limit as nat) <==> forall|k: int|
                            #![trigger models[k]]
                            0 <= k < models.len() ==> models[k].nests_within((limit - 1) as nat),
                        models == items_model(items@),
                        self@ == JsonModel::Array(models),
                        forall|k: int|
                            #![trigger models[k]]
                            0 <= k < i ==> models[k].nests_within((limit - 1) as nat),
                    decreases items.len() - i,
                {
                    if !items[i].nests_within(limit - 1) {
                        assert(!models[i as int].nests_within((limit - 1) as nat));
                        return false;
                    }
                    i += 1;
                }
                true
            },
            Json::Object(members) => {
                if limit == 0 {
                    return false;
                }
                proof {
                    lemma_object_model(*members);
                }
                let ghost models = members_model(members@);
                proof {
                    lemma_object_nesting(models, limit as nat);
                }
                let mut i: usize = 0;
                while i < members.len()
                    invariant
                        i <= members.len(),
                        limit > 0,
                        self@.nests_within(limit as nat) <==> forall|k: int|
                            #![trigger models[k]]
                            0 <= k < models.len() ==> models[k].value.nests_within(
                                (limit - 1) as nat,
                            ),
                        models == members_model(members@),
                        self@ == JsonModel::Object(models),
                        forall|k: int|
                            #![trigger models[k]]
                            0 <= k < i ==> models[k].value.nests_within((limit - 1) as nat),
                    decreases members.len() - i,
                {
                    if !members[i].value.nests_within(limit - 1) {
                        assert(!models[i as int].value.nests_within((limit - 1) as nat));
                        return false;
                    }
                    i += 1;
                }
                true
            },
            _ => true,
        }
    }

    /// Writes the document out as text. There is none for a value that
    /// nests deeper than [`DEPTH_LIMIT`], nor for one that the writer refuses.
    pub fn render(&self) -> (text: Option<String>)
        ensures
            text matches Some(written) ==> rendered(self@) == Some(written@),
            text is None ==> rendered(self@) is None,
    {
        if self.nests_within(DEPTH_LIMIT) {
            write_document(self)
        } else {
            None
        }
    }

    /// Reads a JSON document from its text.
    pub fn parse(text: &str) -> (document: Option<Json>)
        ensures
            document matches Some(value) ==> json_parse(text@) == Some(value@),
            document is None ==> json_parse(text@) is None,
    {
        read_document(text)
    }

    /// Looks up the first member of an object whose key is `key`.
    pub fn get(&self, key: &str) -> (found: Option<&Json>)
        ensures
            found matches Some(value) ==> self@.member(key@) == Some(value@),
            found is None ==> self@.member(key@) is None,
    {
        match self {
            Json::Object(members) => {
                proof {
                    lemma_object_model(*members);
                }
                let mut i: usize = 0;
                while i < members.len()
                    invariant
                        i <= members.len(),
                        self@ == JsonModel::Object(members_model(members@)),
                        self@.member(key@) == find_member(members_model(members@), key@, i as int),
                    decreases members.len() - i,
                {
                    if text_eq(members[i].key.as_str(), key) {
                        return Some(&members[i].value);
                    }
                    i += 1;
                }
                None
            },
            _ => None,
        }
    }
}

impl Clone for Json {
    fn clone(&self) -> (same: Json)
        ensures
            same@ == self@,
        decreases self,
    {
        match self {
            Json::Null => Json::Null,
            Json::Bool(b) => Json::Bool(*b),
            Json::Number(text) => Json::Number(text.clone()),
            Json::Str(text) => Json::Str(text.clone()),
            Json::Array(items) => {
                let mut copies: Vec<Json> = Vec::new();
                let mut i: usize = 0;
                while i < items.len()
                    invariant
                        i <= items.len(),
                        self == Json::Array(*items),
                        copies@.len() == i,
                        forall|k: int| 0 <= k < i ==> copies@[k]@ == items@[k]@,
                    decreases items.len() - i,
                {
                    proof {
                        vstd::std_specs::vec::axiom_vec_index_decreases(*items, i as int);
                        assert(decreases_to!(*self => self->Array_0));
                    }
                    let item = items[i].clone();
                    copies.push(item);
                    i += 1;
                }
                proof {
                    assert(items_model(copies@) =~= items_model(items@));
                    lemma_array_model(copies);
                    lemma_array_model(*items);
                }
                Json::Array(copies)
            },
            Json::Object(members) => {
                let mut copies: Vec<Member> = Vec::new();
                let mut i: usize = 0;
                while i < members.len()
                    invariant
                        i <= members.len(),
                        self == Json::Object(*members),
                        copies@.len() == i,
                        forall|k: int| 0 <= k < i ==> copies@[k]@ == members@[k]@,
                    decreases members.len() - i,
                {
                    proof {
                        vstd::std_specs::vec::axiom_vec_index_decreases(*members, i as int);
                        assert(decreases_to!(*self => self->Object_0));
                    }
                    let value = members[i].value.clone();
                    copies.push(Member { key: members[i].key.clone(), value });
                    i += 1;
                }
                proof {
                    assert(members_model(copies@) =~= members_model(members@));
                    lemma_object_model(copies);
                    lemma_object_model(*members);
                }
                Json::Object(copies)
            },
        }
    }
}

} // verus!
