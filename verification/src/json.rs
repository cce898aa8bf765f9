//! JSON documents, as far as this library reads and writes them.
use crate::text::same_text;
use serde_json::Value;
use vstd::prelude::*;

verus! {

/// What a JSON document holds, as a mathematical value.
pub enum Tree {
    Null,
    Bool(bool),
    /// A number: its value where it is a non-negative integer that fits 64 bits.
    Number(Option<u64>),
    Text(Seq<char>),
    Array(Seq<Tree>),
    Object(Map<Seq<char>, Tree>),
}

/// A JSON document. Of a number it keeps what `serde_json` calls its `u64`
/// value; of two members with one name the later counts.
pub enum Json {
    Null,
    Bool(bool),
    Number(Option<u64>),
    Text(String),
    Array(Vec<Json>),
    Object(Vec<(String, Json)>),
}

impl Json {
    pub open spec fn tree(self) -> Tree
        decreases self,
    {
        match self {
            Json::Null => Tree::Null,
            Json::Bool(b) => Tree::Bool(b),
            Json::Number(n) => Tree::Number(n),
            Json::Text(s) => Tree::Text(s@),
            Json::Array(items) => Tree::Array(array_tree(items@)),
            Json::Object(members) => Tree::Object(object_tree(members@)),
        }
    }
}

pub open spec fn array_tree(items: Seq<Json>) -> Seq<Tree>
    decreases items,
{
    if items.len() == 0 {
        Seq::empty()
    } else {
        array_tree(items.drop_last()).push(items.last().tree())
    }
}

pub open spec fn object_tree(members: Seq<(String, Json)>) -> Map<Seq<char>, Tree>
    decreases members,
{
    if members.len() == 0 {
        Map::empty()
    } else {
        object_tree(members.drop_last()).insert(members.last().0@, members.last().1.tree())
    }
}

impl View for Json {
    type V = Tree;

    open spec fn view(&self) -> Tree {
        self.tree()
    }
}

/// `serde_json::Value`, which Verus sees as an opaque type.
#[verifier::external_type_specification]
#[verifier::external_body]
pub struct ExValue(Value);

/// What a `serde_json::Value` holds.
pub uninterp spec fn held(v: Value) -> Tree;

/// One level of a `serde_json::Value`.
pub enum Node {
    Null,
    Bool(bool),
    Number(Option<u64>),
    Text(String),
    Array(Vec<Value>),
    Object(Vec<(String, Value)>),
}

/// The tree of an object that was built by inserting `members` in order.
pub open spec fn held_members(members: Seq<(String, Value)>) -> Map<Seq<char>, Tree>
    decreases members.len(),
{
    if members.len() == 0 {
        Map::empty()
    } else {
        held_members(members.drop_last()).insert(members.last().0@, held(members.last().1))
    }
}

pub open spec fn held_node(node: Node) -> Tree {
    match node {
        Node::Null => Tree::Null,
        Node::Bool(b) => Tree::Bool(b),
        Node::Number(n) => Tree::Number(n),
        Node::Text(s) => Tree::Text(s@),
        Node::Array(items) => Tree::Array(items@.map_values(|v: Value| held(v))),
        Node::Object(members) => Tree::Object(held_members(members@)),
    }
}

/// Takes a `serde_json::Value` apart by its variants. Trusted: each variant's
/// content is handed on as it is, a number as `Number::as_u64` gives it, an
/// object as the entries of its map, in which no key occurs twice.
#[verifier::external_body]
fn open_value(v: Value) -> (node: Node)
    ensures
        held(v) == held_node(node),
        node matches Node::Object(members) ==> forall|i: int, j: int|
            0 <= i < j < members@.len() ==> #[trigger] members@[i].0@ != #[trigger] members@[j].0@,
{
    match v {
        Value::Null => Node::Null,
        Value::Bool(b) => Node::Bool(b),
        Value::Number(n) => Node::Number(n.as_u64()),
        Value::String(s) => Node::Text(s),
        Value::Array(items) => Node::Array(items),
        Value::Object(map) => Node::Object(map.into_iter().collect()),
    }
}

proof fn lemma_held_members(members: Seq<(String, Value)>, i: int)
    requires
        0 <= i < members.len(),
        forall|i: int, j: int|
            0 <= i < j < members.len() ==> #[trigger] members[i].0@ != #[trigger] members[j].0@,
    ensures
        held_members(members).dom().finite(),
        held_members(members).dom().contains(members[i].0@),
        held_members(members)[members[i].0@] == held(members[i].1),
    decreases members.len(),
{
    let front = members.drop_last();
    if i < front.len() {
        lemma_held_members(front, i);
        assert(members[i].0@ != members[members.len() - 1].0@);
    } else if front.len() > 0 {
        lemma_held_members(front, 0);
    }
}

/// Rebuilds a parsed value as a document.
fn from_value(v: Value) -> (doc: Json)
    ensures
        doc@ == held(v),
    decreases held(v),
{
    let ghost whole = held(v);
    match open_value(v) {
        Node::Null => Json::Null,
        Node::Bool(b) => Json::Bool(b),
        Node::Number(n) => Json::Number(n),
        Node::Text(s) => Json::Text(s),
        Node::Array(items) => {
            let ghost all = items@;
            let mut docs: Vec<Json> = Vec::new();
            for item in it: items
                invariant
                    it.seq() == all,
                    held(v) == whole,
                    whole == Tree::Array(all.map_values(|v: Value| held(v))),
                    array_tree(docs@) == all.map_values(|v: Value| held(v)).take(it.index() as int),
            {
                let ghost n = it.index() as int;
                proof {
                    assert(held(item) == whole->Array_0[n]);
                    assert(decreases_to!(whole->Array_0 => whole->Array_0[n]));
                }
                let doc = from_value(item);
                let ghost before = docs@;
                docs.push(doc);
                proof {
                    assert(docs@.drop_last() == before);
                    assert(all.map_values(|v: Value| held(v)).take(n + 1)
                        == all.map_values(|v: Value| held(v)).take(n).push(doc@));
                }
            }
            proof {
                assert(all.map_values(|v: Value| held(v)).take(all.len() as int)
                    == all.map_values(|v: Value| held(v)));
            }
            Json::Array(docs)
        },
        Node::Object(members) => {
            let ghost all = members@;
            let mut docs: Vec<(String, Json)> = Vec::new();
            for member in it: members
                invariant
                    it.seq() == all,
                    held(v) == whole,
                    whole == Tree::Object(held_members(all)),
                    forall|i: int, j: int|
                        0 <= i < j < all.len() ==> #[trigger] all[i].0@ != #[trigger] all[j].0@,
                    object_tree(docs@) == held_members(all.take(it.index() as int)),
            {
                let ghost n = it.index() as int;
                proof {
                    lemma_held_members(all, n);
                    assert(held(member.1) == whole->Object_0[member.0@]);
                    assert(decreases_to!(whole->Object_0 => whole->Object_0[member.0@]));
                }
                let doc = from_value(member.1);
                let ghost before = docs@;
                docs.push((member.0, doc));
                proof {
                    assert(docs@.drop_last() == before);
                    assert(all.take(n + 1).drop_last() == all.take(n));
                }
            }
            proof {
                assert(all.take(all.len() as int) == all);
            }
            Json::Object(docs)
        },
    }
}

/// What `serde_json::from_str` makes of a text: the document that it holds, or
/// the message of the error.
pub uninterp spec fn json_text(text: Seq<char>) -> Result<Tree, Seq<char>>;

pub open spec fn held_outcome(read: Result<Value, String>) -> Result<Tree, Seq<char>> {
    match read {
        Ok(v) => Ok(held(v)),
        Err(e) => Err(e@),
    }
}

/// A parsed document, or the parser's message, as mathematical values.
pub open spec fn outcome(parsed: Result<Json, String>) -> Result<Tree, Seq<char>> {
    match parsed {
        Ok(doc) => Ok(doc@),
        Err(e) => Err(e@),
    }
}

/// Calls `serde_json::from_str`. Trusted: the outcome, value or message, is a
/// function of the text alone.
#[verifier::external_body]
fn read_value(text: &str) -> (read: Result<Value, String>)
    ensures
        json_text(text@) == held_outcome(read),
{
    serde_json::from_str(text).map_err(|e| e.to_string())
}

/// Parses a JSON document; the error is the parser's message.
pub fn parse_json(text: &str) -> (parsed: Result<Json, String>)
    ensures
        json_text(text@) == outcome(parsed),
{
    match read_value(text) {
        Ok(v) => Ok(from_value(v)),
        Err(e) => Err(e),
    }
}

impl Tree {
    /// The member of an object that bears `name`.
    pub open spec fn member(self, name: Seq<char>) -> Option<Tree> {
        match self {
            Tree::Object(members) => if members.dom().contains(name) {
                Some(members[name])
            } else {
                None
            },
            _ => None,
        }
    }

    /// The item of an array at `index`.
    pub open spec fn item(self, index: int) -> Option<Tree> {
        match self {
            Tree::Array(items) => if 0 <= index < items.len() {
                Some(items[index])
            } else {
                None
            },
            _ => None,
        }
    }

    /// The text of the member that bears `name`, where it is a text.
    pub open spec fn text_member(self, name: Seq<char>) -> Option<Seq<char>> {
        match self.member(name) {
            Some(Tree::Text(s)) => Some(s),
            _ => None,
        }
    }

    /// The number of the member that bears `name`, where it is a `u64`.
    pub open spec fn number_member(self, name: Seq<char>) -> Option<u64> {
        match self.member(name) {
            Some(Tree::Number(n)) => n,
            _ => None,
        }
    }

    /// The items of the member that bears `name`, where it is an array.
    pub open spec fn array_member(self, name: Seq<char>) -> Option<Seq<Tree>> {
        match self.member(name) {
            Some(Tree::Array(items)) => Some(items),
            _ => None,
        }
    }
}

pub proof fn lemma_array_tree(items: Seq<Json>)
    ensures
        array_tree(items).len() == items.len(),
        forall|i: int| 0 <= i < items.len() ==> #[trigger] array_tree(items)[i] == items[i].tree(),
    decreases items.len(),
{
    if items.len() > 0 {
        lemma_array_tree(items.drop_last());
    }
}

impl Json {
    pub fn member(&self, name: &str) -> (found: Option<&Json>)
        ensures
            found matches Some(doc) ==> self@.member(name@) == Some(doc@),
            found is None ==> self@.member(name@) is None,
    {
        match self {
            Json::Object(members) => {
                let mut i: usize = members.len();
                proof {
                    assert(members@.take(i as int) == members@);
                }
                while i > 0
                    invariant
                        *self == Json::Object(*members),
                        i <= members@.len(),
                        self@.member(name@) == Tree::Object(object_tree(members@.take(i as int))).member(
                            name@,
                        ),
                    decreases i,
                {
                    proof {
                        assert(members@.take(i as int).drop_last() == members@.take(i - 1));
                    }
                    if same_text(members[i - 1].0.as_str(), name) {
                        return Some(&members[i - 1].1);
                    }
                    i = i - 1;
                }
                None
            },
            _ => None,
        }
    }

    pub fn item(&self, index: usize) -> (found: Option<&Json>)
        ensures
            found matches Some(doc) ==> self@.item(index as int) == Some(doc@),
            found is None ==> self@.item(index as int) is None,
    {
        match self {
            Json::Array(items) => {
                proof {
                    lemma_array_tree(items@);
                }
                if index < items.len() {
                    Some(&items[index])
                } else {
                    None
                }
            },
            _ => None,
        }
    }

    pub fn text_member(&self, name: &str) -> (text: Option<String>)
        ensures
            text matches Some(s) ==> self@.text_member(name@) == Some(s@),
            text is None ==> self@.text_member(name@) is None,
    {
        match self.member(name) {
            Some(Json::Text(s)) => Some(s.clone()),
            _ => None,
        }
    }

    pub fn number_member(&self, name: &str) -> (number: Option<u64>)
        ensures
            number == self@.number_member(name@),
    {
        match self.member(name) {
            Some(Json::Number(n)) => *n,
            _ => None,
        }
    }

    pub fn array_member(&self, name: &str) -> (items: Option<&Vec<Json>>)
        ensures
            items matches Some(v) ==> self@.array_member(name@) == Some(array_tree(v@)),
            items is None ==> self@.array_member(name@) is None,
    {
        match self.member(name) {
            Some(Json::Array(items)) => Some(items),
            _ => None,
        }
    }
}

/// A scalar member of a record that is about to be written.
pub enum Field {
    Text(String),
    Number(u64),
}

impl View for Field {
    type V = Tree;

    open spec fn view(&self) -> Tree {
        match self {
            Field::Text(s) => Tree::Text(s@),
            Field::Number(n) => Tree::Number(Some(*n)),
        }
    }
}

/// Whether no name occurs twice in a record.
pub open spec fn distinct(fields: Seq<(String, Field)>) -> bool {
    forall|i: int, j: int|
        0 <= i < j < fields.len() ==> #[trigger] fields[i].0@ != #[trigger] fields[j].0@
}

/// The members of a record.
pub open spec fn record(fields: Seq<(String, Field)>) -> Map<Seq<char>, Tree>
    decreases fields.len(),
{
    if fields.len() == 0 {
        Map::empty()
    } else {
        record(fields.drop_last()).insert(fields.last().0@, fields.last().1@)
    }
}

/// An object whose members are texts and `u64` numbers, none of them nested.
pub open spec fn flat(t: Tree) -> bool {
    t matches Tree::Object(members) && forall|name: Seq<char>|
        #[trigger] members.dom().contains(name) ==> members[name] is Text || (members[name]
            matches Tree::Number(n) && n is Some)
}

pub open spec fn document(t: Tree) -> Result<Tree, Seq<char>> {
    Ok(t)
}

/// Calls `Value::from` on a text. Trusted: the value is that text.
#[verifier::external_body]
fn text_value(s: String) -> (v: Value)
    ensures
        held(v) == Tree::Text(s@),
{
    Value::from(s)
}

/// Calls `Value::from` on a number. Trusted: the value is that number.
#[verifier::external_body]
fn number_value(n: u64) -> (v: Value)
    ensures
        held(v) == Tree::Number(Some(n)),
{
    Value::from(n)
}

/// Collects members into a `serde_json::Map`. Trusted: where no name occurs
/// twice, the object holds these members and no others.
#[verifier::external_body]
fn object_value(members: Vec<(String, Value)>) -> (v: Value)
    requires
        forall|i: int, j: int|
            0 <= i < j < members@.len() ==> #[trigger] members@[i].0@ != #[trigger] members@[j].0@,
    ensures
        held(v) == Tree::Object(held_members(members@)),
{
    Value::Object(members.into_iter().collect())
}

/// The text in which `serde_json` writes a flat object.
pub uninterp spec fn written(t: Tree) -> Seq<char>;

/// Calls `Value::to_string`. Trusted of a flat object: the text is a function
/// of what the object holds, and `serde_json::from_str` reads it back as an
/// object that holds the same.
#[verifier::external_body]
fn write_value(v: &Value) -> (text: String)
    requires
        flat(held(*v)),
    ensures
        text@ == written(held(*v)),
        json_text(text@) == document(held(*v)),
{
    v.to_string()
}

/// Writes a record as a JSON object. Reading the text gives the record back.
pub fn write_record(fields: Vec<(String, Field)>) -> (text: String)
    requires
        distinct(fields@),
    ensures
        text@ == written(Tree::Object(record(fields@))),
        json_text(text@) == document(Tree::Object(record(fields@))),
{
    let ghost all = fields@;
    let mut members: Vec<(String, Value)> = Vec::new();
    for field in it: fields
        invariant
            it.seq() == all,
            distinct(all),
            members@.len() == it.index(),
            forall|i: int| 0 <= i < members@.len() ==> #[trigger] members@[i].0@ == all[i].0@,
            held_members(members@) == record(all.take(it.index() as int)),
            flat(Tree::Object(held_members(members@))),
    {
        let ghost n = it.index() as int;
        let ghost before = members@;
        let value = match field.1 {
            Field::Text(s) => text_value(s),
            Field::Number(number) => number_value(number),
        };
        members.push((field.0, value));
        proof {
            assert(members@.drop_last() == before);
            assert(all.take(n + 1).drop_last() == all.take(n));
        }
    }
    proof {
        assert(all.take(all.len() as int) == all);
    }
    write_value(&object_value(members))
}

/// An object is read by name: what a member holds is found under its name and no
/// other, by its own type and no other.
pub proof fn law_an_object_is_read_by_name(
    members: Map<Seq<char>, Tree>,
    name: Seq<char>,
    value: Tree,
)
    ensures
        ({
            let with = Tree::Object(members.insert(name, value));
            let without = Tree::Object(members.remove(name));
            &&& with.member(name) == Some(value)
            &&& without.member(name) is None
            &&& without.text_member(name) is None && without.number_member(name) is None
                && without.array_member(name) is None
            &&& match value {
                Tree::Text(s) => with.text_member(name) == Some(s),
                _ => with.text_member(name) is None,
            }
            &&& match value {
                Tree::Number(n) => with.number_member(name) == n,
                _ => with.number_member(name) is None,
            }
            &&& match value {
                Tree::Array(items) => with.array_member(name) == Some(items),
                _ => with.array_member(name) is None,
            }
            &&& forall|other: Seq<char>|
                other != name ==> #[trigger] with.member(other) == Tree::Object(members).member(
                    other,
                )
        }),
{
}

/// Only an object has members, and only an array items, which are counted from
/// zero.
pub proof fn law_only_arrays_have_items(doc: Tree, name: Seq<char>, index: int)
    ensures
        !(doc is Object) ==> doc.member(name) is None,
        !(doc is Array) ==> doc.item(index) is None,
        doc matches Tree::Array(items) ==> (0 <= index < items.len() ==> doc.item(index) == Some(
            items[index],
        )) && (index < 0 || index >= items.len() ==> doc.item(index) is None),
{
}

/// A document holds what it is made of: of two members with one name the later
/// counts, and the items of an array keep their order.
pub proof fn law_a_document_holds_its_parts(
    members: Vec<(String, Json)>,
    more: Vec<(String, Json)>,
    name: String,
    value: Json,
    items: Vec<Json>,
    other: Seq<char>,
)
    requires
        more@ == members@.push((name, value)),
    ensures
        Json::Null@ == Tree::Null,
        forall|b: bool| #[trigger] Json::Bool(b)@ == Tree::Bool(b),
        forall|n: Option<u64>| #[trigger] Json::Number(n)@ == Tree::Number(n),
        forall|s: String| #[trigger] Json::Text(s)@ == Tree::Text(s@),
        Json::Object(more)@.member(name@) == Some(value@),
        other != name@ ==> Json::Object(more)@.member(other) == Json::Object(members)@.member(
            other,
        ),
        members@.len() == 0 ==> Json::Object(members)@.member(other) is None,
        Json::Array(items)@ matches Tree::Array(trees) && trees.len() == items@.len() && forall|
            i: int,
        | 0 <= i < trees.len() ==> #[trigger] trees[i] == items@[i]@,
{
    assert(more@.drop_last() == members@);
    assert(more@.last() == (name, value));
    lemma_array_tree(items@);
}

/// A record has the members that were put into it, each as the text or the number
/// that it is.
pub proof fn law_a_record_holds_its_fields(
    fields: Seq<(String, Field)>,
    name: String,
    field: Field,
    other: Seq<char>,
)
    ensures
        ({
            let more = Tree::Object(record(fields.push((name, field))));
            &&& field matches Field::Text(s) ==> more.text_member(name@) == Some(s@)
            &&& field matches Field::Number(n) ==> more.number_member(name@) == Some(n)
            &&& other != name@ ==> more.member(other) == Tree::Object(record(fields)).member(other)
            &&& fields.len() == 0 ==> Tree::Object(record(fields)).member(other) is None
        }),
{
    let all = fields.push((name, field));
    assert(all.drop_last() == fields);
    assert(all.last() == (name, field));
}

/// What was parsed is the document or the message that it is.
pub proof fn law_an_outcome_is_what_was_parsed(doc: Json, why: String, t: Tree)
    ensures
        outcome(Ok(doc)) == Ok::<Tree, Seq<char>>(doc@),
        outcome(Err(why)) == Err::<Tree, Seq<char>>(why@),
        document(t) == Ok::<Tree, Seq<char>>(t),
{
}

} // verus!
