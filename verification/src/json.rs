//! JSON documents as the viewer reads them.
use vstd::prelude::*;
use vstd::string::*;

use crate::text;

verus! {

/// A JSON number: its text, and its value where that is an `i64`.
#[derive(Debug, PartialEq, Eq)]
pub struct JsonNumber {
    pub text: String,
    pub integer: Option<i64>,
}

/// A JSON document.
#[derive(Debug, PartialEq, Eq)]
pub enum Json {
    Null,
    Bool(bool),
    Number(JsonNumber),
    Text(String),
    Array(Vec<Json>),
    Object(Vec<(String, Json)>),
}

/// The mathematical content of a [`Json`].
pub enum JsonView {
    Null,
    Bool(bool),
    Number { text: Seq<char>, integer: Option<i64> },
    Text(Seq<char>),
    Array(Seq<JsonView>),
    Object(Seq<(Seq<char>, JsonView)>),
}

impl View for Json {
    type V = JsonView;

    open spec fn view(&self) -> JsonView
        decreases self,
    {
        match self {
            Json::Null => JsonView::Null,
            Json::Bool(b) => JsonView::Bool(*b),
            Json::Number(n) => JsonView::Number { text: n.text@, integer: n.integer },
            Json::Text(s) => JsonView::Text(s@),
            Json::Array(items) => JsonView::Array(
                Seq::new(
                    items@.len(),
                    |i: int|
                        if 0 <= i < items@.len() {
                            items@[i].view()
                        } else {
                            JsonView::Null
                        },
                ),
            ),
            Json::Object(entries) => JsonView::Object(
                Seq::new(
                    entries@.len(),
                    |i: int|
                        if 0 <= i < entries@.len() {
                            (entries@[i].0@, entries@[i].1.view())
                        } else {
                            (Seq::empty(), JsonView::Null)
                        },
                ),
            ),
        }
    }
}

/// The value under `key`: that of the first entry with this name.
pub open spec fn find_entry(entries: Seq<(Seq<char>, JsonView)>, key: Seq<char>) -> Option<JsonView>
    decreases entries.len(),
{
    if entries.len() == 0 {
        None
    } else if entries[0].0 == key {
        Some(entries[0].1)
    } else {
        find_entry(entries.skip(1), key)
    }
}

/// The member `key` of an object; nothing else has members.
pub open spec fn member(v: JsonView, key: Seq<char>) -> Option<JsonView> {
    match v {
        JsonView::Object(entries) => find_entry(entries, key),
        _ => None,
    }
}

/// What a cell of a table shows for a value: the text of a string, a number or
/// a boolean, and nothing for the rest.
pub open spec fn cell_text(v: JsonView) -> Seq<char> {
    match v {
        JsonView::Text(s) => s,
        JsonView::Number { text, .. } => text,
        JsonView::Bool(b) => if b {
            "true"@
        } else {
            "false"@
        },
        _ => Seq::empty(),
    }
}

/// What a cell shows for the member `key` of `v`; nothing where it has none.
pub open spec fn member_text(v: JsonView, key: Seq<char>) -> Seq<char> {
    match member(v, key) {
        Some(m) => cell_text(m),
        None => Seq::empty(),
    }
}

/// The value of a number that is an `i64`.
pub open spec fn int_value(v: JsonView) -> Option<i64> {
    match v {
        JsonView::Number { integer, .. } => integer,
        _ => None,
    }
}

/// The `i64` that the member `key` of `v` holds.
pub open spec fn member_int(v: JsonView, key: Seq<char>) -> Option<i64> {
    match member(v, key) {
        Some(m) => int_value(m),
        None => None,
    }
}

/// The items of an array; nothing else has items.
pub open spec fn items_of(v: JsonView) -> Option<Seq<JsonView>> {
    match v {
        JsonView::Array(items) => Some(items),
        _ => None,
    }
}

/// No two entries have the same name.
pub open spec fn names_distinct(entries: Seq<(Seq<char>, JsonView)>) -> bool {
    forall|i: int, j: int|
        0 <= i < j < entries.len() ==> (#[trigger] entries[i]).0 != (#[trigger] entries[j]).0
}

/// The invariant of a parsed document: at every depth a number has a text, an
/// integer's text is its decimal notation and an object's names are distinct.
pub open spec fn well_formed(v: JsonView) -> bool
    decreases v,
{
    match v {
        JsonView::Number { text, integer } => text.len() > 0 && match integer {
            Some(i) => text == text::signed_decimal(i as int),
            None => true,
        },
        JsonView::Array(items) => forall|i: int|
            0 <= i < items.len() ==> well_formed(#[trigger] items[i]),
        JsonView::Object(entries) => names_distinct(entries) && forall|i: int|
            0 <= i < entries.len() ==> well_formed((#[trigger] entries[i]).1),
        _ => true,
    }
}

/// The view of an object lists the views of its entries.
pub proof fn object_view(v: Json)
    requires
        v is Object,
    ensures
        v@ is Object,
        v@->Object_0.len() == v->Object_0@.len(),
        forall|i: int|
            0 <= i < v->Object_0@.len() ==> v@->Object_0[i] == ((#[trigger] v->Object_0@[i]).0@, v->Object_0@[i].1@),
{
    reveal_with_fuel(<Json as View>::view, 2);
}

/// The view of an array lists the views of its items.
pub proof fn array_view(v: Json)
    requires
        v is Array,
    ensures
        v@ is Array,
        v@->Array_0.len() == v->Array_0@.len(),
        forall|i: int|
            0 <= i < v->Array_0@.len() ==> v@->Array_0[i] == (#[trigger] v->Array_0@[i])@,
{
    reveal_with_fuel(<Json as View>::view, 2);
}

impl Json {
    /// The member `key` of an object.
    pub fn get(&self, key: &str) -> (r: Option<&Json>)
        ensures
            match r {
                Some(m) => member(self@, key@) == Some(m@),
                None => member(self@, key@) is None,
            },
    {
        match self {
            Json::Object(entries) => {
                let ghost all = self@->Object_0;
                proof {
                    object_view(*self);
                }
                assert(all.skip(0) == all);
                for i in 0..entries.len()
                    invariant
                        *self == Json::Object(*entries),
                        self@ == JsonView::Object(all),
                        forall|j: int|
                            0 <= j < entries@.len() ==> all[j] == ((#[trigger] entries@[j]).0@, entries@[j].1@),
                        all.len() == entries@.len(),
                        find_entry(all, key@) == find_entry(all.skip(i as int), key@),
                {
                    if text::same_text(entries[i].0.as_str(), key) {
                        return Some(&entries[i].1);
                    }
                    assert(all.skip(i as int).skip(1) == all.skip(i + 1));
                }
                None
            },
            _ => None,
        }
    }

    /// The value of a number that is an `i64`.
    pub fn as_i64(&self) -> (r: Option<i64>)
        ensures
            r == int_value(self@),
    {
        match self {
            Json::Number(n) => n.integer,
            _ => None,
        }
    }
}

/// The text that a table cell shows for `v`.
pub fn cell(v: &Json) -> (r: String)
    ensures
        r@ == cell_text(v@),
{
    match v {
        Json::Text(s) => s.clone(),
        Json::Number(n) => n.text.clone(),
        Json::Bool(b) => if *b {
            "true".to_string()
        } else {
            "false".to_string()
        },
        _ => String::new(),
    }
}

/// The text that a table cell shows for the member `key` of `v`.
pub fn member_cell(v: &Json, key: &str) -> (r: String)
    ensures
        r@ == member_text(v@, key@),
{
    match v.get(key) {
        Some(m) => cell(m),
        None => String::new(),
    }
}

/// The `i64` that the member `key` of `v` holds.
pub fn member_i64(v: &Json, key: &str) -> (r: Option<i64>)
    ensures
        r == member_int(v@, key@),
{
    match v.get(key) {
        Some(m) => m.as_i64(),
        None => None,
    }
}

/// `serde_json::Value`, a document as the parser hands it out.
#[verifier::external_type_specification]
#[verifier::external_body]
pub struct ExValue(serde_json::Value);

/// `serde_json::Error`, the parser's reason for refusing a text.
#[verifier::external_type_specification]
#[verifier::external_body]
pub struct ExError(serde_json::Error);

/// What a `serde_json::Value` holds.
pub uninterp spec fn value_contents(value: serde_json::Value) -> JsonView;

/// The document that `serde_json::from_slice` reads from `bytes`, if it accepts them.
pub uninterp spec fn json_of_bytes(bytes: Seq<u8>) -> Option<JsonView>;

/// The document that `serde_json::from_str` reads from `text`, if it accepts it.
pub uninterp spec fn json_of_text(text: Seq<char>) -> Option<JsonView>;

/// Calls `serde_json::from_slice`. Trusted: whether the bytes are accepted, and
/// the document they stand for, depend on the bytes alone.
#[verifier::external_body]
fn value_from_slice(bytes: &[u8]) -> (r: Result<serde_json::Value, serde_json::Error>)
    ensures
        json_of_bytes(bytes@) == (match r {
            Ok(value) => Some(value_contents(value)),
            Err(_) => None::<JsonView>,
        }),
{
    serde_json::from_slice::<serde_json::Value>(bytes)
}

/// Calls `serde_json::from_str`. Trusted: whether the text is accepted, and the
/// document it stands for, depend on the text alone.
#[verifier::external_body]
fn value_from_str(text: &str) -> (r: Result<serde_json::Value, serde_json::Error>)
    ensures
        json_of_text(text@) == (match r {
            Ok(value) => Some(value_contents(value)),
            Err(_) => None::<JsonView>,
        }),
{
    serde_json::from_str::<serde_json::Value>(text)
}

/// The outermost layer of a parsed document.
enum Layer {
    Null,
    Bool(bool),
    Number(JsonNumber),
    Text(String),
    Array(Vec<serde_json::Value>),
    Object(Vec<(String, serde_json::Value)>),
}

spec fn layer_contents(layer: Layer) -> JsonView {
    match layer {
        Layer::Null => JsonView::Null,
        Layer::Bool(b) => JsonView::Bool(b),
        Layer::Number(n) => JsonView::Number { text: n.text@, integer: n.integer },
        Layer::Text(s) => JsonView::Text(s@),
        Layer::Array(items) => JsonView::Array(
            Seq::new(items@.len(), |i: int| value_contents(items@[i])),
        ),
        Layer::Object(entries) => JsonView::Object(
            Seq::new(entries@.len(), |i: int| (entries@[i].0@, value_contents(entries@[i].1))),
        ),
    }
}

/// Tells the variants of `serde_json::Value` apart and moves their fields out;
/// a number is asked for `Number::as_i64` and for its `Display` text. Trusted:
/// the layer holds what the value holds, a number is displayed as some text and
/// an integer in decimal, and the names in a `serde_json::Map` are distinct.
#[verifier::external_body]
fn open_value(value: serde_json::Value) -> (layer: Layer)
    ensures
        layer_contents(layer) == value_contents(value),
        layer matches Layer::Number(n) ==> n.text@.len() > 0,
        layer matches Layer::Number(n) ==> (n.integer matches Some(i) ==> n.text@
            == text::signed_decimal(i as int)),
        layer_contents(layer) matches JsonView::Object(entries) ==> names_distinct(entries),
{
    match value {
        serde_json::Value::Null => Layer::Null,
        serde_json::Value::Bool(b) => Layer::Bool(b),
        serde_json::Value::Number(n) => Layer::Number(JsonNumber { integer: n.as_i64(), text: n.to_string() }),
        serde_json::Value::String(s) => Layer::Text(s),
        serde_json::Value::Array(items) => Layer::Array(items),
        serde_json::Value::Object(map) => Layer::Object(map.into_iter().collect()),
    }
}

/// Takes a parsed document over, layer by layer.
fn from_value(value: serde_json::Value) -> (json: Json)
    ensures
        json@ == value_contents(value),
        well_formed(json@),
    decreases value_contents(value),
{
    let ghost whole = value_contents(value);
    match open_value(value) {
        Layer::Null => Json::Null,
        Layer::Bool(b) => Json::Bool(b),
        Layer::Number(n) => Json::Number(n),
        Layer::Text(s) => Json::Text(s),
        Layer::Array(items) => {
            let ghost parts = whole->Array_0;
            let ghost values = items@;
            let mut out: Vec<Json> = Vec::new();
            for item in it: items
                invariant
                    whole == JsonView::Array(parts),
                    value_contents(value) == whole,
                    it.seq() == values,
                    parts.len() == values.len(),
                    out@.len() == it.index(),
                    forall|i: int| 0 <= i < out@.len() ==> (#[trigger] out@[i])@ == parts[i],
                    forall|i: int| 0 <= i < out@.len() ==> well_formed((#[trigger] out@[i])@),
                    forall|i: int|
                        0 <= i < values.len() ==> value_contents(#[trigger] values[i]) == parts[i],
            {
                assert(decreases_to!(whole => whole->Array_0[out@.len() as int]));
                out.push(from_value(item));
            }
            let json = Json::Array(out);
            assert(json@->Array_0 =~= parts);
            json
        },
        Layer::Object(entries) => {
            let ghost parts = whole->Object_0;
            let ghost values = entries@;
            let mut out: Vec<(String, Json)> = Vec::new();
            for entry in it: entries
                invariant
                    whole == JsonView::Object(parts),
                    value_contents(value) == whole,
                    it.seq() == values,
                    parts.len() == values.len(),
                    out@.len() == it.index(),
                    forall|i: int|
                        0 <= i < out@.len() ==> ((#[trigger] out@[i]).0@, out@[i].1@) == parts[i],
                    forall|i: int| 0 <= i < out@.len() ==> well_formed((#[trigger] out@[i]).1@),
                    forall|i: int|
                        0 <= i < values.len() ==> ((#[trigger] values[i]).0@, value_contents(
                            values[i].1,
                        )) == parts[i],
            {
                assert(decreases_to!(whole => whole->Object_0[out@.len() as int].1));
                out.push((entry.0, from_value(entry.1)));
            }
            let json = Json::Object(out);
            assert(json@->Object_0 =~= parts);
            json
        },
    }
}

/// Parses the bytes of a JSON document; `None` where they are none.
pub fn parse_bytes(bytes: &[u8]) -> (r: Option<Json>)
    ensures
        json_of_bytes(bytes@) == (match r {
            Some(json) => Some(json@),
            None => None,
        }),
        r matches Some(json) ==> well_formed(json@),
{
    match value_from_slice(bytes) {
        Ok(value) => Some(from_value(value)),
        Err(_) => None,
    }
}

/// Parses a text as a JSON document; `None` where it is none.
pub fn parse_text(text: &str) -> (r: Option<Json>)
    ensures
        json_of_text(text@) == (match r {
            Some(json) => Some(json@),
            None => None,
        }),
        r matches Some(json) ==> well_formed(json@),
{
    match value_from_str(text) {
        Ok(value) => Some(from_value(value)),
        Err(_) => None,
    }
}

/// A member is found under its name wherever it stands, once names are distinct.
pub proof fn every_member_is_found(entries: Seq<(Seq<char>, JsonView)>, i: int)
    requires
        names_distinct(entries),
        0 <= i < entries.len(),
    ensures
        find_entry(entries, entries[i].0) == Some(entries[i].1),
    decreases entries.len(),
{
    if i > 0 {
        let rest = entries.skip(1);
        assert forall|a: int, b: int| 0 <= a < b < rest.len() implies (#[trigger] rest[a]).0 != (
        #[trigger] rest[b]).0 by {
            assert(rest[a] == entries[a + 1] && rest[b] == entries[b + 1]);
        }
        every_member_is_found(rest, i - 1);
        assert(entries[0].0 != entries[i].0);
    }
}

/// An object has a member exactly for the names among its entries.
pub proof fn found_iff_named(entries: Seq<(Seq<char>, JsonView)>, key: Seq<char>)
    ensures
        find_entry(entries, key) is Some <==> exists|i: int|
            0 <= i < entries.len() && (#[trigger] entries[i]).0 == key,
    decreases entries.len(),
{
    if entries.len() > 0 {
        let rest = entries.skip(1);
        found_iff_named(rest, key);
        if exists|i: int| 0 <= i < rest.len() && (#[trigger] rest[i]).0 == key {
            let i = choose|i: int| 0 <= i < rest.len() && (#[trigger] rest[i]).0 == key;
            assert(entries[i + 1].0 == key);
        }
        if exists|i: int| 0 <= i < entries.len() && (#[trigger] entries[i]).0 == key {
            let i = choose|i: int| 0 <= i < entries.len() && (#[trigger] entries[i]).0 == key;
            if i > 0 {
                assert(rest[i - 1].0 == key);
            }
        }
    }
}

/// A cell shows an integer of a parsed document in decimal.
pub proof fn integer_cell_is_decimal(v: JsonView, n: i64)
    requires
        well_formed(v),
        int_value(v) == Some(n),
    ensures
        cell_text(v) == text::signed_decimal(n as int),
{
}

/// In a parsed document a cell is empty only for a null, an array, an object or
/// an empty string.
pub proof fn empty_cell_means_no_scalar(v: JsonView)
    requires
        well_formed(v),
    ensures
        cell_text(v).len() == 0 <==> (v is Null || v is Array || v is Object || v
            == JsonView::Text(Seq::empty())),
{
    reveal_strlit("true");
    reveal_strlit("false");
    if cell_text(v).len() == 0 && v is Text {
        assert(v->Text_0 =~= Seq::empty());
    }
}

/// Of several entries with one name the first is found.
pub proof fn first_of_equal_names_is_found(entries: Seq<(Seq<char>, JsonView)>, i: int)
    requires
        0 <= i < entries.len(),
        forall|j: int| 0 <= j < i ==> (#[trigger] entries[j]).0 != entries[i].0,
    ensures
        find_entry(entries, entries[i].0) == Some(entries[i].1),
    decreases entries.len(),
{
    if i > 0 {
        let rest = entries.skip(1);
        assert forall|j: int| 0 <= j < i - 1 implies (#[trigger] rest[j]).0 != rest[i - 1].0 by {
            assert(rest[j] == entries[j + 1]);
        }
        first_of_equal_names_is_found(rest, i - 1);
        assert(entries[0].0 != entries[i].0);
    }
}

/// Asking an object for a name among its entries gives that entry's value, as a
/// member, as a cell and as a number.
pub proof fn member_is_its_entry(entries: Seq<(Seq<char>, JsonView)>, i: int)
    requires
        names_distinct(entries),
        0 <= i < entries.len(),
    ensures
        member(JsonView::Object(entries), entries[i].0) == Some(entries[i].1),
        member_text(JsonView::Object(entries), entries[i].0) == cell_text(entries[i].1),
        member_int(JsonView::Object(entries), entries[i].0) == int_value(entries[i].1),
{
    every_member_is_found(entries, i);
}

/// A name that no entry has stands for nothing.
pub proof fn absent_member_is_nothing(entries: Seq<(Seq<char>, JsonView)>, key: Seq<char>)
    requires
        forall|i: int| 0 <= i < entries.len() ==> (#[trigger] entries[i]).0 != key,
    ensures
        member(JsonView::Object(entries), key) is None,
        member_text(JsonView::Object(entries), key).len() == 0,
        member_int(JsonView::Object(entries), key) is None,
{
    found_iff_named(entries, key);
}

/// Only objects have members.
pub proof fn only_objects_have_members(v: JsonView, key: Seq<char>)
    requires
        v !is Object,
    ensures
        member(v, key) is None,
        member_text(v, key).len() == 0,
        member_int(v, key) is None,
{
}

/// A cell shows the whole text of a string and of a number.
pub proof fn cell_shows_the_whole_text(s: Seq<char>, integer: Option<i64>)
    ensures
        cell_text(JsonView::Text(s)) == s,
        cell_text(JsonView::Number { text: s, integer }) == s,
{
}

/// The two truth values have different cells, `true` and `false`.
pub proof fn cell_shows_truth()
    ensures
        cell_text(JsonView::Bool(true)) == seq!['t', 'r', 'u', 'e'],
        cell_text(JsonView::Bool(false)) == seq!['f', 'a', 'l', 's', 'e'],
{
    reveal_strlit("true");
    reveal_strlit("false");
    assert(cell_text(JsonView::Bool(true)) =~= seq!['t', 'r', 'u', 'e']);
    assert(cell_text(JsonView::Bool(false)) =~= seq!['f', 'a', 'l', 's', 'e']);
}

/// A number that is an `i64` is that `i64`, and nothing else has such a value.
pub proof fn only_integers_have_a_value(v: JsonView, n: i64)
    ensures
        int_value(v) == Some(n) <==> (v matches JsonView::Number { integer, .. } && integer == Some(
            n,
        )),
{
}

/// An array has all its items, and nothing else has items.
pub proof fn only_arrays_have_items(v: JsonView, items: Seq<JsonView>)
    ensures
        items_of(v) == Some(items) <==> v == JsonView::Array(items),
{
}

/// The view of a scalar is the scalar.
pub proof fn scalar_view(b: bool, n: JsonNumber, s: String)
    ensures
        Json::Null@ == JsonView::Null,
        Json::Bool(b)@ == JsonView::Bool(b),
        Json::Number(n)@ == (JsonView::Number { text: n.text@, integer: n.integer }),
        Json::Text(s)@ == JsonView::Text(s@),
{
}

}
