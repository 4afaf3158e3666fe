//! Framing of outbound JSON object bodies.
//!
//! A payload is modelled as a sequence of named fields ([`JsonValue`]),
//! rendered in order as `{"name":value,...}`. The frame — braces, quotes
//! around the fixed field names, colons, commas, brackets — is built and
//! verified here; the encoding of each field's string content (quoting and
//! escaping) is delegated to serde_json and named [`json_string_of`].

use vstd::prelude::*;
use vstd::slice::slice_index_get;
use vstd::string::StringExecFns;

verus! {

/// What serde_json emits for one string: the opening quote, the escaped
/// characters, and the closing quote. A function of the characters alone.
pub uninterp spec fn json_string_of(s: Seq<char>) -> Seq<char>;

/// Relies on serde_json::to_string on a string slice: it writes the JSON
/// string literal for exactly the given characters, deterministically, and
/// cannot fail (its writer is an in-memory buffer and a string value never
/// rejects serialization).
#[verifier::external_body]
pub(crate) fn encode_json_string(s: &str) -> (r: String)
    ensures
        r@ == json_string_of(s@),
{
    serde_json::to_string(s).unwrap()
}

/// A JSON value that can stand in an outbound payload field: a string, or
/// an array of strings.
pub enum JsonValue {
    Str(Seq<char>),
    Arr(Seq<Seq<char>>),
}

/// A string wrapped in double quotes with no escaping. Used only for the
/// fixed field names, which hold nothing that JSON would escape.
pub open spec fn quoted(s: Seq<char>) -> Seq<char> {
    seq!['"'] + s + seq!['"']
}

/// The comma-separated members of a JSON array of strings.
pub open spec fn items_text(items: Seq<Seq<char>>) -> Seq<char>
    decreases items.len(),
{
    if items.len() == 0 {
        Seq::empty()
    } else if items.len() == 1 {
        json_string_of(items[0])
    } else {
        items_text(items.drop_last()) + seq![','] + json_string_of(items.last())
    }
}

/// The text of one JSON value.
pub open spec fn value_text(v: JsonValue) -> Seq<char> {
    match v {
        JsonValue::Str(s) => json_string_of(s),
        JsonValue::Arr(items) => seq!['['] + items_text(items) + seq![']'],
    }
}

/// The text of one `"name":value` object member.
pub open spec fn member_text(name: Seq<char>, v: JsonValue) -> Seq<char> {
    quoted(name) + seq![':'] + value_text(v)
}

/// The comma-separated members of a JSON object.
pub open spec fn members_text(fields: Seq<(Seq<char>, JsonValue)>) -> Seq<char>
    decreases fields.len(),
{
    if fields.len() == 0 {
        Seq::empty()
    } else if fields.len() == 1 {
        member_text(fields[0].0, fields[0].1)
    } else {
        members_text(fields.drop_last()) + seq![','] + member_text(
            fields.last().0,
            fields.last().1,
        )
    }
}

/// The complete object text for the given fields, in order.
pub open spec fn body_text(fields: Seq<(Seq<char>, JsonValue)>) -> Seq<char> {
    seq!['{'] + members_text(fields) + seq!['}']
}

/// The names of the fields, in order.
pub open spec fn field_names(fields: Seq<(Seq<char>, JsonValue)>) -> Seq<Seq<char>>
    decreases fields.len(),
{
    if fields.len() == 0 {
        Seq::empty()
    } else {
        field_names(fields.drop_last()).push(fields.last().0)
    }
}

/// Appending a field appends its name.
pub(crate) proof fn lemma_field_names_push(
    fields: Seq<(Seq<char>, JsonValue)>,
    f: (Seq<char>, JsonValue),
)
    ensures
        field_names(fields.push(f)) == field_names(fields).push(f.0),
{
    assert(fields.push(f).drop_last() =~= fields);
}

/// Appending a field appends its member text, preceded by a comma unless
/// it is the first member.
proof fn lemma_members_text_push(fields: Seq<(Seq<char>, JsonValue)>, f: (Seq<char>, JsonValue))
    ensures
        members_text(fields.push(f)) == if fields.len() == 0 {
            member_text(f.0, f.1)
        } else {
            members_text(fields) + seq![','] + member_text(f.0, f.1)
        },
{
    assert(fields.push(f).drop_last() =~= fields);
}

/// Taking one more item appends its text, preceded by a comma unless it is
/// the first item.
proof fn lemma_items_text_take(items: Seq<Seq<char>>, i: int)
    requires
        0 <= i < items.len(),
    ensures
        items_text(items.take(i + 1)) == if i == 0 {
            json_string_of(items[0])
        } else {
            items_text(items.take(i)) + seq![','] + json_string_of(items[i])
        },
{
    assert(items.take(i + 1).drop_last() =~= items.take(i));
    assert(items.take(i + 1).last() == items[i]);
}

/// Renders a JSON array of strings: `["a","b"]`.
fn array_text(items: &[&str]) -> (r: String)
    ensures
        r@ == value_text(JsonValue::Arr(items.deep_view())),
{
    let mut text = String::from_str("[");
    proof {
        reveal_strlit("[");
        assert(items.deep_view().take(0) =~= Seq::<Seq<char>>::empty());
        assert(text@ =~= seq!['['] + items_text(items.deep_view().take(0)));
    }
    let n: usize = items.len();
    let mut i: usize = 0;
    while i < n
        invariant
            i <= n,
            n == items@.len(),
            items.deep_view().len() == items@.len(),
            text@ == seq!['['] + items_text(items.deep_view().take(i as int)),
        decreases n - i,
    {
        if i > 0 {
            text.append(",");
        }
        let s: &str = *slice_index_get(items, i);
        let enc = encode_json_string(s);
        text.append(enc.as_str());
        proof {
            reveal_strlit(",");
            lemma_items_text_take(items.deep_view(), i as int);
            assert(items.deep_view()[i as int] == items@[i as int]@);
            assert(text@ =~= seq!['['] + items_text(items.deep_view().take(i as int + 1)));
        }
        i = i + 1;
    }
    proof {
        assert(items.deep_view().take(n as int) =~= items.deep_view());
    }
    text.append("]");
    proof {
        reveal_strlit("]");
        assert(text@ =~= seq!['['] + items_text(items.deep_view()) + seq![']']);
    }
    text
}

/// Incremental builder of one outbound JSON object body.
///
/// The fields pushed so far are tracked by [`BodyBuilder::fields`];
/// [`BodyBuilder::finish`] returns exactly [`body_text`] of them.
pub struct BodyBuilder {
    text: String,
    has_members: bool,
    members: Ghost<Seq<(Seq<char>, JsonValue)>>,
}

impl BodyBuilder {
    /// The body text built so far is exactly the rendering of the fields
    /// pushed so far.
    pub closed spec fn wf(self) -> bool {
        &&& self.text@ == seq!['{'] + members_text(self.members@)
        &&& (self.has_members <==> self.members@.len() > 0)
    }

    /// The fields pushed so far, in order.
    pub closed spec fn fields(self) -> Seq<(Seq<char>, JsonValue)> {
        self.members@
    }

    /// Starts an empty object.
    pub fn new() -> (r: BodyBuilder)
        ensures
            r.wf(),
            r.fields() == Seq::<(Seq<char>, JsonValue)>::empty(),
    {
        let text = String::from_str("{");
        let r = BodyBuilder { text, has_members: false, members: Ghost(Seq::empty()) };
        proof {
            reveal_strlit("{");
            assert(r.text@ =~= seq!['{'] + members_text(r.members@));
        }
        r
    }

    /// Appends one member whose value text is already rendered.
    fn push_member(&mut self, name: &str, rendered: &str, v: Ghost<JsonValue>)
        requires
            old(self).wf(),
            rendered@ == value_text(v@),
        ensures
            final(self).wf(),
            final(self).fields() == old(self).fields().push((name@, v@)),
    {
        if self.has_members {
            self.text.append(",");
        }
        self.text.append("\"");
        self.text.append(name);
        self.text.append("\":");
        self.text.append(rendered);
        self.has_members = true;
        let ghost new_members = old(self).members@.push((name@, v@));
        self.members = Ghost(new_members);
        proof {
            reveal_strlit(",");
            reveal_strlit("\"");
            reveal_strlit("\":");
            lemma_members_text_push(old(self).members@, (name@, v@));
            assert(self.text@ =~= seq!['{'] + members_text(new_members));
        }
    }

    /// Appends one string-valued field.
    pub fn push_string(&mut self, name: &str, value: &str)
        requires
            old(self).wf(),
        ensures
            final(self).wf(),
            final(self).fields() == old(self).fields().push((name@, JsonValue::Str(value@))),
    {
        let enc = encode_json_string(value);
        self.push_member(name, enc.as_str(), Ghost(JsonValue::Str(value@)));
    }

    /// Appends one field holding an array of strings.
    pub fn push_array(&mut self, name: &str, items: &[&str])
        requires
            old(self).wf(),
        ensures
            final(self).wf(),
            final(self).fields() == old(self).fields().push(
                (name@, JsonValue::Arr(items.deep_view())),
            ),
    {
        let arr = array_text(items);
        self.push_member(name, arr.as_str(), Ghost(JsonValue::Arr(items.deep_view())));
    }

    /// Closes the object and returns its complete text.
    pub fn finish(self) -> (r: String)
        requires
            self.wf(),
        ensures
            r@ == body_text(self.fields()),
    {
        let ghost fs = self.members@;
        let mut text = self.text;
        text.append("}");
        proof {
            reveal_strlit("}");
            assert(text@ =~= body_text(fs));
        }
        text
    }
}

} // verus!
