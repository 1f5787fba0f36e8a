//! The request body: a flat JSON object whose members are the settings of a
//! repository that were given a value.

use crate::text::decimal;
use crate::text::decimal_text;
use vstd::prelude::*;
use vstd::string::*;

verus! {

/// The value of one setting as it goes into the request body.
#[derive(Clone, Copy, Debug, PartialEq, Eq)]
pub enum Setting<'a> {
    /// No value was given: the provider applies its own default.
    Unspecified,
    /// A switch that was turned on or off.
    Flag(bool),
    /// A number.
    Number(u32),
    /// A piece of text.
    Text(&'a str),
    /// A list of pieces of text.
    List(&'a Vec<&'a str>),
}

/// A setting under the name that the provider documents for it.
#[derive(Clone, Copy, Debug, PartialEq, Eq)]
pub struct Field<'a> {
    pub name: &'a str,
    pub value: Setting<'a>,
}

/// What a [`Setting`] stands for.
pub enum SettingView {
    Unspecified,
    Flag(bool),
    Number(nat),
    Text(Seq<char>),
    List(Seq<Seq<char>>),
}

/// What a [`Field`] stands for.
pub struct FieldView {
    pub name: Seq<char>,
    pub value: SettingView,
}

impl<'a> View for Setting<'a> {
    type V = SettingView;

    open spec fn view(&self) -> SettingView {
        match *self {
            Setting::Unspecified => SettingView::Unspecified,
            Setting::Flag(b) => SettingView::Flag(b),
            Setting::Number(n) => SettingView::Number(n as nat),
            Setting::Text(s) => SettingView::Text(s@),
            Setting::List(l) => SettingView::List(texts(l@)),
        }
    }
}

impl<'a> View for Field<'a> {
    type V = FieldView;

    open spec fn view(&self) -> FieldView {
        FieldView { name: self.name@, value: self.value@ }
    }
}

/// The texts that a list of string slices holds.
pub open spec fn texts(l: Seq<&str>) -> Seq<Seq<char>> {
    Seq::new(l.len(), |i: int| l[i]@)
}

/// What a list of fields stands for.
pub open spec fn fields_view(fields: Seq<Field>) -> Seq<FieldView> {
    Seq::new(fields.len(), |i: int| fields[i]@)
}

/// The small hexadecimal digit for a number below sixteen.
pub open spec fn hex_digit(d: nat) -> char
    recommends
        d < 16,
{
    if d < 10 {
        ('0' as nat + d) as char
    } else {
        ('a' as nat + d - 10) as char
    }
}

/// How a character stands inside a JSON string literal. The double quote
/// and the backslash get a backslash before them. Backspace, tab, line
/// feed, form feed and carriage return are written as a backslash and
/// their letter, every other character below the space as `\u00` and two
/// hexadecimal digits. All other characters stand for themselves.
pub open spec fn escaped(c: char) -> Seq<char> {
    let code = c as nat;
    if c == '"' {
        seq!['\\', '"']
    } else if c == '\\' {
        seq!['\\', '\\']
    } else if code == 0x08 {
        seq!['\\', 'b']
    } else if code == 0x09 {
        seq!['\\', 't']
    } else if code == 0x0a {
        seq!['\\', 'n']
    } else if code == 0x0c {
        seq!['\\', 'f']
    } else if code == 0x0d {
        seq!['\\', 'r']
    } else if code < 0x20 {
        seq!['\\', 'u', '0', '0', hex_digit(code / 16), hex_digit(code % 16)]
    } else {
        seq![c]
    }
}

/// The characters of a text, each as it stands inside a JSON string
/// literal.
pub open spec fn escaped_text(s: Seq<char>) -> Seq<char>
    decreases s.len(),
{
    if s.len() == 0 {
        Seq::empty()
    } else {
        escaped_text(s.drop_last()) + escaped(s.last())
    }
}

/// The JSON string literal for a piece of text: a double quote, the
/// characters of the text as they stand inside a literal, and a double
/// quote.
pub open spec fn json_quoted(s: Seq<char>) -> Seq<char> {
    seq!['"'] + escaped_text(s) + seq!['"']
}

/// Whether a character stands for itself inside a JSON string literal: it
/// is neither the double quote nor the backslash, and not below the space.
pub open spec fn plain(c: char) -> bool {
    c != '"' && c != '\\' && c as nat >= 0x20
}

/// A text of characters that stand for themselves is quoted as it is.
pub proof fn lemma_plain_text(s: Seq<char>)
    requires
        forall|i: int| 0 <= i < s.len() ==> plain(#[trigger] s[i]),
    ensures
        escaped_text(s) == s,
        json_quoted(s) == seq!['"'] + s + seq!['"'],
    decreases s.len(),
{
    if s.len() > 0 {
        lemma_plain_text(s.drop_last());
        assert(plain(s.last()));
        assert(s.drop_last() + seq![s.last()] =~= s);
    }
}

/// Calls `serde_json::to_string` on a string slice, which writes the text as
/// a JSON string literal. Serialising a string into memory has no way to
/// fail, so the literal is returned as it is. The contract spells out the
/// literal as serde_json's escape table gives it; Verus takes that on
/// trust.
#[verifier::external_body]
fn quote(s: &str) -> (r: String)
    ensures
        r@ == json_quoted(s@),
{
    serde_json::to_string(s).unwrap_or_default()
}

/// The pieces joined with a comma between neighbours.
pub open spec fn joined(parts: Seq<Seq<char>>) -> Seq<char>
    decreases parts.len(),
{
    if parts.len() == 0 {
        Seq::empty()
    } else if parts.len() == 1 {
        parts[0]
    } else {
        joined(parts.drop_last()) + seq![','] + parts.last()
    }
}

/// Each text as a JSON string literal.
pub open spec fn quoted_each(items: Seq<Seq<char>>) -> Seq<Seq<char>> {
    Seq::new(items.len(), |i: int| json_quoted(items[i]))
}

/// The JSON text of a value. An unspecified setting has none and is never
/// written.
pub open spec fn value_text(v: SettingView) -> Seq<char> {
    match v {
        SettingView::Unspecified => Seq::empty(),
        SettingView::Flag(b) => if b {
            seq!['t', 'r', 'u', 'e']
        } else {
            seq!['f', 'a', 'l', 's', 'e']
        },
        SettingView::Number(n) => decimal(n),
        SettingView::Text(s) => json_quoted(s),
        SettingView::List(items) => seq!['['] + joined(quoted_each(items)) + seq![']'],
    }
}

/// A member of the object: the name between double quotes, a colon, and the
/// value's text.
pub open spec fn member_text(name: Seq<char>, value: Seq<char>) -> Seq<char> {
    seq!['"'] + name + seq!['"', ':'] + value
}

/// The fields that were given a value, in their order.
pub open spec fn emitted(fields: Seq<FieldView>) -> Seq<FieldView>
    decreases fields.len(),
{
    if fields.len() == 0 {
        Seq::empty()
    } else if fields.last().value is Unspecified {
        emitted(fields.drop_last())
    } else {
        emitted(fields.drop_last()).push(fields.last())
    }
}

/// The member text of each field.
pub open spec fn member_texts(fields: Seq<FieldView>) -> Seq<Seq<char>> {
    Seq::new(fields.len(), |i: int| member_text(fields[i].name, value_text(fields[i].value)))
}

/// The JSON object that holds one member for each field that was given a
/// value, in the order of the fields, without any white space.
pub open spec fn object_text(fields: Seq<FieldView>) -> Seq<char> {
    seq!['{'] + joined(member_texts(emitted(fields))) + seq!['}']
}

/// Whether one of the fields carries `name`.
pub open spec fn has_member(fields: Seq<FieldView>, name: Seq<char>) -> bool {
    exists|i: int| 0 <= i < fields.len() && (#[trigger] fields[i]).name == name
}

/// Whether no two fields share a name.
pub open spec fn distinct_names(fields: Seq<FieldView>) -> bool {
    forall|i: int, j: int|
        0 <= i < j < fields.len() ==> (#[trigger] fields[i]).name != (#[trigger] fields[j]).name
}

/// Every member that is written is one of the fields, and has a value.
pub proof fn lemma_emitted_source(fields: Seq<FieldView>, k: int)
    requires
        0 <= k < emitted(fields).len(),
    ensures
        exists|j: int|
            0 <= j < fields.len() && #[trigger] fields[j] == emitted(fields)[k] && !(
            fields[j].value is Unspecified),
    decreases fields.len(),
{
    if fields.len() > 0 {
        let rest = fields.drop_last();
        if !(fields.last().value is Unspecified) && k == emitted(rest).len() {
            assert(fields[fields.len() - 1] == emitted(fields)[k]);
        } else {
            lemma_emitted_source(rest, k);
            let j = choose|j: int|
                0 <= j < rest.len() && #[trigger] rest[j] == emitted(rest)[k] && !(
                rest[j].value is Unspecified);
            assert(fields[j] == emitted(fields)[k]);
        }
    }
}

/// A field that has a value is written.
pub proof fn lemma_emitted_holds(fields: Seq<FieldView>, i: int)
    requires
        0 <= i < fields.len(),
        !(fields[i].value is Unspecified),
    ensures
        emitted(fields).contains(fields[i]),
    decreases fields.len(),
{
    let rest = fields.drop_last();
    if i == fields.len() - 1 {
        assert(emitted(fields)[emitted(rest).len() as int] == fields[i]);
    } else {
        lemma_emitted_holds(rest, i);
        let k = choose|k: int| 0 <= k < emitted(rest).len() && emitted(rest)[k] == rest[i];
        assert(emitted(fields)[k] == fields[i]);
    }
}

/// Among fields with distinct names, one without a value has no member of
/// its name in the object, and one with a value is a member as it stands.
pub proof fn lemma_members(fields: Seq<FieldView>, i: int)
    requires
        0 <= i < fields.len(),
        distinct_names(fields),
    ensures
        fields[i].value is Unspecified ==> !has_member(emitted(fields), fields[i].name),
        !(fields[i].value is Unspecified) ==> emitted(fields).contains(fields[i]),
{
    if fields[i].value is Unspecified {
        let written = emitted(fields);
        assert forall|k: int| 0 <= k < written.len() implies (#[trigger] written[k]).name
            != fields[i].name by {
            lemma_emitted_source(fields, k);
            let j = choose|j: int|
                0 <= j < fields.len() && #[trigger] fields[j] == emitted(fields)[k] && !(
                fields[j].value is Unspecified);
            assert(j != i);
            if j < i {
                assert(fields[j].name != fields[i].name);
            } else {
                assert(fields[i].name != fields[j].name);
            }
        }
    } else {
        lemma_emitted_holds(fields, i);
    }
}

/// Adds one more piece to a comma-separated text. `first` says that nothing
/// was written before it.
pub fn append_part(out: &mut String, first: bool, part: &str)
    ensures
        final(out)@ == old(out)@ + (if first {
            Seq::<char>::empty()
        } else {
            seq![',']
        }) + part@,
{
    proof {
        reveal_strlit(",");
    }
    if !first {
        out.append(",");
    }
    out.append(part);
    assert(out@ =~= old(out)@ + (if first {
        Seq::<char>::empty()
    } else {
        seq![',']
    }) + part@);
}

/// Writes a member from its name and the JSON text of its value.
pub fn member(name: &str, value: &str) -> (r: String)
    ensures
        r@ == member_text(name@, value@),
{
    proof {
        reveal_strlit("\"");
        reveal_strlit("\":");
    }
    let mut out = String::from_str("\"");
    out.append(name);
    out.append("\":");
    out.append(value);
    assert(out@ =~= member_text(name@, value@));
    out
}

/// Writes a list of JSON string literals as a JSON array.
pub fn array_of(quoted: &Vec<String>) -> (r: String)
    ensures
        r@ == seq!['['] + joined(Seq::new(quoted@.len(), |i: int| quoted@[i]@)) + seq![']'],
{
    proof {
        reveal_strlit("[");
        reveal_strlit("]");
    }
    let ghost parts = Seq::new(quoted@.len(), |i: int| quoted@[i]@);
    let mut out = String::from_str("[");
    let mut i: usize = 0;
    assert(parts.take(0) =~= Seq::<Seq<char>>::empty());
    while i < quoted.len()
        invariant
            i <= quoted@.len(),
            parts == Seq::new(quoted@.len(), |i: int| quoted@[i]@),
            out@ == seq!['['] + joined(parts.take(i as int)),
        decreases quoted@.len() - i,
    {
        proof {
            lemma_joined_push(parts.take(i as int), parts[i as int]);
            assert(parts.take(i as int).push(parts[i as int]) =~= parts.take(i + 1));
        }
        append_part(&mut out, i == 0, quoted[i].as_str());
        assert(out@ =~= seq!['['] + joined(parts.take(i + 1)));
        i = i + 1;
    }
    assert(parts.take(i as int) =~= parts);
    out.append("]");
    out
}

/// Joining one more piece puts a comma before it unless it is the first.
pub proof fn lemma_joined_push(parts: Seq<Seq<char>>, part: Seq<char>)
    ensures
        joined(parts.push(part)) == joined(parts) + (if parts.len() == 0 {
            Seq::<char>::empty()
        } else {
            seq![',']
        }) + part,
{
    let all = parts.push(part);
    assert(all.drop_last() =~= parts);
    assert(all.last() == part);
    if parts.len() == 0 {
        assert(joined(all) =~= joined(parts) + Seq::<char>::empty() + part);
    }
}

/// Writes the JSON text of a value. An unspecified setting has none, and
/// the text is empty.
pub fn value_json(value: &Setting) -> (r: String)
    ensures
        r@ == value_text(value@),
{
    proof {
        reveal_strlit("true");
        reveal_strlit("false");
    }
    match *value {
        Setting::Unspecified => String::new(),
        Setting::Flag(b) => {
            let r = if b {
                String::from_str("true")
            } else {
                String::from_str("false")
            };
            assert(r@ =~= value_text(value@));
            r
        },
        Setting::Number(n) => decimal_text(n),
        Setting::Text(s) => quote(s),
        Setting::List(items) => {
            let mut quoted: Vec<String> = Vec::new();
            let mut i: usize = 0;
            while i < items.len()
                invariant
                    i <= items@.len(),
                    quoted@.len() == i,
                    forall|j: int| 0 <= j < i ==> (#[trigger] quoted@[j])@ == json_quoted(items@[j]@),
                decreases items@.len() - i,
            {
                quoted.push(quote(items[i]));
                i = i + 1;
            }
            assert(Seq::new(quoted@.len(), |i: int| quoted@[i]@) =~= quoted_each(texts(items@)));
            array_of(&quoted)
        },
    }
}

/// Writes the request body for a list of fields: a JSON object with one
/// member for each field that was given a value.
pub fn render(fields: &Vec<Field>) -> (r: String)
    ensures
        r@ == object_text(fields_view(fields@)),
{
    proof {
        reveal_strlit("{");
        reveal_strlit("}");
    }
    let ghost all = fields_view(fields@);
    let mut out = String::from_str("{");
    let mut first = true;
    let mut i: usize = 0;
    assert(all.take(0) =~= Seq::<FieldView>::empty());
    while i < fields.len()
        invariant
            i <= fields@.len(),
            all == fields_view(fields@),
            first == (emitted(all.take(i as int)).len() == 0),
            out@ == seq!['{'] + joined(member_texts(emitted(all.take(i as int)))),
        decreases fields@.len() - i,
    {
        let field = &fields[i];
        let ghost before = emitted(all.take(i as int));
        proof {
            assert(all.take(i + 1).drop_last() =~= all.take(i as int));
            assert(all.take(i + 1).last() == field@);
        }
        match field.value {
            Setting::Unspecified => {},
            _ => {
                let value = value_json(&field.value);
                let text = member(field.name, value.as_str());
                proof {
                    lemma_joined_push(member_texts(before), text@);
                    assert(member_texts(before).push(text@) =~= member_texts(before.push(field@)));
                }
                append_part(&mut out, first, text.as_str());
                assert(out@ =~= seq!['{'] + joined(member_texts(before.push(field@))));
                first = false;
            },
        }
        i = i + 1;
    }
    assert(all.take(i as int) =~= all);
    out.append("}");
    out
}

} // verus!
