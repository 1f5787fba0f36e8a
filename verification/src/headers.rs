//! The header fields of a response, as far as this library reads them.

use crate::text::names_match;
use crate::text::same_name;
use crate::text::string_view;
use crate::text::text_view;
use vstd::prelude::*;
use vstd::string::*;

verus! {

/// One header field. The value is its text, or nothing where the bytes that
/// were received are not printable ASCII.
#[derive(Clone, Debug, PartialEq, Eq)]
pub struct Header {
    pub name: String,
    pub value: Option<String>,
}

/// The header fields of a response, in the order in which they arrived.
#[derive(Clone, Debug, PartialEq, Eq)]
pub struct Headers {
    pub entries: Vec<Header>,
}

/// What a [`Header`] stands for.
pub struct HeaderView {
    pub name: Seq<char>,
    pub value: Option<Seq<char>>,
}

impl View for Header {
    type V = HeaderView;

    open spec fn view(&self) -> HeaderView {
        HeaderView {
            name: self.name@,
            value: string_view(self.value),
        }
    }
}

impl View for Headers {
    type V = Seq<HeaderView>;

    open spec fn view(&self) -> Seq<HeaderView> {
        Seq::new(self.entries@.len(), |i: int| self.entries@[i]@)
    }
}

/// The first field whose name is `name`, letter case set aside.
pub open spec fn first_named(entries: Seq<HeaderView>, name: Seq<char>) -> Option<HeaderView>
    decreases entries.len(),
{
    if entries.len() == 0 {
        None
    } else if same_name(entries[0].name, name) {
        Some(entries[0])
    } else {
        first_named(entries.drop_first(), name)
    }
}

/// The text of the first field named `name`: nothing where there is no such
/// field, or where its value is not text.
pub open spec fn text_of(entries: Seq<HeaderView>, name: Seq<char>) -> Option<Seq<char>> {
    match first_named(entries, name) {
        Some(h) => h.value,
        None => None,
    }
}

impl Headers {
    /// No header fields.
    pub fn new() -> (r: Headers)
        ensures
            r@ == Seq::<HeaderView>::empty(),
    {
        let r = Headers { entries: Vec::new() };
        assert(r@ =~= Seq::<HeaderView>::empty());
        r
    }

    /// Adds a field with a text value behind those already there.
    pub fn insert(&mut self, name: &str, value: &str)
        ensures
            final(self)@ == old(self)@.push(
                (HeaderView { name: name@, value: Some(value@) }),
            ),
    {
        self.entries.push(Header { name: name.to_owned(), value: Some(value.to_owned()) });
        assert(self@ =~= old(self)@.push((HeaderView { name: name@, value: Some(value@) })));
    }

    /// The first field named `name`, letter case set aside.
    pub fn get(&self, name: &str) -> (r: Option<&Header>)
        ensures
            match r {
                Some(h) => first_named(self@, name@) == Some(h@),
                None => first_named(self@, name@) is None,
            },
    {
        let mut i: usize = 0;
        assert(self@.skip(0) =~= self@);
        while i < self.entries.len()
            invariant
                i <= self.entries@.len(),
                first_named(self@, name@) == first_named(self@.skip(i as int), name@),
            decreases self.entries@.len() - i,
        {
            let h = &self.entries[i];
            assert(self@.skip(i as int)[0] == h@);
            if names_match(h.name.as_str(), name) {
                return Some(h);
            }
            assert(self@.skip(i as int).drop_first() =~= self@.skip(i + 1));
            i = i + 1;
        }
        None
    }

    /// The text of the first field named `name`.
    pub fn text(&self, name: &str) -> (r: Option<&str>)
        ensures
            text_view(r) == text_of(self@, name@),
    {
        match self.get(name) {
            Some(h) => match &h.value {
                Some(v) => Some(v.as_str()),
                None => None,
            },
            None => None,
        }
    }
}

} // verus!
