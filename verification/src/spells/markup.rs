//! The markup of a spell's description, as one event after the other.

use vstd::prelude::*;
use xml::reader::XmlEvent as Outside;

verus! {

/// One event of reading markup.
#[derive(Debug, Clone, PartialEq, Eq)]
pub enum Markup {
    /// An element opens. Each attribute is its local name and its value.
    Open { name: String, attributes: Vec<(String, String)> },
    /// An element closes.
    Close { name: String },
    /// Characters between tags, white space too.
    Text(String),
    /// The document is at its end.
    End,
    /// Anything else that is read, and a failure to read on.
    Other,
}

/// The events that reading `text` as XML gives, by `xml::EventReader` as
/// `EventReader::new` configures it.
pub uninterp spec fn markup_of(text: Seq<char>) -> Seq<Markup>;

/// Read `text` as XML, to its end or to where it cannot be read on.
///
/// This is the iterator of `xml::EventReader::new` over the bytes of
/// `text`, with each event it gives turned into a [`Markup`]: the start and
/// the end of an element with the local names, characters and white space
/// with their text, the end of the document, and whatever else comes,
/// an error too, as [`Markup::Other`].
#[verifier::external_body]
pub(crate) fn read_markup(text: &str) -> (events: Vec<Markup>)
    ensures
        events@ == markup_of(text@),
{
    xml::EventReader::new(text.as_bytes()).into_iter().map(|event| match event {
        Ok(Outside::StartElement { name, attributes, .. }) => Markup::Open {
            name: name.local_name,
            attributes: attributes.into_iter().map(|a| (a.name.local_name, a.value)).collect(),
        },
        Ok(Outside::EndElement { name }) => Markup::Close { name: name.local_name },
        Ok(Outside::Characters(text)) => Markup::Text(text),
        Ok(Outside::Whitespace(text)) => Markup::Text(text),
        Ok(Outside::EndDocument) => Markup::End,
        _ => Markup::Other,
    }).collect()
}

/// Whether `name` is `word`.
pub fn is_called(name: &String, word: &str) -> (same: bool)
    ensures
        same == (name@ == word@),
{
    *name == word.to_owned()
}

} // verus!
