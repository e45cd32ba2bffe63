//! Spells as a repository of files gives them: which files there are, and
//! what a file holds.

use crate::roll::characters;
use crate::spells::markup::is_called;
use crate::text::push_char;
use base64::Engine;
use vstd::prelude::*;

verus! {

/// An entry of a folder of the repository.
pub struct FileEntry {
    /// What the entry is: `dir`, or `file`.
    pub ty: String,
    pub name: String,
}

/// A file of the repository as it is downloaded.
pub struct FileContent {
    /// The content of the file, encoded, with line breaks in it.
    pub content: String,
    /// How the content is encoded.
    pub encoding: String,
}

/// Where the spells are.
pub open spec fn spells_at() -> Seq<char> {
    "https://api.github.com/repos/foundryvtt/pf2e/contents/packs/spells"@
}

/// Where the spells are.
pub fn base_url() -> (url: &'static str)
    ensures
        url@ == spells_at(),
{
    "https://api.github.com/repos/foundryvtt/pf2e/contents/packs/spells"
}

/// Where `folder` of the spells is.
pub fn folder_url(folder: &str) -> (url: String)
    ensures
        url@ == spells_at() + seq!['/'] + folder@,
{
    let mut url = base_url().to_owned();
    push_char(&mut url, '/');
    url.append(folder);
    url
}

/// Where the spell `name` in `folder` is.
pub fn spell_url(folder: &str, name: &str) -> (url: String)
    ensures
        url@ == spells_at() + seq!['/'] + folder@ + seq!['/'] + name@,
{
    let mut url = folder_url(folder);
    push_char(&mut url, '/');
    url.append(name);
    url
}

/// The names of the first `n` of `entries` that are of type `ty`, in their
/// order.
pub open spec fn names_of(entries: Seq<FileEntry>, ty: Seq<char>, n: int) -> Seq<Seq<char>>
    decreases n,
{
    if n <= 0 {
        Seq::empty()
    } else if entries[n - 1].ty@ == ty {
        names_of(entries, ty, n - 1).push(entries[n - 1].name@)
    } else {
        names_of(entries, ty, n - 1)
    }
}

/// What `names` say.
pub open spec fn names_view(names: Seq<String>) -> Seq<Seq<char>> {
    Seq::new(names.len(), |i: int| names[i]@)
}

/// The names of those of `entries` that are of type `type_filter`.
pub fn names_of_type(entries: &Vec<FileEntry>, type_filter: &str) -> (names: Vec<String>)
    ensures
        names_view(names@) == names_of(entries@, type_filter@, entries@.len() as int),
{
    let mut names: Vec<String> = Vec::new();
    let mut i: usize = 0;
    assert(names_view(names@) =~= Seq::empty());
    while i < entries.len()
        invariant
            i <= entries@.len(),
            names_view(names@) == names_of(entries@, type_filter@, i as int),
        decreases entries@.len() - i,
    {
        if is_called(&entries[i].ty, type_filter) {
            let ghost before = names@;
            names.push(entries[i].name.clone());
            assert(names_view(names@) =~= names_view(before).push(entries@[i as int].name@));
        }
        i += 1;
    }
    names
}

/// The first `n` characters of `text` without the line breaks among them.
pub open spec fn unbroken(text: Seq<char>, n: int) -> Seq<char>
    decreases n,
{
    if n <= 0 {
        Seq::empty()
    } else if text[n - 1] == '\n' {
        unbroken(text, n - 1)
    } else {
        unbroken(text, n - 1).push(text[n - 1])
    }
}

/// `text` without its line breaks.
pub fn without_line_breaks(text: &str) -> (joined: String)
    ensures
        joined@ == unbroken(text@, text@.len() as int),
{
    let chars = characters(text);
    let mut joined = String::new();
    let mut i: usize = 0;
    while i < chars.len()
        invariant
            i <= chars@.len(),
            chars@ == text@,
            joined@ == unbroken(text@, i as int),
        decreases chars@.len() - i,
    {
        if chars[i] != '\n' {
            push_char(&mut joined, chars[i]);
        }
        i += 1;
    }
    joined
}

/// The bytes that `text` stands for in base64 with the standard alphabet
/// and padding, or why it stands for none, by the engine
/// `base64::prelude::BASE64_STANDARD`.
pub uninterp spec fn base64_of(text: Seq<char>) -> Result<Seq<u8>, Seq<char>>;

/// `Engine::decode` of `base64::prelude::BASE64_STANDARD`; an error is
/// given as the text that it displays as.
#[verifier::external_body]
fn decode_base64(text: &str) -> (decoded: Result<Vec<u8>, String>)
    ensures
        match decoded {
            Ok(bytes) => base64_of(text@) == Ok::<Seq<u8>, Seq<char>>(bytes@),
            Err(why) => base64_of(text@) == Err::<Seq<u8>, Seq<char>>(why@),
        },
{
    base64::prelude::BASE64_STANDARD.decode(text).map_err(|e| e.to_string())
}

/// The bytes of a file that was downloaded: what its content stands for in
/// base64 once its line breaks are taken out.
pub fn file_bytes(file: &FileContent) -> (bytes: Result<Vec<u8>, String>)
    ensures
        match bytes {
            Ok(bytes) => base64_of(unbroken(file.content@, file.content@.len() as int)) == Ok::<
                Seq<u8>,
                Seq<char>,
            >(bytes@),
            Err(why) => base64_of(unbroken(file.content@, file.content@.len() as int)) == Err::<
                Seq<u8>,
                Seq<char>,
            >(why@),
        },
{
    let joined = without_line_breaks(file.content.as_str());
    decode_base64(joined.as_str())
}

} // verus!
