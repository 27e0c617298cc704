//! What a file's path says about the file: its name, its extension and the
//! way its text is to be had.

use vstd::prelude::*;
use crate::errors::{CacherchError, ErrorView};
use crate::json::same_text;

verus! {

/// How the text of a file is to be had.
#[derive(Debug, PartialEq, Eq)]
pub enum FileKind {
    /// Plain text: the file's content is its text.
    Text,
    /// A PDF document: its text has to be extracted.
    Pdf,
    /// Neither; holds the extension in lower case, empty where the file
    /// has none.
    Unsupported(String),
}

/// Mathematical model of a [`FileKind`].
pub ghost enum FileKindView {
    Text,
    Pdf,
    Unsupported(Seq<char>),
}

impl View for FileKind {
    type V = FileKindView;

    open spec fn view(&self) -> FileKindView {
        match self {
            FileKind::Text => FileKindView::Text,
            FileKind::Pdf => FileKindView::Pdf,
            FileKind::Unsupported(e) => FileKindView::Unsupported(e@),
        }
    }
}

/// The position of the last `c` in `s`, or -1 where `s` holds none.
pub open spec fn last_index_of(s: Seq<char>, c: char) -> int
    decreases s.len(),
{
    if s.len() == 0 {
        -1
    } else if s.last() == c {
        s.len() - 1
    } else {
        last_index_of(s.drop_last(), c)
    }
}

/// The name of the file at `path`: what follows the last `/`, and the whole
/// path where it holds none.
pub open spec fn base_name(path: Seq<char>) -> Seq<char> {
    path.subrange(last_index_of(path, '/') + 1, path.len() as int)
}

/// The extension of a file name: what follows its last `.`, provided the
/// name holds one that is not its first character.
pub open spec fn extension(name: Seq<char>) -> Option<Seq<char>> {
    let dot = last_index_of(name, '.');
    if dot <= 0 {
        None
    } else {
        Some(name.subrange(dot + 1, name.len() as int))
    }
}

/// The lower-case form of an ASCII character: a capital letter becomes its
/// small letter, any other character stays.
pub open spec fn ascii_lower(c: char) -> char {
    let code = c as u32;
    if 65 <= code <= 90 {
        (code + 32) as char
    } else {
        c
    }
}

/// Whether every character of a text is an ASCII character.
pub open spec fn all_ascii(text: Seq<char>) -> bool {
    forall|i: int| 0 <= i < text.len() ==> (#[trigger] text[i] as u32) < 128
}

/// The lower-case form of a text that holds other than ASCII characters, by
/// the rules of Unicode, as the standard library applies them.
pub uninterp spec fn unicode_lowercase(text: Seq<char>) -> Seq<char>;

/// The lower-case form of an ASCII text, character by character.
pub open spec fn ascii_lowercase(text: Seq<char>) -> Seq<char> {
    text.map_values(|c: char| ascii_lower(c))
}

/// The lower-case form of a text.
pub open spec fn lowercase(text: Seq<char>) -> Seq<char> {
    if all_ascii(text) {
        ascii_lowercase(text)
    } else {
        unicode_lowercase(text)
    }
}

/// The extension by which a file is classified: the extension of its name
/// in lower case, and the empty text where the name has none.
pub open spec fn kind_key(path: Seq<char>) -> Seq<char> {
    match extension(base_name(path)) {
        Some(e) => lowercase(e),
        None => Seq::empty(),
    }
}

/// The kind that an extension in lower case stands for: text for `txt`, PDF
/// for `pdf`, and unsupported for everything else.
pub open spec fn kind_of_key(key: Seq<char>) -> FileKindView {
    if key == "txt"@ {
        FileKindView::Text
    } else if key == "pdf"@ {
        FileKindView::Pdf
    } else {
        FileKindView::Unsupported(key)
    }
}

/// The kind of the file at `path`, by its extension in any mix of cases.
pub open spec fn file_kind(path: Seq<char>) -> FileKindView {
    kind_of_key(kind_key(path))
}

/// `str::to_lowercase`: the lower-case form of `text`. On ASCII text each
/// capital letter becomes its small letter and nothing else changes; on any
/// other text the result is what the rules of Unicode give.
#[verifier::external_body]
fn to_lowercase(text: &str) -> (r: String)
    ensures
        r@ == if all_ascii(text@) {
            ascii_lowercase(text@)
        } else {
            unicode_lowercase(text@)
        },
{
    text.to_lowercase()
}

/// Finds the last `c` in `s`.
fn find_last(s: &str, c: char) -> (r: Option<usize>)
    ensures
        match r {
            Some(i) => i == last_index_of(s@, c) && i < s@.len(),
            None => last_index_of(s@, c) == -1,
        },
{
    let n = s.unicode_len();
    let mut i: usize = n;
    assert(s@.subrange(0, n as int) =~= s@);
    while i > 0
        invariant
            i <= n,
            n == s@.len(),
            last_index_of(s@, c) == last_index_of(s@.subrange(0, i as int), c),
        decreases i,
    {
        let ghost head = s@.subrange(0, i as int);
        assert(head.last() == s@[i - 1]);
        assert(head.drop_last() =~= s@.subrange(0, i - 1));
        if s.get_char(i - 1) == c {
            return Some(i - 1);
        }
        i -= 1;
    }
    None
}

/// The name of the file at `path`.
pub fn file_name_of(path: &str) -> (r: String)
    ensures
        r@ == base_name(path@),
{
    let n = path.unicode_len();
    match find_last(path, '/') {
        Some(i) => path.substring_char(i + 1, n).to_owned(),
        None => path.substring_char(0, n).to_owned(),
    }
}

/// The extension of a file name, as it is written.
pub fn extension_of(name: &str) -> (r: Option<String>)
    ensures
        match r {
            Some(e) => extension(name@) == Some(e@),
            None => extension(name@) is None,
        },
{
    let n = name.unicode_len();
    match find_last(name, '.') {
        Some(i) => if i == 0 {
            None
        } else {
            Some(name.substring_char(i + 1, n).to_owned())
        },
        None => None,
    }
}

/// The kind that an extension in lower case stands for.
pub fn kind_of_extension(key: String) -> (r: FileKind)
    ensures
        r@ == kind_of_key(key@),
{
    if same_text(key.as_str(), "txt") {
        FileKind::Text
    } else if same_text(key.as_str(), "pdf") {
        FileKind::Pdf
    } else {
        FileKind::Unsupported(key)
    }
}

/// Decides how the text of the file at `path` is to be had.
pub fn classify(path: &str) -> (r: FileKind)
    ensures
        r@ == file_kind(path@),
{
    let name = file_name_of(path);
    let key = match extension_of(name.as_str()) {
        Some(e) => to_lowercase(e.as_str()),
        None => String::new(),
    };
    kind_of_extension(key)
}

/// Settles the text of the PDF file at `path`, given what the extractor
/// made of it: its text, or why it found none.
pub fn extract_pdf_text(path: &str, extracted: Result<String, String>) -> (r: Result<
    String,
    CacherchError,
>)
    ensures
        match r {
            Ok(text) => extracted matches Ok(t) && text == t,
            Err(e) => extracted is Err && e@ == ErrorView::PdfExtraction(path@),
        },
{
    match extracted {
        Ok(text) => Ok(text),
        Err(_) => Err(CacherchError::PdfExtraction(path.to_owned())),
    }
}

/// The kind of a file depends on the case of its extension no more than
/// the lower-case form does: two paths whose extensions have one lower-case
/// form are of one kind.
pub proof fn law_kind_ignores_case(a: Seq<char>, b: Seq<char>)
    requires
        extension(base_name(a)) matches Some(x) && extension(base_name(b)) matches Some(y)
            && lowercase(x) == lowercase(y),
    ensures
        file_kind(a) == file_kind(b),
{
}

/// On an extension of ASCII characters the kind is decided by its letters
/// turned small, one by one.
pub proof fn law_kind_of_ascii_extension(path: Seq<char>, ext: Seq<char>)
    requires
        extension(base_name(path)) == Some(ext),
        all_ascii(ext),
    ensures
        file_kind(path) == kind_of_key(ascii_lowercase(ext)),
{
}

} // verus!
