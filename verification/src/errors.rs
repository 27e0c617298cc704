//! The failures that a command can end in.

use vstd::prelude::*;
use vstd::string::StringExecFns;

verus! {

/// Why an indexing or search command failed.
///
/// Every kind but [`CacherchError::CacheStore`] ends the command. A failure
/// of the cache store never does: a read that fails counts as a miss and a
/// write that fails is reported and passed over.
#[derive(Debug, PartialEq, Eq)]
pub enum CacherchError {
    /// The file system refused a listing or a read; the text says why.
    Io(String),
    /// A file whose extension is neither `txt` nor `pdf`; holds the
    /// extension in lower case.
    UnsupportedExtension(String),
    /// No text could be extracted from the PDF file at this path.
    PdfExtraction(String),
    /// The index could not be opened, created, written or read.
    IndexStorage(String),
    /// The query text is not a well-formed query.
    QueryParse(String),
    /// No index has been built at the configured location.
    IndexNotFound,
    /// The cache store could not be reached or held an unreadable entry.
    CacheStore(String),
}

/// Mathematical model of a [`CacherchError`].
pub ghost enum ErrorView {
    Io(Seq<char>),
    UnsupportedExtension(Seq<char>),
    PdfExtraction(Seq<char>),
    IndexStorage(Seq<char>),
    QueryParse(Seq<char>),
    IndexNotFound,
    CacheStore(Seq<char>),
}

impl View for CacherchError {
    type V = ErrorView;

    open spec fn view(&self) -> ErrorView {
        match self {
            CacherchError::Io(d) => ErrorView::Io(d@),
            CacherchError::UnsupportedExtension(e) => ErrorView::UnsupportedExtension(e@),
            CacherchError::PdfExtraction(p) => ErrorView::PdfExtraction(p@),
            CacherchError::IndexStorage(d) => ErrorView::IndexStorage(d@),
            CacherchError::QueryParse(d) => ErrorView::QueryParse(d@),
            CacherchError::IndexNotFound => ErrorView::IndexNotFound,
            CacherchError::CacheStore(d) => ErrorView::CacheStore(d@),
        }
    }
}

impl ErrorView {
    /// Whether the failure ends the command.
    pub open spec fn is_fatal(self) -> bool {
        !(self is CacheStore)
    }

    /// The line shown to the user.
    pub open spec fn message(self) -> Seq<char> {
        match self {
            ErrorView::Io(d) => "IO error: "@ + d,
            ErrorView::UnsupportedExtension(e) => "Unsupported file extension: "@ + e,
            ErrorView::PdfExtraction(p) => "PDF extraction failed for: "@ + p,
            ErrorView::IndexStorage(d) => "Index storage error: "@ + d,
            ErrorView::QueryParse(d) => "Query parsing error: "@ + d,
            ErrorView::IndexNotFound => "Index not found: run the index command first"@,
            ErrorView::CacheStore(d) => "Cache store error: "@ + d,
        }
    }
}

impl CacherchError {
    /// Whether the failure ends the command.
    pub fn is_fatal(&self) -> (r: bool)
        ensures
            r == self@.is_fatal(),
    {
        match self {
            CacherchError::CacheStore(_) => false,
            _ => true,
        }
    }

    /// The line shown to the user.
    pub fn message(&self) -> (r: String)
        ensures
            r@ == self@.message(),
    {
        match self {
            CacherchError::Io(d) => String::from_str("IO error: ").concat(d.as_str()),
            CacherchError::UnsupportedExtension(e) => String::from_str(
                "Unsupported file extension: ",
            ).concat(e.as_str()),
            CacherchError::PdfExtraction(p) => String::from_str(
                "PDF extraction failed for: ",
            ).concat(p.as_str()),
            CacherchError::IndexStorage(d) => String::from_str("Index storage error: ").concat(
                d.as_str(),
            ),
            CacherchError::QueryParse(d) => String::from_str("Query parsing error: ").concat(
                d.as_str(),
            ),
            CacherchError::IndexNotFound => String::from_str(
                "Index not found: run the index command first",
            ),
            CacherchError::CacheStore(d) => String::from_str("Cache store error: ").concat(
                d.as_str(),
            ),
        }
    }

    /// A copy of the failure.
    pub fn duplicate(&self) -> (r: Self)
        ensures
            r@ == self@,
    {
        match self {
            CacherchError::Io(d) => CacherchError::Io(d.clone()),
            CacherchError::UnsupportedExtension(e) => CacherchError::UnsupportedExtension(
                e.clone(),
            ),
            CacherchError::PdfExtraction(p) => CacherchError::PdfExtraction(p.clone()),
            CacherchError::IndexStorage(d) => CacherchError::IndexStorage(d.clone()),
            CacherchError::QueryParse(d) => CacherchError::QueryParse(d.clone()),
            CacherchError::IndexNotFound => CacherchError::IndexNotFound,
            CacherchError::CacheStore(d) => CacherchError::CacheStore(d.clone()),
        }
    }
}

} // verus!
