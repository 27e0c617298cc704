//! The calls into the tantivy index.
//!
//! Everything in this file is taken on trust: the types are opaque to the
//! verifier and the functions are believed to do what their contracts say.
//! Each function holds one step of work in tantivy and nothing else; the
//! decisions around the steps are made, and proved, in the rest of the crate.

use vstd::prelude::*;
use vstd::multiset::Multiset;
use crate::searcher::{nesting, Hit, MAX_LIMIT, MAX_NESTING};

verus! {

/// A handle on an index directory: `tantivy::Index`.
#[verifier::external_type_specification]
#[verifier::external_body]
pub struct ExIndex(tantivy::Index);

/// The fields of an index and how each is treated:
/// `tantivy::schema::Schema`.
#[verifier::external_type_specification]
#[verifier::external_body]
pub struct ExSchema(tantivy::schema::Schema);

/// A frozen view of the committed documents: `tantivy::Searcher`.
#[verifier::external_type_specification]
#[verifier::external_body]
pub struct ExSearcher(tantivy::Searcher);

/// The query grammar bound to a schema: `tantivy::query::QueryParser`.
#[verifier::external_type_specification]
#[verifier::external_body]
pub struct ExQueryParser(tantivy::query::QueryParser);

/// The single writer of an index. It holds a `tantivy::IndexWriter`, which
/// cannot be declared as the other types are: its parameter is bound by a
/// trait of tantivy.
#[verifier::external_body]
pub struct Writer {
    inner: tantivy::IndexWriter<tantivy::TantivyDocument>,
}

/// What tantivy reports when storage fails: `tantivy::TantivyError`.
#[verifier::external_type_specification]
#[verifier::external_body]
pub struct ExTantivyError(tantivy::TantivyError);

/// What tantivy reports for a malformed query:
/// `tantivy::query::QueryParserError`.
#[verifier::external_type_specification]
#[verifier::external_body]
pub struct ExQueryParserError(tantivy::query::QueryParserError);

/// How a ranked search ended.
pub enum TopDocsOutcome {
    /// The matches, best first.
    Found(Vec<Hit>),
    /// The text is not a query.
    Malformed(tantivy::query::QueryParserError),
    /// The index could not be read.
    Failed(tantivy::TantivyError),
}

/// What a searcher holds: for the address of each document that it can
/// load, the document's stored fields as the text of a JSON object. An
/// address is the ordinal of a segment and a number within the segment.
pub uninterp spec fn stored(searcher: tantivy::Searcher) -> Map<(u32, u32), Seq<char>>;

/// The fields of a schema, in order: each field's name, whether its text
/// is searched, and whether its text is kept for retrieval.
pub uninterp spec fn schema_fields(schema: tantivy::schema::Schema) -> Seq<
    (Seq<char>, bool, bool),
>;

/// What the index of a writer holds as of its last commit: the documents
/// that searches opened since then see, each as the list of its fields,
/// name and text. While the writer lives no other can write to the index.
pub uninterp spec fn published(writer: Writer) -> Multiset<Seq<(Seq<char>, Seq<char>)>>;

/// The fields of an index, in the order of its schema: each field's name,
/// whether its text is searched, and whether its text is kept for
/// retrieval.
pub uninterp spec fn schema_of(index: tantivy::Index) -> Seq<(Seq<char>, bool, bool)>;

/// The fields in which a parser looks for a term of a query that names no
/// field, each with the weight by which the scores of its matches are
/// multiplied.
pub uninterp spec fn query_fields(parser: tantivy::query::QueryParser) -> Seq<(Seq<char>, u8)>;

/// Three text fields: the first searched and kept, the second searched,
/// the third kept.
pub open spec fn text_fields(searched_kept: Seq<char>, searched: Seq<char>, kept: Seq<char>) -> Seq<
    (Seq<char>, bool, bool),
> {
    seq![(searched_kept, true, true), (searched, true, false), (kept, false, true)]
}

/// Whether a parser reads a text as a query.
pub uninterp spec fn well_formed(parser: tantivy::query::QueryParser, text: Seq<char>) -> bool;

/// The matches of a query among the documents that a searcher holds, as
/// the parser reads the query: the `limit` best of them, or all where
/// there are fewer, best first.
pub uninterp spec fn best_matches(
    searcher: tantivy::Searcher,
    parser: tantivy::query::QueryParser,
    text: Seq<char>,
    limit: usize,
) -> Seq<Hit>;

/// What a writer holds for its next commit: the documents that were queued
/// since the last one, in the order of queueing, each as the list of its
/// fields, name and text.
pub uninterp spec fn queued(writer: Writer) -> Seq<Seq<(Seq<char>, Seq<char>)>>;

/// Whether a writer's next commit drops the documents that earlier commits
/// have published.
pub uninterp spec fn clears(writer: Writer) -> bool;

/// What a field name must look like for tantivy to take it: not empty and
/// not starting with a hyphen.
pub open spec fn valid_field_name(name: Seq<char>) -> bool {
    name.len() > 0 && name[0] != '-'
}

/// How the opening of an index for reading ended.
pub enum Opened {
    /// The index.
    Index(tantivy::Index),
    /// The directory, or the index's meta file in it, does not exist.
    Missing,
    /// The index is there and could not be opened.
    Failed(tantivy::TantivyError),
}

/// `Index::open_in_dir`: opens the index that lives in `directory`. Of
/// the failures, the two that say that the directory or the meta file does
/// not exist are set apart. Nothing is claimed of the outcome, which
/// depends on what the directory holds.
#[verifier::external_body]
pub(crate) fn open_index(directory: &str) -> (r: Opened) {
    match tantivy::Index::open_in_dir(directory) {
        Ok(index) => Opened::Index(index),
        Err(tantivy::TantivyError::OpenDirectoryError(
            tantivy::directory::error::OpenDirectoryError::DoesNotExist(_),
        )) => Opened::Missing,
        Err(tantivy::TantivyError::OpenReadError(
            tantivy::directory::error::OpenReadError::FileDoesNotExist(_),
        )) => Opened::Missing,
        Err(error) => Opened::Failed(error),
    }
}

/// `SchemaBuilder::add_text_field`, three times, and `SchemaBuilder::build`:
/// a schema of three text fields. `searched_kept` is tokenized, indexed and
/// stored, `searched` is tokenized and indexed, `kept` is stored only. The
/// builder panics on a repeated or malformed name, so the names must be
/// well-formed and distinct.
#[verifier::external_body]
pub(crate) fn text_schema(searched_kept: &str, searched: &str, kept: &str) -> (r:
    tantivy::schema::Schema)
    requires
        valid_field_name(searched_kept@),
        valid_field_name(searched@),
        valid_field_name(kept@),
        searched_kept@ != searched@,
        searched_kept@ != kept@,
        searched@ != kept@,
    ensures
        schema_fields(r) == text_fields(searched_kept@, searched@, kept@),
{
    let mut builder = tantivy::schema::Schema::builder();
    builder.add_text_field(searched_kept, tantivy::schema::TEXT | tantivy::schema::STORED);
    builder.add_text_field(searched, tantivy::schema::TEXT);
    builder.add_text_field(kept, tantivy::schema::STORED);
    builder.build()
}

/// `MmapDirectory::open`, then `Index::open_or_create`: where the
/// directory holds an index, that index is opened, and the call fails
/// unless its schema is the given one; where it holds none, one is created
/// with the given schema. So an index that comes back has the fields of
/// the schema.
#[verifier::external_body]
pub(crate) fn open_or_create_index(directory: &str, schema: tantivy::schema::Schema) -> (r: Result<
    tantivy::Index,
    tantivy::TantivyError,
>)
    ensures
        r matches Ok(index) ==> schema_of(index) == schema_fields(schema),
{
    let directory = tantivy::directory::MmapDirectory::open(directory)?;
    tantivy::Index::open_or_create(directory, schema)
}

/// `MmapDirectory::open`, then `Index::create` with the default settings:
/// an empty index with the given schema is put in the directory, in place
/// of the index that the directory held, if it held one.
#[verifier::external_body]
pub(crate) fn create_index(directory: &str, schema: tantivy::schema::Schema) -> (r: Result<
    tantivy::Index,
    tantivy::TantivyError,
>)
    ensures
        r matches Ok(index) ==> schema_of(index) == schema_fields(schema),
{
    let directory = tantivy::directory::MmapDirectory::open(directory)?;
    tantivy::Index::create(directory, schema, tantivy::IndexSettings::default())
}

/// `TantivyError`'s `Display`: the failure as text.
#[verifier::external_body]
pub(crate) fn storage_detail(error: &tantivy::TantivyError) -> (r: String) {
    error.to_string()
}

/// `QueryParserError`'s `Display`: the failure as text.
#[verifier::external_body]
pub(crate) fn query_detail(error: &tantivy::query::QueryParserError) -> (r: String) {
    error.to_string()
}

/// `Index::writer`: takes the index's write lock and starts its indexing
/// threads, with `budget` bytes of memory between them. A writer starts
/// with nothing queued and nothing to drop.
#[verifier::external_body]
pub(crate) fn open_writer(index: &tantivy::Index, budget: usize) -> (r: Result<
    Writer,
    tantivy::TantivyError,
>)
    ensures
        r matches Ok(writer) ==> queued(writer).len() == 0 && !clears(writer),
{
    index.writer(budget).map(|inner| Writer { inner })
}

/// `IndexWriter::delete_all_documents`, on a writer with nothing queued:
/// marks every published document to be dropped by the next commit. Until
/// that commit searches see the documents as before.
#[verifier::external_body]
pub(crate) fn clear_documents(writer: &mut Writer) -> (r: Result<(), tantivy::TantivyError>)
    requires
        queued(*old(writer)).len() == 0,
    ensures
        queued(*final(writer)) == queued(*old(writer)),
        published(*final(writer)) == published(*old(writer)),
        clears(*final(writer)) == (r is Ok || clears(*old(writer))),
{
    writer.inner.delete_all_documents().map(|_| ())
}

/// `IndexWriter::add_document` on a document of three text values, each
/// added with `TantivyDocument::add_text` under the field that
/// `Schema::get_field` finds for its name. On success the document is
/// queued behind those that were. On failure, as when the index has no
/// field of one of the names, nothing is queued.
#[verifier::external_body]
pub(crate) fn queue_document(
    writer: &mut Writer,
    first: (&str, &str),
    second: (&str, &str),
    third: (&str, &str),
) -> (r: Result<(), tantivy::TantivyError>)
    ensures
        clears(*final(writer)) == clears(*old(writer)),
        published(*final(writer)) == published(*old(writer)),
        queued(*final(writer)) == if r is Ok {
            queued(*old(writer)).push(
                seq![(first.0@, first.1@), (second.0@, second.1@), (third.0@, third.1@)],
            )
        } else {
            queued(*old(writer))
        },
{
    let schema = writer.inner.index().schema();
    let mut document = tantivy::TantivyDocument::default();
    document.add_text(schema.get_field(first.0)?, first.1);
    document.add_text(schema.get_field(second.0)?, second.1);
    document.add_text(schema.get_field(third.0)?, third.1);
    writer.inner.add_document(document).map(|_| ())
}

/// `IndexWriter::commit`: publishes what was queued and dropped since the
/// last commit, all of it or none. After a commit that succeeded the index
/// holds the documents that were queued, and with them, unless they were
/// marked to be dropped, the documents that it held before; nothing is
/// queued and nothing is left to drop.
#[verifier::external_body]
pub(crate) fn commit(writer: &mut Writer) -> (r: Result<(), tantivy::TantivyError>)
    ensures
        r is Ok ==> {
            &&& queued(*final(writer)).len() == 0
            &&& !clears(*final(writer))
            &&& published(*final(writer)) == if clears(*old(writer)) {
                queued(*old(writer)).to_multiset()
            } else {
                published(*old(writer)).add(queued(*old(writer)).to_multiset())
            }
        },
{
    writer.inner.commit().map(|_| ())
}

/// `Index::reader_builder`, `IndexReaderBuilder::try_into` and
/// `IndexReader::searcher`: a searcher on the last commit, from a reader
/// that reloads after each commit. Nothing is claimed of the outcome.
#[verifier::external_body]
pub(crate) fn open_searcher(index: &tantivy::Index) -> (r: Result<
    tantivy::Searcher,
    tantivy::TantivyError,
>) {
    let reader: tantivy::IndexReader = index.reader_builder().reload_policy(
        tantivy::ReloadPolicy::OnCommitWithDelay,
    ).try_into()?;
    Ok(reader.searcher())
}

/// `QueryParser::for_index` with two default fields, each found by
/// `Schema::get_field`, then `QueryParser::set_field_boost` on the first:
/// the scores of its matches are multiplied by `boost`, those of the
/// second by one. The parser keeps one weight for each field, so the two
/// names must differ. Fails when the index has no field of one of the
/// names.
#[verifier::external_body]
pub(crate) fn open_parser(index: &tantivy::Index, boosted: &str, boost: u8, plain: &str) -> (r:
    Result<tantivy::query::QueryParser, tantivy::TantivyError>)
    requires
        boosted@ != plain@,
    ensures
        r matches Ok(parser) ==> query_fields(parser) == seq![(boosted@, boost), (plain@, 1u8)],
{
    let schema = index.schema();
    let (first, second) = (schema.get_field(boosted)?, schema.get_field(plain)?);
    let mut parser = tantivy::query::QueryParser::for_index(index, vec![first, second]);
    parser.set_field_boost(first, boost.into());
    Ok(parser)
}

/// `QueryParser::parse_query`, then `Searcher::search` with
/// `TopDocs::with_limit`. The collector panics on a limit of zero and
/// reserves room for twice the limit, hence the bounds on the limit. The
/// grammar calls itself once for each part that a query nests, which a
/// text opens with `(` or with `NOT` and a blank, and reads a nested part
/// twice over, hence the bound on the nesting. Whether the text
/// is a query depends on the parser and the text alone. What matches, and
/// how well, depends on the searcher, the parser, the text and the limit
/// alone, so a search that does not fail hands out those matches: at most
/// `limit`, each at the address of a document which the searcher holds.
#[verifier::external_body]
pub(crate) fn top_docs(
    searcher: &tantivy::Searcher,
    parser: &tantivy::query::QueryParser,
    text: &str,
    limit: usize,
) -> (r: TopDocsOutcome)
    requires
        1 <= limit <= MAX_LIMIT,
        nesting(text@) <= MAX_NESTING,
    ensures
        r is Malformed <==> !well_formed(*parser, text@),
        r matches TopDocsOutcome::Found(hits) ==> {
            &&& hits@ == best_matches(*searcher, *parser, text@, limit)
            &&& hits.len() <= limit
            &&& forall|i: int|
                0 <= i < hits.len() ==> stored(*searcher).dom().contains(
                    (#[trigger] hits[i].segment, hits[i].doc),
                )
        },
{
    let query = match parser.parse_query(text) {
        Ok(query) => query,
        Err(error) => return TopDocsOutcome::Malformed(error),
    };
    match searcher.search(&query, &tantivy::collector::TopDocs::with_limit(limit)) {
        Ok(top) => TopDocsOutcome::Found(
            top.into_iter().map(
                |(score, at)| Hit { score_bits: score.to_bits(), segment: at.segment_ord, doc: at.doc_id },
            ).collect(),
        ),
        Err(error) => TopDocsOutcome::Failed(error),
    }
}

/// `Searcher::doc`, then `Document::to_json` with the searcher's schema:
/// the stored fields of the document at an address, as the text of a JSON
/// object that maps each field's name to the list of its values. The
/// address must be that of a document which the searcher holds. The call
/// fails when the store cannot be read.
#[verifier::external_body]
pub(crate) fn stored_json(searcher: &tantivy::Searcher, segment: u32, doc: u32) -> (r: Result<
    String,
    tantivy::TantivyError,
>)
    requires
        stored(*searcher).dom().contains((segment, doc)),
    ensures
        r matches Ok(text) ==> text@ == stored(*searcher)[(segment, doc)],
{
    let document: tantivy::TantivyDocument = searcher.doc(tantivy::DocAddress::new(segment, doc))?;
    Ok(tantivy::Document::to_json(&document, searcher.schema()))
}

} // verus!
