//! Extracting text from a page by a batch of XPath queries.
//!
//! Parsing the page and evaluating a query are left to the `libxml` crate;
//! what they return has a name here and no definition. This module decides
//! how a query is brought into its absolute form, which queries are handed
//! on, and how the results line up with the queries.

use crate::error::FletcherError;
use libxml::parser::Parser;
use libxml::tree::Document;
use libxml::xpath::Context;
use vstd::prelude::*;
use vstd::utf8::encode_utf8;

verus! {

/// `libxml::tree::Document`: a parsed page, carried through as it is.
#[verifier::external_type_specification]
#[verifier::external_body]
pub struct ExDocument(Document);

/// `libxml::xpath::Context`: what queries on one document are evaluated
/// in, carried through as it is.
#[verifier::external_type_specification]
#[verifier::external_body]
pub struct ExContext(Context);

/// Whether the lenient HTML parser makes a document of a text.
pub uninterp spec fn html_parses(text: Seq<char>) -> bool;

/// The text that a document was parsed from.
pub uninterp spec fn document_text(doc: Document) -> Seq<char>;

/// The text of the document that a query context belongs to.
pub uninterp spec fn context_text(context: Context) -> Seq<char>;

/// The text content of the nodes that a query selects in the document
/// parsed from `text`, in document order; `None` where the query cannot be
/// evaluated.
pub uninterp spec fn xpath_texts(text: Seq<char>, query: Seq<char>) -> Option<Seq<Seq<char>>>;

/// The view of a list of texts.
pub open spec fn texts_view(texts: Vec<String>) -> Seq<Seq<char>> {
    Seq::new(texts@.len(), |i: int| texts@[i]@)
}

/// The view of one query's result.
pub open spec fn result_view(result: Option<Vec<String>>) -> Option<Seq<Seq<char>>> {
    match result {
        Some(texts) => Some(texts_view(texts)),
        None => None,
    }
}

/// The view of a batch of results.
pub open spec fn batch_view(results: Vec<Option<Vec<String>>>) -> Seq<Option<Seq<Seq<char>>>> {
    Seq::new(results@.len(), |i: int| result_view(results@[i]))
}

/// The view of a batch of queries.
pub open spec fn queries_view(queries: Seq<&str>) -> Seq<Seq<char>> {
    Seq::new(queries.len(), |i: int| queries[i]@)
}

/// A query in its absolute form: one that does not begin with `/` gets a
/// `/` in front, so that it is evaluated from the document root.
pub open spec fn normalized(query: Seq<char>) -> Seq<char> {
    if query.len() > 0 && query[0] == '/' {
        query
    } else {
        seq!['/'] + query
    }
}

/// Whether a query in absolute form can be handed to the evaluator: its
/// UTF-8 encoding holds no zero byte.
pub open spec fn evaluable(query: Seq<char>) -> bool {
    forall|i: int| 0 <= i < encode_utf8(query).len() ==> encode_utf8(query)[i] != 0u8
}

/// The result of one query on the document parsed from `text`: the texts
/// that its absolute form selects, and `None` where it cannot be evaluated.
pub open spec fn query_result(text: Seq<char>, query: Seq<char>) -> Option<Seq<Seq<char>>> {
    if evaluable(normalized(query)) {
        xpath_texts(text, normalized(query))
    } else {
        None
    }
}

/// The results of a batch of queries: one per query, in the order of the
/// queries, each depending on its own query alone.
pub open spec fn extracted(text: Seq<char>, queries: Seq<Seq<char>>) -> Seq<
    Option<Seq<Seq<char>>>,
> {
    Seq::new(queries.len(), |i: int| query_result(text, queries[i]))
}

/// Calls `Parser::default_html` and `Parser::parse_string`. Trusted:
/// whether a document comes back depends on the text alone, and the
/// document is that of the text.
#[verifier::external_body]
fn parse_html(text: &str) -> (doc: Option<Document>)
    ensures
        doc.is_some() == html_parses(text@),
        doc matches Some(d) ==> document_text(d) == text@,
{
    match Parser::default_html().parse_string(text) {
        Ok(doc) => Some(doc),
        Err(_) => None,
    }
}

/// Calls `Context::new`. Trusted: a context that comes back belongs to the
/// given document. Whether one comes back is left open.
#[verifier::external_body]
fn query_context(doc: &Document) -> (context: Option<Context>)
    ensures
        context matches Some(c) ==> context_text(c) == document_text(*doc),
{
    match Context::new(doc) {
        Ok(context) => Some(context),
        Err(_) => None,
    }
}

/// Calls `Context::evaluate` on the page's context, then
/// `Object::get_nodes_as_vec` and `Node::get_content` on each node.
/// Trusted: the outcome depends on the page's text and the query alone.
/// The call does not return on a query with a zero byte, which `requires`
/// leaves out; the page keeps the context's document alive.
#[verifier::external_body]
fn evaluate(page: &ParsedDocument, query: &str) -> (texts: Option<Vec<String>>)
    requires
        evaluable(query@),
    ensures
        result_view(texts) == xpath_texts(page.source(), query@),
{
    match page.context.evaluate(query) {
        Ok(found) => Some(found.get_nodes_as_vec().into_iter().map(|node| node.get_content()).collect()),
        Err(_) => None,
    }
}

/// Brings a query into its absolute form.
pub fn normalize_query(query: &str) -> (absolute: String)
    ensures
        absolute@ == normalized(query@),
{
    if query.unicode_len() > 0 && query.get_char(0) == '/' {
        query.to_owned()
    } else {
        proof {
            reveal_strlit("/");
        }
        let absolute = "/".to_owned().concat(query);
        assert("/"@ =~= seq!['/']);
        absolute
    }
}

/// Whether a query in absolute form can be handed to the evaluator.
pub fn is_evaluable(query: &str) -> (r: bool)
    ensures
        r == evaluable(query@),
{
    let bytes = query.as_bytes();
    let mut i: usize = 0;
    while i < bytes.len()
        invariant
            i <= bytes.len(),
            bytes@ == encode_utf8(query@),
            forall|j: int| 0 <= j < i ==> bytes@[j] != 0u8,
        decreases bytes.len() - i,
    {
        if bytes[i] == 0 {
            return false;
        }
        i += 1;
    }
    true
}

/// A page parsed into a document, with the context in which queries on it
/// are evaluated. It lives for one extraction and is not shared.
pub struct ParsedDocument {
    document: Document,
    context: Context,
}

impl ParsedDocument {
    #[verifier::type_invariant]
    spec fn context_is_of_document(self) -> bool {
        context_text(self.context) == document_text(self.document)
    }

    /// The text that the document was parsed from.
    pub closed spec fn source(&self) -> Seq<char> {
        document_text(self.document)
    }

    /// Parses a page as lenient HTML. A text that the parser makes no
    /// document of gives `DomParsingError`, and so does a document for
    /// which no query context can be had.
    pub fn parse(html: &str) -> (parsed: Result<ParsedDocument, FletcherError>)
        ensures
            match parsed {
                Ok(page) => html_parses(html@) && page.source() == html@,
                Err(e) => e == FletcherError::DomParsingError,
            },
            !html_parses(html@) ==> parsed is Err,
    {
        let document = match parse_html(html) {
            Some(document) => document,
            None => return Err(FletcherError::DomParsingError),
        };
        let context = match query_context(&document) {
            Some(context) => context,
            None => return Err(FletcherError::DomParsingError),
        };
        Ok(ParsedDocument { document, context })
    }

    /// Evaluates one query from the document root and collects the text of
    /// every node it selects, in document order. A query that cannot be
    /// evaluated gives `None`.
    pub fn query(&self, query: &str) -> (texts: Option<Vec<String>>)
        ensures
            result_view(texts) == query_result(self.source(), query@),
    {
        let absolute = normalize_query(query);
        if is_evaluable(absolute.as_str()) {
            evaluate(self, absolute.as_str())
        } else {
            None
        }
    }

    /// Evaluates a batch of queries. The results stand in the order of the
    /// queries, one for each; a query that fails leaves `None` in its place
    /// and the others untouched.
    pub fn query_all(&self, queries: &[&str]) -> (results: Vec<Option<Vec<String>>>)
        ensures
            batch_view(results) == extracted(self.source(), queries_view(queries@)),
    {
        let mut results: Vec<Option<Vec<String>>> = Vec::new();
        let mut i: usize = 0;
        while i < queries.len()
            invariant
                i <= queries.len(),
                results@.len() == i,
                forall|j: int|
                    0 <= j < i ==> result_view(#[trigger] results@[j]) == query_result(
                        self.source(),
                        queries@[j]@,
                    ),
            decreases queries.len() - i,
        {
            let texts = self.query(queries[i]);
            results.push(texts);
            i += 1;
        }
        assert(batch_view(results) =~= extracted(self.source(), queries_view(queries@)));
        results
    }
}

/// Parses a page and evaluates a batch of queries on it. Without a
/// document there is nothing to query, so a parse failure ends the whole
/// batch with `DomParsingError`; a failing query only leaves `None` in its
/// own place.
pub fn extract(html: &str, queries: &[&str]) -> (outcome: Result<
    Vec<Option<Vec<String>>>,
    FletcherError,
>)
    ensures
        match outcome {
            Ok(results) => html_parses(html@) && batch_view(results) == extracted(
                html@,
                queries_view(queries@),
            ),
            Err(e) => e == FletcherError::DomParsingError,
        },
        !html_parses(html@) ==> outcome is Err,
{
    match ParsedDocument::parse(html) {
        Ok(page) => Ok(page.query_all(queries)),
        Err(e) => Err(e),
    }
}

/// Batch isolation: a batch gives one result per query, each slot holds
/// what its own query gives alone, and a query that fails to evaluate
/// leaves `None` in its slot. So replacing one query by any other changes
/// no slot but its own.
pub proof fn lemma_batch_isolation(
    text: Seq<char>,
    queries: Seq<Seq<char>>,
    i: int,
    other: Seq<char>,
)
    requires
        0 <= i < queries.len(),
    ensures
        extracted(text, queries).len() == queries.len(),
        forall|j: int|
            0 <= j < queries.len() ==> #[trigger] extracted(text, queries)[j] == query_result(
                text,
                queries[j],
            ),
        xpath_texts(text, normalized(queries[i])) is None ==> extracted(text, queries)[i] is None,
        extracted(text, queries.update(i, other)).len() == queries.len(),
        forall|j: int|
            0 <= j < queries.len() && j != i ==> #[trigger] extracted(
                text,
                queries.update(i, other),
            )[j] == extracted(text, queries)[j],
{
}

/// Root normalization: a query that does not begin with `/` and the same
/// query with a `/` in front have one absolute form, and so one result on
/// any document.
pub proof fn lemma_root_normalization(text: Seq<char>, query: Seq<char>)
    requires
        query.len() == 0 || query[0] != '/',
    ensures
        normalized(seq!['/'] + query) == normalized(query),
        query_result(text, seq!['/'] + query) == query_result(text, query),
{
    let rooted = seq!['/'] + query;
    assert(rooted[0] == '/');
}

/// An absolute form is left as it is: normalizing twice changes nothing.
pub proof fn lemma_normalized_is_absolute(query: Seq<char>)
    ensures
        normalized(query).len() > 0,
        normalized(query)[0] == '/',
        normalized(normalized(query)) == normalized(query),
{
}

} // verus!
