//! The markup-query boundary: the fixed structural queries, compiled once,
//! and the gathering of what they find on a parsed page into plain values.
use vstd::prelude::*;

use scraper::{ElementRef, Html, Selector};

use crate::definition::{
    definition_of, tuple_of, Definition, DefinitionSource, DefinitionSourceView, DefinitionView,
    MeaningSource, MeaningSourceView, ParseError, SenseSource, SenseSourceView, Tuple,
    TupleSource, TupleSourceView,
};
use crate::fmt::normalized;

verus! {

#[verifier::external_type_specification]
#[verifier::external_body]
pub struct ExHtml(scraper::Html);

#[verifier::external_type_specification]
#[verifier::external_body]
pub struct ExElementRef<'a>(scraper::ElementRef<'a>);

#[verifier::external_type_specification]
#[verifier::external_body]
pub struct ExSelector(scraper::Selector);

/// What `scraper::Selector::parse` gives for a pattern: the compiled
/// selector, or nothing when the pattern does not parse.
pub uninterp spec fn compiled(pattern: Seq<char>) -> Option<Selector>;

/// What `scraper::Html::select` gives: the elements of the page that match
/// the selector, in document order.
pub uninterp spec fn page_matches(page: &Html, sel: Selector) -> Seq<ElementRef<'_>>;

/// What `scraper::ElementRef::select` gives: the descendants of the scope
/// that match the selector, in document order.
pub uninterp spec fn matches_within(scope: ElementRef<'_>, sel: Selector) -> Seq<ElementRef<'_>>;

/// What `scraper::ElementRef::text` gives: the text nodes below the node, in
/// document order.
pub uninterp spec fn text_fragments(node: ElementRef<'_>) -> Seq<Seq<char>>;

/// What `scraper::ElementRef::attr` gives: the value of the named attribute,
/// if the node has it.
pub uninterp spec fn attribute(node: ElementRef<'_>, name: Seq<char>) -> Option<Seq<char>>;

/// Relies on `scraper::Selector::parse`: compiles a CSS selector, or fails
/// on one that does not parse.
#[verifier::external_body]
fn compile(pattern: &str) -> (r: Option<Selector>)
    ensures
        r == compiled(pattern@),
{
    Selector::parse(pattern).ok()
}

/// Relies on `scraper::Html::select`: the elements of the whole page that
/// match `sel`, in document order.
#[verifier::external_body]
pub(crate) fn select_in_page<'a>(page: &'a Html, sel: &Selector) -> (r: Vec<ElementRef<'a>>)
    ensures
        r@ == page_matches(page, *sel),
{
    page.select(sel).collect()
}

/// Relies on `scraper::ElementRef::select`: the descendants of `scope` that
/// match `sel`, in document order.
#[verifier::external_body]
pub(crate) fn select_within<'a>(scope: &ElementRef<'a>, sel: &Selector) -> (r: Vec<ElementRef<'a>>)
    ensures
        r@ == matches_within(*scope, *sel),
{
    scope.select(sel).collect()
}

/// Relies on `scraper::ElementRef::text`: the text nodes below `node`, in
/// document order.
#[verifier::external_body]
pub(crate) fn text_of<'a>(node: &ElementRef<'a>) -> (r: Vec<String>)
    ensures
        r.deep_view() == text_fragments(*node),
{
    node.text().map(String::from).collect()
}

/// Relies on `scraper::ElementRef::attr`: the value of the attribute `name`
/// of `node`, if it has one.
#[verifier::external_body]
pub(crate) fn attr_of<'a>(node: &ElementRef<'a>, name: &str) -> (r: Option<String>)
    ensures
        r.deep_view() == attribute(*node, name@),
{
    node.attr(name).map(String::from)
}

/// The fixed structural queries over definition pages and search-result
/// pages, compiled once and reused for every page.
pub struct Queries {
    pub text: Selector,
    pub title: Selector,
    pub meanings: Selector,
    pub sub_item: Selector,
    pub tuple_key: Selector,
    pub tuple_val: Selector,
    pub singleton_meaning: Selector,
    pub note: Selector,
    pub list_item: Selector,
    pub vignette: Selector,
    pub vignette_word: Selector,
    pub vignette_source: Selector,
    pub vignette_snippet: Selector,
}

/// The fixed queries, compiled; nothing when one of the patterns does not parse.
pub open spec fn compiled_queries() -> Option<Queries> {
    match (
        compiled(".enumeration__text"@),
        compiled("h1"@),
        compiled("#bedeutungen .enumeration__item"@),
        compiled(".enumeration__sub-item"@),
        compiled("dt.tuple__key"@),
        compiled("dd.tuple__val"@),
        compiled("#bedeutung p"@),
        compiled(".note"@),
        compiled("li"@),
        compiled(".vignette"@),
        compiled("strong"@),
        compiled("a.vignette__label"@),
        compiled(".vignette__snippet"@),
    ) {
        (
            Some(text),
            Some(title),
            Some(meanings),
            Some(sub_item),
            Some(tuple_key),
            Some(tuple_val),
            Some(singleton_meaning),
            Some(note),
            Some(list_item),
            Some(vignette),
            Some(vignette_word),
            Some(vignette_source),
            Some(vignette_snippet),
        ) => Some(
            Queries {
                text,
                title,
                meanings,
                sub_item,
                tuple_key,
                tuple_val,
                singleton_meaning,
                note,
                list_item,
                vignette,
                vignette_word,
                vignette_source,
                vignette_snippet,
            },
        ),
        _ => None,
    }
}

/// The text fragments of the first of `nodes`, if there is one.
pub open spec fn first_text_in<'a>(nodes: Seq<ElementRef<'a>>) -> Option<Seq<Seq<char>>> {
    if nodes.len() > 0 {
        Some(text_fragments(nodes[0]))
    } else {
        None
    }
}

/// The text fragments of each list item of the first of `notes`, if there is one.
pub open spec fn note_found<'a>(notes: Seq<ElementRef<'a>>, q: Queries) -> Option<Seq<Seq<Seq<char>>>> {
    if notes.len() > 0 {
        Some(matches_within(notes[0], q.list_item).map_values(|li: ElementRef<'a>| text_fragments(li)))
    } else {
        None
    }
}

/// What the queries find within the sense node `node`.
pub open spec fn sense_found<'a>(node: ElementRef<'a>, q: Queries) -> SenseSourceView {
    SenseSourceView {
        text: first_text_in(matches_within(node, q.text)),
        note: note_found(matches_within(node, q.note), q),
    }
}

/// What the queries find within the sense container `node`.
pub open spec fn meaning_found<'a>(node: ElementRef<'a>, q: Queries) -> MeaningSourceView {
    MeaningSourceView {
        own: sense_found(node, q),
        sub_items: matches_within(node, q.sub_item).map_values(|s: ElementRef<'a>| sense_found(s, q)),
    }
}

/// What the queries find on the definition page `page`.
pub open spec fn definition_found<'a>(page: &'a Html, q: Queries) -> DefinitionSourceView {
    DefinitionSourceView {
        title: first_text_in(page_matches(page, q.title)),
        meanings: page_matches(page, q.meanings).map_values(|c: ElementRef<'a>| meaning_found(c, q)),
        singleton: first_text_in(page_matches(page, q.singleton_meaning)),
    }
}

/// What the queries find within the key/value block `node`.
pub open spec fn tuple_found<'a>(node: ElementRef<'a>, q: Queries) -> TupleSourceView {
    TupleSourceView {
        key: first_text_in(matches_within(node, q.tuple_key)),
        val: first_text_in(matches_within(node, q.tuple_val)),
    }
}

impl Queries {
    /// Compiles the queries; `None` only if one of them does not parse.
    pub fn compile() -> (r: Option<Queries>)
        ensures
            r == compiled_queries(),
    {
        Some(
            Queries {
                text: compile(".enumeration__text")?,
                title: compile("h1")?,
                meanings: compile("#bedeutungen .enumeration__item")?,
                sub_item: compile(".enumeration__sub-item")?,
                tuple_key: compile("dt.tuple__key")?,
                tuple_val: compile("dd.tuple__val")?,
                singleton_meaning: compile("#bedeutung p")?,
                note: compile(".note")?,
                list_item: compile("li")?,
                vignette: compile(".vignette")?,
                vignette_word: compile("strong")?,
                vignette_source: compile("a.vignette__label")?,
                vignette_snippet: compile(".vignette__snippet")?,
            },
        )
    }
}

/// The text fragments of the first of `nodes`, if there is one.
pub(crate) fn first_text<'a>(nodes: &Vec<ElementRef<'a>>) -> (r: Option<Vec<String>>)
    ensures
        r.deep_view() == first_text_in(nodes@),
{
    if nodes.len() > 0 {
        Some(text_of(&nodes[0]))
    } else {
        None
    }
}

impl SenseSource {
    /// Gathers what the queries find within one sense node: its first
    /// sense-text node, and the list items of its first note block.
    pub fn gather<'a>(node: &ElementRef<'a>, queries: &Queries) -> (r: SenseSource)
        ensures
            r@ == sense_found(*node, *queries),
    {
        let text = first_text(&select_within(node, &queries.text));
        let notes = select_within(node, &queries.note);
        let note = if notes.len() > 0 {
            let items = select_within(&notes[0], &queries.list_item);
            let mut list: Vec<Vec<String>> = Vec::new();
            for i in 0..items.len()
                invariant
                    list@.len() == i,
                    forall|j: int|
                        0 <= j < i ==> (#[trigger] list@[j]).deep_view() == text_fragments(items@[j]),
            {
                list.push(text_of(&items[i]));
            }
            assert(list.deep_view() =~= items@.map_values(|li: ElementRef<'a>| text_fragments(li)));
            Some(list)
        } else {
            None
        };
        SenseSource { text, note }
    }
}

impl MeaningSource {
    /// Gathers what the queries find within one sense container: the
    /// container read as a sense, and each of its sub-sense nodes.
    pub fn gather<'a>(node: &ElementRef<'a>, queries: &Queries) -> (r: MeaningSource)
        ensures
            r@ == meaning_found(*node, *queries),
    {
        let own = SenseSource::gather(node, queries);
        let subs = select_within(node, &queries.sub_item);
        let mut sub_items: Vec<SenseSource> = Vec::new();
        for i in 0..subs.len()
            invariant
                sub_items@.len() == i,
                forall|j: int|
                    0 <= j < i ==> (#[trigger] sub_items@[j])@ == sense_found(subs@[j], *queries),
        {
            sub_items.push(SenseSource::gather(&subs[i], queries));
        }
        let r = MeaningSource { own, sub_items };
        assert(r@.sub_items =~= subs@.map_values(|s: ElementRef<'a>| sense_found(s, *queries)));
        r
    }
}

impl DefinitionSource {
    /// Gathers what the queries find on a definition page: its first title,
    /// each sense container of the enumerated list, and its first
    /// single-sense paragraph.
    pub fn gather(page: &Html, queries: &Queries) -> (r: DefinitionSource)
        ensures
            r@ == definition_found(page, *queries),
    {
        let title = first_text(&select_in_page(page, &queries.title));
        let containers = select_in_page(page, &queries.meanings);
        let mut meanings: Vec<MeaningSource> = Vec::new();
        for i in 0..containers.len()
            invariant
                meanings@.len() == i,
                forall|j: int|
                    0 <= j < i ==> (#[trigger] meanings@[j])@ == meaning_found(containers@[j], *queries),
        {
            meanings.push(MeaningSource::gather(&containers[i], queries));
        }
        let singleton = first_text(&select_in_page(page, &queries.singleton_meaning));
        let r = DefinitionSource { title, meanings, singleton };
        assert(r@.meanings =~= containers@.map_values(|c: ElementRef| meaning_found(c, *queries)));
        r
    }
}

impl TupleSource {
    /// Gathers what the queries find within a key/value block: its first
    /// key node and its first value node.
    pub fn gather<'a>(node: &ElementRef<'a>, queries: &Queries) -> (r: TupleSource)
        ensures
            r@ == tuple_found(*node, *queries),
    {
        let key = first_text(&select_within(node, &queries.tuple_key));
        let val = first_text(&select_within(node, &queries.tuple_val));
        TupleSource { key, val }
    }
}

impl Definition {
    /// Extracts the definition on a parsed definition page: what the fixed
    /// queries find there, read as [`Definition::from_source`] reads it.
    pub fn parse(page: &Html, queries: &Queries) -> (r: Result<Definition, ParseError>)
        ensures
            match r {
                Ok(v) => definition_of(definition_found(page, *queries)) == Ok::<
                    DefinitionView,
                    ParseError,
                >(v@),
                Err(e) => definition_of(definition_found(page, *queries)) == Err::<
                    DefinitionView,
                    ParseError,
                >(e),
            },
            (r == Err::<Definition, ParseError>(ParseError::MissingTitle)) <==> first_text_in(
                page_matches(page, queries.title),
            ) is None,
            r matches Ok(v) ==> v@.title == normalized(
                first_text_in(page_matches(page, queries.title))->Some_0,
                true,
            ),
    {
        let found = DefinitionSource::gather(page, queries);
        Definition::from_source(&found)
    }
}

impl Tuple {
    /// Extracts the key/value block below `node`: what the fixed queries
    /// find there, read as [`Tuple::from_source`] reads it.
    pub fn parse<'a>(node: &ElementRef<'a>, queries: &Queries) -> (r: Result<Tuple, ParseError>)
        ensures
            match r {
                Ok(v) => tuple_of(tuple_found(*node, *queries)) == Ok::<
                    (Seq<char>, Seq<Seq<char>>),
                    ParseError,
                >((v.key@, v.val.deep_view())),
                Err(e) => tuple_of(tuple_found(*node, *queries)) == Err::<
                    (Seq<char>, Seq<Seq<char>>),
                    ParseError,
                >(e),
            },
    {
        let found = TupleSource::gather(node, queries);
        Tuple::from_source(found)
    }
}

} // verus!
