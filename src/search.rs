//! Search sessions: the addresses of search and definition pages, the
//! candidate list read from a search-result page, and the reading of the
//! user's selection.
use vstd::prelude::*;

use scraper::{ElementRef, Html};

use crate::fmt::{trim, trim_end_spec, trim_start_spec, without_shys, write_without_shys};
use crate::markup::{
    attr_of, attribute, first_text, first_text_in, matches_within, page_matches, select_in_page,
    select_within, Queries,
};
use crate::render::{decimal, push_char, push_decimal};

verus! {

/// The dictionary's base address, without a trailing slash.
pub const BASE_URL: &'static str = "https://www.duden.de";

/// `s` without its leading slashes.
pub open spec fn strip_slashes(s: Seq<char>) -> Seq<char>
    decreases s.len(),
{
    if s.len() > 0 && s[0] == '/' {
        strip_slashes(s.drop_first())
    } else {
        s
    }
}

/// The absolute address of the site-relative `path`.
pub open spec fn url_of(path: Seq<char>) -> Seq<char> {
    BASE_URL@ + "/"@ + strip_slashes(path)
}

/// The address of the search page for `term`.
pub open spec fn search_url_of(term: Seq<char>) -> Seq<char> {
    url_of("suchen/dudenonline/"@ + term)
}

/// The absolute address of the site-relative `path`; leading slashes of
/// `path` are dropped.
pub fn url(path: &str) -> (r: String)
    ensures
        r@ == url_of(path@),
{
    let n = path.unicode_len();
    let mut k: usize = 0;
    assert(path@.skip(0) =~= path@);
    while k < n && path.get_char(k) == '/'
        invariant
            k <= n,
            n == path@.len(),
            strip_slashes(path@) == strip_slashes(path@.skip(k as int)),
        decreases n - k,
    {
        assert(path@.skip(k as int).drop_first() =~= path@.skip(k + 1));
        k = k + 1;
    }
    let rest = path.substring_char(k, n);
    assert(rest@ =~= path@.skip(k as int));
    assert(strip_slashes(rest@) == rest@);
    let mut r = String::from_str(BASE_URL);
    r.append("/");
    r.append(rest);
    r
}

/// The address of the search page for `term`.
pub fn search_url(term: &str) -> (r: String)
    ensures
        r@ == search_url_of(term@),
{
    let mut path = String::from_str("suchen/dudenonline/");
    path.append(term);
    url(path.as_str())
}

} // verus!

verus! {

/// What the queries find within one search result: the text fragments of
/// its first headword node, the link target of its first label link, and
/// the text fragments of its first snippet node.
pub struct ItemSource {
    pub word: Option<Vec<String>>,
    pub source: Option<String>,
    pub snippet: Option<Vec<String>>,
}

/// The mathematical value of an [`ItemSource`].
pub ghost struct ItemSourceView {
    pub word: Option<Seq<Seq<char>>>,
    pub source: Option<Seq<char>>,
    pub snippet: Option<Seq<Seq<char>>>,
}

impl View for ItemSource {
    type V = ItemSourceView;

    open spec fn view(&self) -> ItemSourceView {
        ItemSourceView {
            word: self.word.deep_view(),
            source: self.source.deep_view(),
            snippet: self.snippet.deep_view(),
        }
    }
}

/// One search result: its headword, the site-relative address of its
/// definition page, and an optional preview.
pub struct Item {
    pub word: String,
    pub source: String,
    pub snippet: Option<String>,
}

/// The mathematical value of an [`Item`].
pub ghost struct ItemView {
    pub word: Seq<char>,
    pub source: Seq<char>,
    pub snippet: Option<Seq<char>>,
}

impl View for Item {
    type V = ItemView;

    open spec fn view(&self) -> ItemView {
        ItemView { word: self.word@, source: self.source@, snippet: self.snippet.deep_view() }
    }
}

/// The search result read from what was found within it: the first text
/// fragment of its headword, its link target, and the first text fragment
/// of its snippet, trimmed. A result without a headword fragment or a link
/// target reads as nothing.
pub open spec fn item_of(s: ItemSourceView) -> Option<ItemView> {
    match (s.word, s.source) {
        (Some(w), Some(src)) if w.len() > 0 => Some(
            ItemView {
                word: w[0],
                source: src,
                snippet: match s.snippet {
                    Some(fs) if fs.len() > 0 => Some(trim_end_spec(trim_start_spec(fs[0]))),
                    _ => None,
                },
            },
        ),
        _ => None,
    }
}

/// A search result as listed: the headword in bold without soft hyphens,
/// then the preview in parentheses, if there is one.
pub open spec fn item_text(v: ItemView) -> Seq<char> {
    "\x1b[1m"@ + without_shys(v.word) + "\x1b[m"@ + match v.snippet {
        Some(s) => " ("@ + s + ")"@,
        None => Seq::empty(),
    }
}

/// `s` right-aligned in a field of two characters.
pub open spec fn pad2(s: Seq<char>) -> Seq<char> {
    if s.len() < 2 {
        seq![' '] + s
    } else {
        s
    }
}

/// The line that lists the search result at position `i`.
pub open spec fn candidate_line_text(i: nat, v: ItemView) -> Seq<char> {
    "["@ + pad2(decimal(i)) + "] "@ + item_text(v)
}

impl Item {
    /// Reads a search result from what was found within it.
    pub fn from_source(s: &ItemSource) -> (r: Option<Item>)
        ensures
            match r {
                Some(v) => item_of(s@) == Some(v@),
                None => item_of(s@) is None,
            },
    {
        let word = match &s.word {
            Some(w) if w.len() > 0 => w[0].clone(),
            _ => {
                return None;
            },
        };
        let source = match &s.source {
            Some(src) => src.clone(),
            None => {
                return None;
            },
        };
        let snippet = match &s.snippet {
            Some(fs) if fs.len() > 0 => Some(String::from_str(trim(fs[0].as_str()))),
            _ => None,
        };
        Some(Item { word, source, snippet })
    }

    /// Appends this search result, as listed, to `out`.
    pub fn render_into(&self, out: &mut String)
        ensures
            final(out)@ == old(out)@ + item_text(self@),
    {
        let ghost start = out@;
        out.append("\x1b[1m");
        write_without_shys(out, self.word.as_str());
        out.append("\x1b[m");
        if let Some(s) = &self.snippet {
            out.append(" (");
            out.append(s.as_str());
            out.append(")");
        }
        assert(out@ =~= start + item_text(self@));
    }
}

/// The line that lists `item` at position `i`: the position right-aligned
/// in brackets, then the result.
pub fn candidate_line(i: usize, item: &Item) -> (r: String)
    ensures
        r@ == candidate_line_text(i as nat, item@),
{
    let mut out = String::from_str("[");
    if i < 10 {
        push_char(&mut out, ' ');
    }
    push_decimal(&mut out, i);
    proof {
        reveal_with_fuel(decimal, 2);
        assert(i < 10 <==> decimal(i as nat).len() < 2);
    }
    out.append("] ");
    item.render_into(&mut out);
    assert(out@ =~= candidate_line_text(i as nat, item@));
    out
}

} // verus!

verus! {

/// Every one of `found` reads as a search result.
pub open spec fn all_items_ok(found: Seq<ItemSourceView>) -> bool {
    forall|i: int| 0 <= i < found.len() ==> (#[trigger] item_of(found[i])) is Some
}

/// The candidate list read from what was found within each search result:
/// nothing when one of them does not read as a result.
pub open spec fn candidates_of(found: Seq<ItemSourceView>) -> Option<Seq<ItemView>> {
    if all_items_ok(found) {
        Some(found.map_values(|s: ItemSourceView| item_of(s)->Some_0))
    } else {
        None
    }
}

/// The mathematical value of a candidate list, if there is one.
pub open spec fn items_view(r: Option<Vec<Item>>) -> Option<Seq<ItemView>> {
    match r {
        Some(items) => Some(items@.map_values(|v: Item| v@)),
        None => None,
    }
}

/// What the queries find within the search result `node`: the text
/// fragments of its first headword node, the `href` of its first label link,
/// and the text fragments of its first snippet node.
pub open spec fn item_found<'a>(node: ElementRef<'a>, q: Queries) -> ItemSourceView {
    let links = matches_within(node, q.vignette_source);
    ItemSourceView {
        word: first_text_in(matches_within(node, q.vignette_word)),
        source: if links.len() > 0 {
            attribute(links[0], "href"@)
        } else {
            None
        },
        snippet: first_text_in(matches_within(node, q.vignette_snippet)),
    }
}

/// What the queries find within each search result on `page`, in order.
pub open spec fn candidates_found<'a>(page: &'a Html, q: Queries) -> Seq<ItemSourceView> {
    page_matches(page, q.vignette).map_values(|n: ElementRef<'a>| item_found(n, q))
}

impl ItemSource {
    /// Gathers what the queries find within one search result.
    pub fn gather<'a>(node: &ElementRef<'a>, queries: &Queries) -> (r: ItemSource)
        ensures
            r@ == item_found(*node, *queries),
    {
        let word = first_text(&select_within(node, &queries.vignette_word));
        let links = select_within(node, &queries.vignette_source);
        let source = if links.len() > 0 {
            attr_of(&links[0], "href")
        } else {
            None
        };
        let snippet = first_text(&select_within(node, &queries.vignette_snippet));
        ItemSource { word, source, snippet }
    }
}

impl Item {
    /// Reads the search results, in order; `None` when one of them lacks a
    /// headword or a link target.
    pub fn from_sources(found: &Vec<ItemSource>) -> (r: Option<Vec<Item>>)
        ensures
            items_view(r) == candidates_of(found@.map_values(|s: ItemSource| s@)),
    {
        let ghost views = found@.map_values(|s: ItemSource| s@);
        let mut items: Vec<Item> = Vec::new();
        let mut i: usize = 0;
        while i < found.len()
            invariant
                i <= found.len(),
                items@.len() == i,
                views == found@.map_values(|s: ItemSource| s@),
                forall|j: int| 0 <= j < i ==> item_of(#[trigger] views[j]) == Some(items@[j]@),
            decreases found.len() - i,
        {
            assert(views[i as int] == found@[i as int]@);
            match Item::from_source(&found[i]) {
                Some(item) => items.push(item),
                None => {
                    assert(!all_items_ok(views));
                    return None;
                },
            }
            i = i + 1;
        }
        assert(all_items_ok(views));
        assert(items@.map_values(|v: Item| v@) =~= views.map_values(
            |s: ItemSourceView| item_of(s)->Some_0,
        ));
        Some(items)
    }

    /// Reads the candidate list on a parsed search-result page: what the
    /// fixed queries find within each result, read as
    /// [`Item::from_sources`] reads it.
    pub fn discover(page: &Html, queries: &Queries) -> (r: Option<Vec<Item>>)
        ensures
            items_view(r) == candidates_of(candidates_found(page, *queries)),
    {
        let nodes = select_in_page(page, &queries.vignette);
        let mut found: Vec<ItemSource> = Vec::new();
        for i in 0..nodes.len()
            invariant
                found@.len() == i,
                forall|j: int| 0 <= j < i ==> (#[trigger] found@[j])@ == item_found(nodes@[j], *queries),
        {
            found.push(ItemSource::gather(&nodes[i], queries));
        }
        assert(found@.map_values(|s: ItemSource| s@) =~= candidates_found(page, *queries));
        Item::from_sources(&found)
    }
}

} // verus!

verus! {

/// `s` is made of ASCII decimal digits only.
pub open spec fn all_digits(s: Seq<char>) -> bool {
    forall|i: int| 0 <= i < s.len() ==> '0' <= #[trigger] s[i] <= '9'
}

/// The value of the decimal digits `s`.
pub open spec fn digits_value(s: Seq<char>) -> nat
    decreases s.len(),
{
    if s.len() == 0 {
        0
    } else {
        digits_value(s.drop_last()) * 10 + (s.last() as nat - '0' as nat) as nat
    }
}

/// The number written in `s`: an optional `+` followed by one or more
/// decimal digits, and nothing else.
pub open spec fn decimal_number(s: Seq<char>) -> Option<nat> {
    let digits = if s.len() > 0 && s[0] == '+' {
        s.drop_first()
    } else {
        s
    };
    if digits.len() > 0 && all_digits(digits) {
        Some(digits_value(digits))
    } else {
        None
    }
}

/// Relies on `usize`'s `FromStr`: an optional `+` followed by one or more
/// decimal digits whose value fits in `usize`; anything else is an error.
#[verifier::external_body]
fn parse_usize(s: &str) -> (r: Option<usize>)
    ensures
        match r {
            Some(v) => decimal_number(s@) == Some(v as nat),
            None => decimal_number(s@) matches Some(n) ==> n > usize::MAX,
        },
{
    s.parse::<usize>().ok()
}

/// The outcome of reading one line of the user's selection.
#[derive(Debug, Clone, Copy, PartialEq, Eq, Structural)]
pub enum Selection {
    /// A valid position in the candidate list.
    Chosen(usize),
    /// The line does not hold a number; ask again.
    NotANumber,
    /// The number is past the end of the candidate list; ask again.
    OutOfRange(usize),
}

/// The selection written on `line` for a list of `count` candidates: the
/// line, trimmed, must be a number below `count`.
pub open spec fn selection_of(line: Seq<char>, count: nat) -> Selection {
    match decimal_number(trim_end_spec(trim_start_spec(line))) {
        Some(n) if n <= usize::MAX => if n < count {
            Selection::Chosen(n as usize)
        } else {
            Selection::OutOfRange(n as usize)
        },
        _ => Selection::NotANumber,
    }
}

/// Reads the selection on one input line for a list of `count` candidates.
pub fn parse_selection(line: &str, count: usize) -> (r: Selection)
    ensures
        r == selection_of(line@, count as nat),
{
    match parse_usize(trim(line)) {
        Some(n) => if n < count {
            Selection::Chosen(n)
        } else {
            Selection::OutOfRange(n)
        },
        None => Selection::NotANumber,
    }
}

} // verus!
