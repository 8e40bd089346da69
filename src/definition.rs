//! The typed document model of a definition page: senses, sub-senses,
//! examples and key/value attribute blocks, their extraction from what the
//! page's fixed queries find, and their rendering to text.
use vstd::prelude::*;

use crate::fmt::{
    lemma_concat_shy_free, lemma_normalized_shy_free, lemma_without_shys_free, normalize, normalized, shy_free, without_shys, write_text_trimmed, write_without_shys,
};
use crate::render::{decimal, letter_label, push_decimal, push_letter_label, push_tabs, tabs};

verus! {

/// Why a definition page could not be turned into a definition.
#[derive(Debug, Clone, Copy, PartialEq, Eq, Structural)]
pub enum ParseError {
    /// The page has no title.
    MissingTitle,
    /// A sense has no sense text.
    EmptySense,
    /// The page has neither an enumerated list of senses nor a single-sense paragraph.
    NoMeanings,
    /// A key/value block has no key.
    MissingKey,
    /// A key/value block has no value.
    MissingValue,
}

/// What the fixed queries find within one sense node: the text fragments of
/// its sense-text node, and, when it has a note block, the text fragments of
/// each list item of that block.
pub struct SenseSource {
    pub text: Option<Vec<String>>,
    pub note: Option<Vec<Vec<String>>>,
}

/// What the fixed queries find within one sense container: the container
/// read as a sense of its own, and each of its sub-sense nodes.
pub struct MeaningSource {
    pub own: SenseSource,
    pub sub_items: Vec<SenseSource>,
}

/// What the fixed queries find on a definition page: the text fragments of
/// the title, each sense container of the enumerated list, and the text
/// fragments of the single-sense paragraph.
pub struct DefinitionSource {
    pub title: Option<Vec<String>>,
    pub meanings: Vec<MeaningSource>,
    pub singleton: Option<Vec<String>>,
}

/// The mathematical value of a [`SenseSource`].
pub ghost struct SenseSourceView {
    pub text: Option<Seq<Seq<char>>>,
    pub note: Option<Seq<Seq<Seq<char>>>>,
}

/// The mathematical value of a [`MeaningSource`].
pub ghost struct MeaningSourceView {
    pub own: SenseSourceView,
    pub sub_items: Seq<SenseSourceView>,
}

/// The mathematical value of a [`DefinitionSource`].
pub ghost struct DefinitionSourceView {
    pub title: Option<Seq<Seq<char>>>,
    pub meanings: Seq<MeaningSourceView>,
    pub singleton: Option<Seq<Seq<char>>>,
}

impl View for SenseSource {
    type V = SenseSourceView;

    open spec fn view(&self) -> SenseSourceView {
        SenseSourceView { text: self.text.deep_view(), note: self.note.deep_view() }
    }
}

impl View for MeaningSource {
    type V = MeaningSourceView;

    open spec fn view(&self) -> MeaningSourceView {
        MeaningSourceView {
            own: self.own@,
            sub_items: self.sub_items@.map_values(|s: SenseSource| s@),
        }
    }
}

impl View for DefinitionSource {
    type V = DefinitionSourceView;

    open spec fn view(&self) -> DefinitionSourceView {
        DefinitionSourceView {
            title: self.title.deep_view(),
            meanings: self.meanings@.map_values(|m: MeaningSource| m@),
            singleton: self.singleton.deep_view(),
        }
    }
}

/// A single sense: its text and, when the sense has a note block, its examples.
pub struct SimpleMeaning {
    pub text: String,
    pub examples: Option<Vec<String>>,
}

/// A sense, either single or split into lettered sub-senses.
pub enum Meaning {
    Simple(SimpleMeaning),
    Complex(Vec<SimpleMeaning>),
}

/// A term's definition: its title and its senses, of which there is at least one.
pub struct Definition {
    title: String,
    meanings: Vec<Meaning>,
}

/// The mathematical value of a [`SimpleMeaning`].
pub ghost struct SimpleMeaningView {
    pub text: Seq<char>,
    pub examples: Option<Seq<Seq<char>>>,
}

/// The mathematical value of a [`Meaning`].
pub ghost enum MeaningView {
    Simple(SimpleMeaningView),
    Complex(Seq<SimpleMeaningView>),
}

/// The mathematical value of a [`Definition`].
pub ghost struct DefinitionView {
    pub title: Seq<char>,
    pub meanings: Seq<MeaningView>,
}

impl View for SimpleMeaning {
    type V = SimpleMeaningView;

    open spec fn view(&self) -> SimpleMeaningView {
        SimpleMeaningView { text: self.text@, examples: self.examples.deep_view() }
    }
}

impl View for Meaning {
    type V = MeaningView;

    open spec fn view(&self) -> MeaningView {
        match self {
            Meaning::Simple(s) => MeaningView::Simple(s@),
            Meaning::Complex(subs) => MeaningView::Complex(subs@.map_values(|s: SimpleMeaning| s@)),
        }
    }
}

impl View for Definition {
    type V = DefinitionView;

    closed spec fn view(&self) -> DefinitionView {
        DefinitionView {
            title: self.title@,
            meanings: self.meanings@.map_values(|m: Meaning| m@),
        }
    }
}

impl Definition {
    /// Every definition is well formed.
    #[verifier::type_invariant]
    closed spec fn inv(self) -> bool {
        self@.wf()
    }
}

impl MeaningView {
    /// A split sense has at least one sub-sense.
    pub open spec fn wf(self) -> bool {
        self is Complex ==> self->Complex_0.len() > 0
    }
}

impl DefinitionView {
    /// A definition has at least one sense, and each of its senses is well formed.
    pub open spec fn wf(self) -> bool {
        &&& self.meanings.len() > 0
        &&& forall|i: int| 0 <= i < self.meanings.len() ==> (#[trigger] self.meanings[i]).wf()
    }
}

/// The examples of a sense with the given note block.
pub open spec fn examples_of(note: Option<Seq<Seq<Seq<char>>>>) -> Option<Seq<Seq<char>>> {
    match note {
        Some(items) => Some(items.map_values(|item: Seq<Seq<char>>| normalized(item, true))),
        None => None,
    }
}

/// The sense read from what was found within one sense node.
pub open spec fn simple_of(s: SenseSourceView) -> Result<SimpleMeaningView, ParseError> {
    match s.text {
        Some(t) => Ok(
            SimpleMeaningView {
                text: normalized(t, true),
                examples: examples_of(s.note),
            },
        ),
        None => Err(ParseError::EmptySense),
    }
}

/// Every sub-sense node has a sense text.
pub open spec fn all_have_text(subs: Seq<SenseSourceView>) -> bool {
    forall|i: int| 0 <= i < subs.len() ==> (#[trigger] subs[i]).text is Some
}

/// The sense read from what was found within one sense container: split
/// into sub-senses when it has sub-sense nodes, single otherwise.
pub open spec fn meaning_of(m: MeaningSourceView) -> Result<MeaningView, ParseError> {
    if m.sub_items.len() == 0 {
        match simple_of(m.own) {
            Ok(s) => Ok(MeaningView::Simple(s)),
            Err(e) => Err(e),
        }
    } else if all_have_text(m.sub_items) {
        Ok(MeaningView::Complex(m.sub_items.map_values(|s: SenseSourceView| simple_of(s)->Ok_0)))
    } else {
        Err(ParseError::EmptySense)
    }
}

/// Every sense container reads as a sense.
pub open spec fn all_meanings_ok(ms: Seq<MeaningSourceView>) -> bool {
    forall|i: int| 0 <= i < ms.len() ==> (#[trigger] meaning_of(ms[i])) is Ok
}

/// The definition read from what was found on a page.
pub open spec fn definition_of(d: DefinitionSourceView) -> Result<DefinitionView, ParseError> {
    match d.title {
        None => Err(ParseError::MissingTitle),
        Some(t) => if !all_meanings_ok(d.meanings) {
            Err(ParseError::EmptySense)
        } else if d.meanings.len() > 0 {
            Ok(
                DefinitionView {
                    title: normalized(t, true),
                    meanings: d.meanings.map_values(|m: MeaningSourceView| meaning_of(m)->Ok_0),
                },
            )
        } else {
            match d.singleton {
                Some(p) => Ok(
                    DefinitionView {
                        title: normalized(t, true),
                        meanings: seq![
                            MeaningView::Simple(
                                SimpleMeaningView { text: normalized(p, true), examples: None },
                            ),
                        ],
                    },
                ),
                None => Err(ParseError::NoMeanings),
            }
        },
    }
}

} // verus!

verus! {

impl SimpleMeaning {
    /// A sense with the given text and no examples.
    pub fn new(text: String) -> (r: SimpleMeaning)
        ensures
            r@ == (SimpleMeaningView { text: text@, examples: None }),
    {
        SimpleMeaning { text, examples: None }
    }

    /// Reads a sense from what was found within its node.
    pub fn from_source(s: &SenseSource) -> (r: Result<SimpleMeaning, ParseError>)
        ensures
            match r {
                Ok(m) => simple_of(s@) == Ok::<SimpleMeaningView, ParseError>(m@),
                Err(e) => simple_of(s@) == Err::<SimpleMeaningView, ParseError>(e),
            },
    {
        let text = match &s.text {
            Some(t) => normalize(t, true),
            None => {
                return Err(ParseError::EmptySense);
            },
        };
        let examples = match &s.note {
            Some(items) => {
                let mut list: Vec<String> = Vec::new();
                let mut i: usize = 0;
                while i < items.len()
                    invariant
                        i <= items.len(),
                        list@.len() == i,
                        forall|j: int|
                            0 <= j < i ==> #[trigger] list@[j]@ == normalized(items@[j].deep_view(), true),
                    decreases items.len() - i,
                {
                    list.push(normalize(&items[i], true));
                    i = i + 1;
                }
                assert(list.deep_view() =~= items.deep_view().map_values(
                    |item: Seq<Seq<char>>| normalized(item, true),
                ));
                Some(list)
            },
            None => None,
        };
        Ok(SimpleMeaning { text, examples })
    }
}

} // verus!

verus! {

impl Meaning {
    /// Reads a sense from what was found within its container: split into
    /// sub-senses when there are sub-sense nodes, single otherwise.
    pub fn from_source(m: &MeaningSource) -> (r: Result<Meaning, ParseError>)
        ensures
            match r {
                Ok(v) => meaning_of(m@) == Ok::<MeaningView, ParseError>(v@),
                Err(e) => meaning_of(m@) == Err::<MeaningView, ParseError>(e),
            },
            r matches Ok(v) ==> v@.wf(),
    {
        proof {
            lemma_meaning_shape(m@);
        }
        let n = m.sub_items.len();
        if n == 0 {
            return match SimpleMeaning::from_source(&m.own) {
                Ok(s) => Ok(Meaning::Simple(s)),
                Err(e) => Err(e),
            };
        }
        let mut subs: Vec<SimpleMeaning> = Vec::new();
        let mut i: usize = 0;
        while i < n
            invariant
                i <= n,
                n == m.sub_items@.len(),
                subs@.len() == i,
                forall|j: int| 0 <= j < i ==> (#[trigger] m@.sub_items[j]).text is Some,
                forall|j: int|
                    0 <= j < i ==> simple_of(m@.sub_items[j]) == Ok::<SimpleMeaningView, ParseError>(
                        #[trigger] subs@[j]@,
                    ),
            decreases n - i,
        {
            assert(m.sub_items@[i as int]@ == m@.sub_items[i as int]);
            match SimpleMeaning::from_source(&m.sub_items[i]) {
                Ok(s) => subs.push(s),
                Err(e) => {
                    assert(!all_have_text(m@.sub_items));
                    return Err(e);
                },
            }
            i = i + 1;
        }
        let r = Meaning::Complex(subs);
        assert(r@->Complex_0 =~= m@.sub_items.map_values(|s: SenseSourceView| simple_of(s)->Ok_0));
        Ok(r)
    }
}

impl Definition {
    /// Reads a definition from what was found on its page. The enumerated
    /// senses are read first; only when there are none is the single-sense
    /// paragraph read.
    pub fn from_source(d: &DefinitionSource) -> (r: Result<Definition, ParseError>)
        ensures
            match r {
                Ok(v) => definition_of(d@) == Ok::<DefinitionView, ParseError>(v@),
                Err(e) => definition_of(d@) == Err::<DefinitionView, ParseError>(e),
            },
    {
        let title = match &d.title {
            Some(t) => normalize(t, true),
            None => {
                return Err(ParseError::MissingTitle);
            },
        };
        let n = d.meanings.len();
        let mut meanings: Vec<Meaning> = Vec::new();
        let mut i: usize = 0;
        while i < n
            invariant
                i <= n,
                n == d.meanings@.len(),
                d.title is Some,
                meanings@.len() == i,
                forall|j: int|
                    0 <= j < i ==> meaning_of(d@.meanings[j]) == Ok::<MeaningView, ParseError>(
                        #[trigger] meanings@[j]@,
                    ),
            decreases n - i,
        {
            assert(d.meanings@[i as int]@ == d@.meanings[i as int]);
            match Meaning::from_source(&d.meanings[i]) {
                Ok(m) => meanings.push(m),
                Err(e) => {
                    assert(meaning_of(d@.meanings[i as int]) is Err);
                    assert(!all_meanings_ok(d@.meanings));
                    assert(e == ParseError::EmptySense);
                    return Err(e);
                },
            }
            i = i + 1;
        }
        assert(all_meanings_ok(d@.meanings)) by {
            assert forall|j: int| 0 <= j < n implies #[trigger] meaning_of(d@.meanings[j]) is Ok by {
                assert(meaning_of(d@.meanings[j]) == Ok::<MeaningView, ParseError>(meanings@[j]@));
            }
        }
        if n == 0 {
            match &d.singleton {
                Some(p) => {
                    meanings.push(Meaning::Simple(SimpleMeaning::new(normalize(p, true))));
                },
                None => {
                    return Err(ParseError::NoMeanings);
                },
            }
        }
        let ghost v = DefinitionView {
            title: title@,
            meanings: meanings@.map_values(|m: Meaning| m@),
        };
        assert(v.meanings =~= definition_of(d@)->Ok_0.meanings);
        proof {
            lemma_definition_wf(d@);
        }
        let r = Definition { title, meanings };
        Ok(r)
    }
}

} // verus!

verus! {

/// A sense container with sub-sense nodes reads as a split sense with one
/// sub-sense per node, never an empty one; a container without them reads as
/// a single sense.
pub proof fn lemma_meaning_shape(m: MeaningSourceView)
    ensures
        meaning_of(m) matches Ok(v) ==> {
            &&& v.wf()
            &&& (v is Complex <==> m.sub_items.len() > 0)
            &&& v is Complex ==> v->Complex_0.len() == m.sub_items.len()
        },
{
}

/// A definition read from a page has at least one sense, and each of its
/// split senses has at least one sub-sense. When the page has no enumerated
/// senses, the definition has exactly one single sense, read from the
/// single-sense paragraph.
pub proof fn lemma_definition_wf(d: DefinitionSourceView)
    ensures
        definition_of(d) matches Ok(v) ==> {
            &&& v.wf()
            &&& d.meanings.len() == 0 ==> v.meanings.len() == 1 && v.meanings[0] is Simple
        },
{
    if let Ok(v) = definition_of(d) {
        if d.meanings.len() > 0 {
            assert forall|i: int| 0 <= i < v.meanings.len() implies (#[trigger] v.meanings[i]).wf() by {
                assert(meaning_of(d.meanings[i]) is Ok);
                lemma_meaning_shape(d.meanings[i]);
            }
        }
    }
}

} // verus!

verus! {

/// The example block of a sense: one dash-prefixed line per example, without
/// soft hyphens.
pub open spec fn examples_text(ex: Seq<Seq<char>>) -> Seq<char>
    decreases ex.len(),
{
    if ex.len() == 0 {
        Seq::empty()
    } else {
        examples_text(ex.drop_last()) + "\n\t - "@ + without_shys(ex.last())
    }
}

/// The label of an example block: singular for exactly one example, plural otherwise.
pub open spec fn examples_heading(n: nat) -> Seq<char> {
    if n == 1 {
        "\n\t\x1b[1mBeispiel\x1b[m"@
    } else {
        "\n\t\x1b[1mBeispiele\x1b[m"@
    }
}

/// A sense as text, `indent` tabs deep, lettered when `letter` is given, its
/// text without soft hyphens.
pub open spec fn simple_text(m: SimpleMeaningView, indent: nat, letter: Option<nat>) -> Seq<char> {
    let label = match letter {
        Some(k) => letter_label(k) + ") "@,
        None => Seq::empty(),
    };
    let block = match m.examples {
        Some(ex) => examples_heading(ex.len()) + examples_text(ex),
        None => Seq::empty(),
    };
    tabs(indent) + label + without_shys(m.text) + block
}

/// The sub-senses of a split sense as text: each one tab deep, lettered, on a line of its own.
pub open spec fn subs_text(subs: Seq<SimpleMeaningView>) -> Seq<char>
    decreases subs.len(),
{
    if subs.len() == 0 {
        Seq::empty()
    } else {
        subs_text(subs.drop_last()) + simple_text(subs.last(), 1, Some((subs.len() - 1) as nat))
            + "\n"@
    }
}

/// A sense as text.
pub open spec fn meaning_text(m: MeaningView) -> Seq<char> {
    match m {
        MeaningView::Simple(s) => simple_text(s, 0, None),
        MeaningView::Complex(subs) => subs_text(subs),
    }
}

/// The senses as text, numbered from 1, each followed by a line break.
pub open spec fn meanings_text(ms: Seq<MeaningView>) -> Seq<char>
    decreases ms.len(),
{
    if ms.len() == 0 {
        Seq::empty()
    } else {
        meanings_text(ms.drop_last()) + decimal(ms.len()) + ") "@ + meaning_text(ms.last()) + "\n"@
    }
}

/// A definition as text: the title in bold, a blank line, then the numbered
/// senses; soft hyphens are left out.
pub open spec fn definition_text(d: DefinitionView) -> Seq<char> {
    "\x1b[1m"@ + without_shys(d.title) + "\x1b[m\n\n"@ + meanings_text(d.meanings)
}

/// A letter index as a mathematical integer.
pub open spec fn nat_of(letter: Option<usize>) -> Option<nat> {
    match letter {
        Some(k) => Some(k as nat),
        None => None,
    }
}

impl SimpleMeaning {
    /// Appends this sense as text to `out`, `indent` tabs deep, lettered
    /// when `letter` is given.
    pub fn render_into(&self, out: &mut String, indent: usize, letter: Option<usize>)
        ensures
            final(out)@ == old(out)@ + simple_text(self@, indent as nat, nat_of(letter)),
    {
        let ghost start = out@;
        push_tabs(out, indent);
        if let Some(k) = letter {
            push_letter_label(out, k);
            out.append(") ");
        }
        write_without_shys(out, self.text.as_str());
        let ghost before_block = out@;
        if let Some(examples) = &self.examples {
            if examples.len() == 1 {
                out.append("\n\t\x1b[1mBeispiel\x1b[m");
            } else {
                out.append("\n\t\x1b[1mBeispiele\x1b[m");
            }
            let ghost heading = out@;
            let mut i: usize = 0;
            while i < examples.len()
                invariant
                    i <= examples.len(),
                    out@ == heading + examples_text(examples.deep_view().take(i as int)),
                decreases examples.len() - i,
            {
                assert(examples.deep_view().take(i + 1).drop_last() =~= examples.deep_view().take(
                    i as int,
                ));
                out.append("\n\t - ");
                write_without_shys(out, examples[i].as_str());
                i = i + 1;
            }
            assert(examples.deep_view().take(examples.len() as int) =~= examples.deep_view());
        }
        assert(out@ =~= start + simple_text(self@, indent as nat, nat_of(letter)));
    }
}

} // verus!

verus! {

impl Meaning {
    /// Appends this sense as text to `out`.
    pub fn render_into(&self, out: &mut String)
        ensures
            final(out)@ == old(out)@ + meaning_text(self@),
    {
        match self {
            Meaning::Simple(s) => s.render_into(out, 0, None),
            Meaning::Complex(subs) => {
                let ghost start = out@;
                let ghost views = subs@.map_values(|s: SimpleMeaning| s@);
                let mut i: usize = 0;
                while i < subs.len()
                    invariant
                        i <= subs.len(),
                        views == subs@.map_values(|s: SimpleMeaning| s@),
                        out@ == start + subs_text(views.take(i as int)),
                    decreases subs.len() - i,
                {
                    assert(views.take(i + 1).drop_last() =~= views.take(i as int));
                    subs[i].render_into(out, 1, Some(i));
                    out.append("\n");
                    i = i + 1;
                }
                assert(views.take(subs.len() as int) =~= views);
            },
        }
    }
}

impl Definition {
    /// A definition with the given title and senses. A definition without
    /// senses, or with a split sense without sub-senses, is a programming
    /// error.
    pub fn new(title: String, meanings: Vec<Meaning>) -> (r: Definition)
        requires
            meanings@.len() > 0,
            forall|i: int| 0 <= i < meanings@.len() ==> (#[trigger] meanings@[i])@.wf(),
        ensures
            r@ == (DefinitionView { title: title@, meanings: meanings@.map_values(|m: Meaning| m@) }),
    {
        Definition { title, meanings }
    }

    /// The title, normalized.
    pub fn title(&self) -> (r: &str)
        ensures
            r@ == self@.title,
    {
        self.title.as_str()
    }

    /// The senses, in order; there is at least one.
    pub fn meanings(&self) -> (r: &Vec<Meaning>)
        ensures
            r@.map_values(|m: Meaning| m@) == self@.meanings,
            r@.len() > 0,
    {
        proof {
            use_type_invariant(self);
        }
        &self.meanings
    }

    /// Appends this definition as text to `out`.
    pub fn render_into(&self, out: &mut String)
        ensures
            final(out)@ == old(out)@ + definition_text(self@),
    {
        let ghost start = out@;
        let ghost views = self@.meanings;
        out.append("\x1b[1m");
        write_without_shys(out, self.title.as_str());
        out.append("\x1b[m\n\n");
        let ghost head = out@;
        let mut i: usize = 0;
        while i < self.meanings.len()
            invariant
                i <= self.meanings.len(),
                views == self@.meanings,
                views == self.meanings@.map_values(|m: Meaning| m@),
                out@ == head + meanings_text(views.take(i as int)),
            decreases self.meanings.len() - i,
        {
            assert(views.take(i + 1).drop_last() =~= views.take(i as int));
            push_decimal(out, i + 1);
            out.append(") ");
            self.meanings[i].render_into(out);
            out.append("\n");
            i = i + 1;
        }
        assert(views.take(self.meanings.len() as int) =~= views);
        assert(out@ =~= start + definition_text(self@));
    }

    /// This definition as text: the title in bold, a blank line, then the
    /// senses numbered from 1.
    pub fn render(&self) -> (r: String)
        ensures
            r@ == definition_text(self@),
            shy_free(r@),
    {
        proof {
            lemma_definition_text_shy_free(self@);
        }
        let mut out = String::new();
        self.render_into(&mut out);
        out
    }
}

} // verus!

verus! {

/// What the fixed queries find within a key/value block: the text fragments
/// of its key node, and those of its value node.
pub struct TupleSource {
    pub key: Option<Vec<String>>,
    pub val: Option<Vec<String>>,
}

/// The mathematical value of a [`TupleSource`].
pub ghost struct TupleSourceView {
    pub key: Option<Seq<Seq<char>>>,
    pub val: Option<Seq<Seq<char>>>,
}

impl View for TupleSource {
    type V = TupleSourceView;

    open spec fn view(&self) -> TupleSourceView {
        TupleSourceView { key: self.key.deep_view(), val: self.val.deep_view() }
    }
}

/// A key/value attribute block, such as a usage-domain label: its key,
/// normalized, and the raw text fragments of its value, which are
/// normalized when rendered.
pub struct Tuple {
    pub key: String,
    pub val: Vec<String>,
}

/// The key/value block read from what was found within its node: the key,
/// normalized, and the value's fragments as found.
pub open spec fn tuple_of(t: TupleSourceView) -> Result<(Seq<char>, Seq<Seq<char>>), ParseError> {
    match t.key {
        None => Err(ParseError::MissingKey),
        Some(k) => match t.val {
            None => Err(ParseError::MissingValue),
            Some(v) => Ok((normalized(k, true), v)),
        },
    }
}

/// A key/value block as text: the key, a line break, then the value; soft
/// hyphens are left out.
pub open spec fn tuple_text(key: Seq<char>, val: Seq<Seq<char>>) -> Seq<char> {
    without_shys(key) + "\n"@ + normalized(val, true)
}

impl Tuple {
    /// Reads a key/value block from what was found within its node.
    pub fn from_source(t: TupleSource) -> (r: Result<Tuple, ParseError>)
        ensures
            match r {
                Ok(v) => tuple_of(t@) == Ok::<(Seq<char>, Seq<Seq<char>>), ParseError>(
                    (v.key@, v.val.deep_view()),
                ),
                Err(e) => tuple_of(t@) == Err::<(Seq<char>, Seq<Seq<char>>), ParseError>(e),
            },
    {
        let key = match &t.key {
            Some(k) => normalize(k, true),
            None => {
                return Err(ParseError::MissingKey);
            },
        };
        match t.val {
            Some(val) => Ok(Tuple { key, val }),
            None => Err(ParseError::MissingValue),
        }
    }

    /// This block as text: the key, a line break, then the value.
    pub fn render(&self) -> (r: String)
        ensures
            r@ == tuple_text(self.key@, self.val.deep_view()),
            shy_free(r@),
    {
        proof {
            reveal_strlit("\n");
            lemma_without_shys_free(self.key@);
            lemma_normalized_shy_free(self.val.deep_view());
            lemma_concat_shy_free(without_shys(self.key@), "\n"@);
            lemma_concat_shy_free(without_shys(self.key@) + "\n"@, normalized(self.val.deep_view(), true));
        }
        let mut out = String::new();
        write_without_shys(&mut out, self.key.as_str());
        out.append("\n");
        write_text_trimmed(&mut out, true, &self.val);
        out
    }
}

} // verus!

verus! {

proof fn lemma_tabs_shy_free(n: nat)
    ensures
        shy_free(tabs(n)),
    decreases n,
{
    if n > 0 {
        lemma_tabs_shy_free((n - 1) as nat);
    }
}

proof fn lemma_decimal_shy_free(n: nat)
    ensures
        shy_free(decimal(n)),
    decreases n,
{
    if n >= 10 {
        lemma_decimal_shy_free(n / 10);
    }
}

proof fn lemma_letter_label_shy_free(k: nat)
    ensures
        shy_free(letter_label(k)),
    decreases k,
{
    if k >= 26 {
        lemma_letter_label_shy_free((k / 26 - 1) as nat);
    }
}

proof fn lemma_examples_text_shy_free(ex: Seq<Seq<char>>)
    ensures
        shy_free(examples_text(ex)),
    decreases ex.len(),
{
    if ex.len() > 0 {
        lemma_examples_text_shy_free(ex.drop_last());
        reveal_strlit("\n\t - ");
        lemma_without_shys_free(ex.last());
        lemma_concat_shy_free(examples_text(ex.drop_last()), "\n\t - "@);
        lemma_concat_shy_free(examples_text(ex.drop_last()) + "\n\t - "@, without_shys(ex.last()));
    }
}

proof fn lemma_simple_text_shy_free(m: SimpleMeaningView, indent: nat, letter: Option<nat>)
    ensures
        shy_free(simple_text(m, indent, letter)),
{
    reveal_strlit(") ");
    reveal_strlit("\n\t\x1b[1mBeispiel\x1b[m");
    reveal_strlit("\n\t\x1b[1mBeispiele\x1b[m");
    lemma_tabs_shy_free(indent);
    let label = match letter {
        Some(k) => letter_label(k) + ") "@,
        None => Seq::empty(),
    };
    if let Some(k) = letter {
        lemma_letter_label_shy_free(k);
        lemma_concat_shy_free(letter_label(k), ") "@);
    }
    let block = match m.examples {
        Some(ex) => examples_heading(ex.len()) + examples_text(ex),
        None => Seq::empty(),
    };
    if let Some(ex) = m.examples {
        lemma_examples_text_shy_free(ex);
        lemma_concat_shy_free(examples_heading(ex.len()), examples_text(ex));
    }
    lemma_without_shys_free(m.text);
    lemma_concat_shy_free(tabs(indent), label);
    lemma_concat_shy_free(tabs(indent) + label, without_shys(m.text));
    lemma_concat_shy_free(tabs(indent) + label + without_shys(m.text), block);
}

proof fn lemma_subs_text_shy_free(subs: Seq<SimpleMeaningView>)
    ensures
        shy_free(subs_text(subs)),
    decreases subs.len(),
{
    if subs.len() > 0 {
        reveal_strlit("\n");
        let line = simple_text(subs.last(), 1, Some((subs.len() - 1) as nat));
        lemma_subs_text_shy_free(subs.drop_last());
        lemma_simple_text_shy_free(subs.last(), 1, Some((subs.len() - 1) as nat));
        lemma_concat_shy_free(subs_text(subs.drop_last()), line);
        lemma_concat_shy_free(subs_text(subs.drop_last()) + line, "\n"@);
    }
}

proof fn lemma_meanings_text_shy_free(ms: Seq<MeaningView>)
    ensures
        shy_free(meanings_text(ms)),
    decreases ms.len(),
{
    if ms.len() > 0 {
        reveal_strlit(") ");
        reveal_strlit("\n");
        let prev = meanings_text(ms.drop_last());
        let body = meaning_text(ms.last());
        lemma_meanings_text_shy_free(ms.drop_last());
        lemma_decimal_shy_free(ms.len());
        match ms.last() {
            MeaningView::Simple(s) => lemma_simple_text_shy_free(s, 0, None),
            MeaningView::Complex(subs) => lemma_subs_text_shy_free(subs),
        }
        lemma_concat_shy_free(prev, decimal(ms.len()));
        lemma_concat_shy_free(prev + decimal(ms.len()), ") "@);
        lemma_concat_shy_free(prev + decimal(ms.len()) + ") "@, body);
        lemma_concat_shy_free(prev + decimal(ms.len()) + ") "@ + body, "\n"@);
    }
}

/// The text of a definition never holds a soft hyphen.
pub proof fn lemma_definition_text_shy_free(d: DefinitionView)
    ensures
        shy_free(definition_text(d)),
{
    reveal_strlit("\x1b[1m");
    reveal_strlit("\x1b[m\n\n");
    lemma_without_shys_free(d.title);
    lemma_meanings_text_shy_free(d.meanings);
    lemma_concat_shy_free("\x1b[1m"@, without_shys(d.title));
    lemma_concat_shy_free("\x1b[1m"@ + without_shys(d.title), "\x1b[m\n\n"@);
    lemma_concat_shy_free("\x1b[1m"@ + without_shys(d.title) + "\x1b[m\n\n"@, meanings_text(d.meanings));
}

} // verus!
