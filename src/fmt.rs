//! Text normalization: soft-hyphen stripping and boundary trimming of
//! fragment sequences gathered from a markup subtree.
use vstd::prelude::*;

use crate::render::push_char;

verus! {

/// The soft hyphen, a hint for an optional line break.
pub const SOFT_HYPHEN: char = '\u{ad}';

/// The characters with the Unicode `White_Space` property.
pub open spec fn is_white(c: char) -> bool {
    ||| '\u{9}' <= c <= '\u{d}'
    ||| c == ' '
    ||| c == '\u{85}'
    ||| c == '\u{a0}'
    ||| c == '\u{1680}'
    ||| '\u{2000}' <= c <= '\u{200a}'
    ||| c == '\u{2028}'
    ||| c == '\u{2029}'
    ||| c == '\u{202f}'
    ||| c == '\u{205f}'
    ||| c == '\u{3000}'
}

/// `s` with every soft hyphen removed.
pub open spec fn without_shys(s: Seq<char>) -> Seq<char> {
    s.filter(|c: char| c != SOFT_HYPHEN)
}

/// Appends `s` to `out` without its soft hyphens.
pub fn write_without_shys(out: &mut String, s: &str)
    ensures
        final(out)@ == old(out)@ + without_shys(s@),
{
    let ghost start = out@;
    for c in it: s.chars()
        invariant
            it.seq() == s@,
            out@ == start + without_shys(s@.take(it.index() as int)),
    {
        proof {
            let k = it.index() as int;
            assert(s@.take(k + 1).drop_last() == s@.take(k));
            reveal(Seq::filter);
        }
        if c != SOFT_HYPHEN {
            push_char(out, c);
        }
    }
    assert(s@.take(s@.len() as int) == s@);
}

/// `s` without its leading whitespace.
pub open spec fn trim_start_spec(s: Seq<char>) -> Seq<char>
    decreases s.len(),
{
    if s.len() > 0 && is_white(s[0]) {
        trim_start_spec(s.drop_first())
    } else {
        s
    }
}

/// `s` without its trailing whitespace.
pub open spec fn trim_end_spec(s: Seq<char>) -> Seq<char>
    decreases s.len(),
{
    if s.len() > 0 && is_white(s.last()) {
        trim_end_spec(s.drop_last())
    } else {
        s
    }
}

/// One fragment as it is written out: without soft hyphens when `strip` is set.
pub open spec fn piece(s: Seq<char>, strip: bool) -> Seq<char> {
    if strip {
        without_shys(s)
    } else {
        s
    }
}

/// The concatenation of the pieces of `fs[lo..hi]`.
pub open spec fn pieces(fs: Seq<Seq<char>>, lo: int, hi: int, strip: bool) -> Seq<char>
    decreases hi - lo,
{
    if hi <= lo {
        Seq::empty()
    } else {
        pieces(fs, lo, hi - 1, strip) + piece(fs[hi - 1], strip)
    }
}

/// The display string of a fragment sequence: the fragments concatenated,
/// with the leading whitespace of the first and the trailing whitespace of
/// the last one removed, interior whitespace kept verbatim, and soft hyphens
/// removed when `strip` is set.
pub open spec fn normalized(fs: Seq<Seq<char>>, strip: bool) -> Seq<char> {
    let n = fs.len() as int;
    if n == 0 {
        Seq::empty()
    } else if n == 1 {
        piece(trim_end_spec(trim_start_spec(fs[0])), strip)
    } else {
        piece(trim_start_spec(fs[0]), strip) + pieces(fs, 1, n - 1, strip) + piece(
            trim_end_spec(fs[n - 1]),
            strip,
        )
    }
}

/// Relies on `str::trim_start`: removes the leading characters that have the
/// Unicode `White_Space` property.
#[verifier::external_body]
fn trim_start(s: &str) -> (r: &str)
    ensures
        r@ == trim_start_spec(s@),
{
    s.trim_start()
}

/// Relies on `str::trim_end`: removes the trailing characters that have the
/// Unicode `White_Space` property.
#[verifier::external_body]
fn trim_end(s: &str) -> (r: &str)
    ensures
        r@ == trim_end_spec(s@),
{
    s.trim_end()
}

/// `s` without leading and trailing whitespace.
pub fn trim(s: &str) -> (r: &str)
    ensures
        r@ == trim_end_spec(trim_start_spec(s@)),
{
    trim_end(trim_start(s))
}

/// Appends one fragment to `out`, without soft hyphens when `strip` is set.
fn write_piece(out: &mut String, strip: bool, s: &str)
    ensures
        final(out)@ == old(out)@ + piece(s@, strip),
{
    if strip {
        write_without_shys(out, s);
    } else {
        out.append(s);
    }
}

/// Appends the display string of `fragments` to `out`.
pub fn write_text_trimmed(out: &mut String, skip_shys: bool, fragments: &Vec<String>)
    ensures
        final(out)@ == old(out)@ + normalized(fragments.deep_view(), skip_shys),
{
    let ghost fs = fragments.deep_view();
    let ghost start = out@;
    let n = fragments.len();
    if n == 0 {
        assert(out@ == start + Seq::<char>::empty());
        return;
    }
    let first = trim_start(fragments[0].as_str());
    if n == 1 {
        write_piece(out, skip_shys, trim_end(first));
        return;
    }
    write_piece(out, skip_shys, first);
    let mut i: usize = 1;
    while i < n - 1
        invariant
            1 <= i <= n - 1,
            n == fragments.len(),
            fs == fragments.deep_view(),
            out@ == start + piece(trim_start_spec(fs[0]), skip_shys) + pieces(
                fs,
                1,
                i as int,
                skip_shys,
            ),
        decreases n - i,
    {
        write_piece(out, skip_shys, fragments[i].as_str());
        i = i + 1;
    }
    write_piece(out, skip_shys, trim_end(fragments[n - 1].as_str()));
}

/// The display string of `fragments`.
pub fn normalize(fragments: &Vec<String>, strip_soft_hyphens: bool) -> (r: String)
    ensures
        r@ == normalized(fragments.deep_view(), strip_soft_hyphens),
{
    let mut r = String::new();
    write_text_trimmed(&mut r, strip_soft_hyphens, fragments);
    r
}

} // verus!

verus! {

/// No character of `s` is a soft hyphen.
pub open spec fn shy_free(s: Seq<char>) -> bool {
    forall|i: int| 0 <= i < s.len() ==> s[i] != SOFT_HYPHEN
}

/// `s` begins or ends with whitespace.
pub open spec fn has_white_edge(s: Seq<char>) -> bool {
    s.len() > 0 && (is_white(s[0]) || is_white(s.last()))
}

pub proof fn lemma_without_shys_free(s: Seq<char>)
    ensures
        shy_free(without_shys(s)),
        shy_free(s) ==> without_shys(s) == s,
    decreases s.len(),
{
    reveal(Seq::filter);
    if s.len() > 0 {
        lemma_without_shys_free(s.drop_last());
        assert(s.drop_last().push(s.last()) == s);
    }
}

proof fn lemma_trim_start_free(s: Seq<char>)
    requires
        shy_free(s),
    ensures
        shy_free(trim_start_spec(s)),
    decreases s.len(),
{
    if s.len() > 0 && is_white(s[0]) {
        lemma_trim_start_free(s.drop_first());
    }
}

proof fn lemma_trim_end_free(s: Seq<char>)
    requires
        shy_free(s),
    ensures
        shy_free(trim_end_spec(s)),
    decreases s.len(),
{
    if s.len() > 0 && is_white(s.last()) {
        lemma_trim_end_free(s.drop_last());
    }
}

proof fn lemma_piece_free(s: Seq<char>, strip: bool)
    requires
        shy_free(s),
    ensures
        piece(s, strip) == s,
{
    lemma_without_shys_free(s);
}

proof fn lemma_pieces_free(fs: Seq<Seq<char>>, lo: int, hi: int, strip: bool)
    requires
        0 <= lo,
        hi <= fs.len(),
        forall|i: int| 0 <= i < fs.len() ==> shy_free(#[trigger] fs[i]),
    ensures
        shy_free(pieces(fs, lo, hi, strip)),
    decreases hi - lo,
{
    if hi > lo {
        lemma_pieces_free(fs, lo, hi - 1, strip);
        lemma_piece_free(fs[hi - 1], strip);
    }
}

/// A concatenation of soft-hyphen-free sequences is soft-hyphen free.
pub proof fn lemma_concat_shy_free(a: Seq<char>, b: Seq<char>)
    requires
        shy_free(a),
        shy_free(b),
    ensures
        shy_free(a + b),
{
    assert forall|i: int| 0 <= i < (a + b).len() implies (a + b)[i] != SOFT_HYPHEN by {
        if i >= a.len() {
            assert((a + b)[i] == b[i - a.len()]);
        }
    }
}

/// With soft-hyphen stripping, a display string holds no soft hyphen.
pub proof fn lemma_normalized_shy_free(fs: Seq<Seq<char>>)
    ensures
        shy_free(normalized(fs, true)),
{
    let n = fs.len() as int;
    if n == 1 {
        lemma_without_shys_free(trim_end_spec(trim_start_spec(fs[0])));
    } else if n > 1 {
        lemma_without_shys_free(trim_start_spec(fs[0]));
        lemma_without_shys_free(trim_end_spec(fs[n - 1]));
        lemma_pieces_stripped(fs, 1, n - 1);
        lemma_concat_shy_free(piece(trim_start_spec(fs[0]), true), pieces(fs, 1, n - 1, true));
        lemma_concat_shy_free(
            piece(trim_start_spec(fs[0]), true) + pieces(fs, 1, n - 1, true),
            piece(trim_end_spec(fs[n - 1]), true),
        );
    }
}

proof fn lemma_pieces_stripped(fs: Seq<Seq<char>>, lo: int, hi: int)
    requires
        0 <= lo,
        hi <= fs.len(),
    ensures
        shy_free(pieces(fs, lo, hi, true)),
    decreases hi - lo,
{
    if hi > lo {
        lemma_pieces_stripped(fs, lo, hi - 1);
        lemma_without_shys_free(fs[hi - 1]);
        lemma_concat_shy_free(pieces(fs, lo, hi - 1, true), piece(fs[hi - 1], true));
    }
}

/// Normalizing a fragment sequence that holds no soft hyphen a second time,
/// as a single fragment, changes nothing, provided the first pass left no
/// whitespace at either end. (It can leave some: when the first fragment is
/// all whitespace, the leading whitespace of the second one stays.)
pub proof fn lemma_normalize_idempotent(x: Seq<Seq<char>>, strip: bool)
    requires
        forall|i: int| 0 <= i < x.len() ==> shy_free(#[trigger] x[i]),
        !has_white_edge(normalized(x, strip)),
    ensures
        normalized(seq![normalized(x, strip)], strip) == normalized(x, strip),
{
    let y = normalized(x, strip);
    let n = x.len() as int;
    if n == 1 {
        lemma_trim_start_free(x[0]);
        lemma_trim_end_free(trim_start_spec(x[0]));
        lemma_piece_free(trim_end_spec(trim_start_spec(x[0])), strip);
    } else if n > 1 {
        lemma_trim_start_free(x[0]);
        lemma_piece_free(trim_start_spec(x[0]), strip);
        lemma_trim_end_free(x[n - 1]);
        lemma_piece_free(trim_end_spec(x[n - 1]), strip);
        lemma_pieces_free(x, 1, n - 1, strip);
    }
    assert(shy_free(y));
    assert(trim_start_spec(y) == y);
    assert(trim_end_spec(y) == y);
    lemma_piece_free(y, strip);
}

} // verus!
