//! Text layout pieces shared by the renderers: tabs, decimal numbers and
//! letter labels.
use vstd::prelude::*;

verus! {

/// `n` tab characters.
pub open spec fn tabs(n: nat) -> Seq<char>
    decreases n,
{
    if n == 0 {
        Seq::empty()
    } else {
        tabs((n - 1) as nat).push('\t')
    }
}

/// The decimal digit of `d`, for `d < 10`.
pub open spec fn digit(d: nat) -> char {
    ((48 + d) as u32) as char
}

/// The decimal representation of `n`, without leading zeros.
pub open spec fn decimal(n: nat) -> Seq<char>
    decreases n,
{
    if n < 10 {
        seq![digit(n)]
    } else {
        decimal(n / 10).push(digit(n % 10))
    }
}

/// The lower-case letter `k` places after `a`, for `k < 26`.
pub open spec fn letter(k: nat) -> char {
    ((97 + k) as u32) as char
}

/// The label of the sub-sense at index `k`: `a` to `z`, then `aa`, `ab`, and
/// so on, as in spreadsheet column names.
pub open spec fn letter_label(k: nat) -> Seq<char>
    decreases k,
{
    if k < 26 {
        seq![letter(k)]
    } else {
        letter_label((k / 26 - 1) as nat).push(letter(k % 26))
    }
}

/// Relies on `String::push`: appends one character.
#[verifier::external_body]
pub(crate) fn push_char(s: &mut String, c: char)
    ensures
        final(s)@ == old(s)@.push(c),
{
    s.push(c)
}

/// Appends `n` tabs to `out`.
pub fn push_tabs(out: &mut String, n: usize)
    ensures
        final(out)@ == old(out)@ + tabs(n as nat),
{
    let ghost start = out@;
    let mut i: usize = 0;
    while i < n
        invariant
            i <= n,
            out@ == start + tabs(i as nat),
        decreases n - i,
    {
        push_char(out, '\t');
        i = i + 1;
    }
}

/// Appends the decimal representation of `n` to `out`.
pub fn push_decimal(out: &mut String, n: usize)
    ensures
        final(out)@ == old(out)@ + decimal(n as nat),
    decreases n,
{
    if n >= 10 {
        push_decimal(out, n / 10);
    }
    let d = (n % 10) as u8;
    push_char(out, (48u8 + d) as char);
}

/// Appends the label of the sub-sense at index `k` to `out`.
pub fn push_letter_label(out: &mut String, k: usize)
    ensures
        final(out)@ == old(out)@ + letter_label(k as nat),
    decreases k,
{
    if k >= 26 {
        push_letter_label(out, k / 26 - 1);
    }
    let d = (k % 26) as u8;
    push_char(out, (97u8 + d) as char);
}

} // verus!
