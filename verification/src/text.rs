//! Text: decimal numerals appended to strings, splitting at a
//! separator, reading decimal numerals, and text with float constants
//! kept apart.
use vstd::prelude::*;
use vstd::std_specs::iter::IteratorSpec;
use vstd::string::{StrSliceExecFns, StringExecFns};

verus! {

/// The decimal digit `d` as a character.
pub open spec fn digit_char(d: nat) -> char {
    if d == 0 {
        '0'
    } else if d == 1 {
        '1'
    } else if d == 2 {
        '2'
    } else if d == 3 {
        '3'
    } else if d == 4 {
        '4'
    } else if d == 5 {
        '5'
    } else if d == 6 {
        '6'
    } else if d == 7 {
        '7'
    } else if d == 8 {
        '8'
    } else {
        '9'
    }
}

/// The decimal numeral of `n`, without leading zeros.
pub open spec fn decimal(n: nat) -> Seq<char>
    decreases n,
{
    if n < 10 {
        seq![digit_char(n)]
    } else {
        decimal(n / 10).push(digit_char(n % 10))
    }
}

/// Append the digit `d` to `s`.
fn push_digit(s: &mut String, d: usize)
    requires
        d < 10,
    ensures
        final(s)@ == old(s)@.push(digit_char(d as nat)),
{
    if d == 0 {
        proof { reveal_strlit("0"); }
        s.append("0");
    } else if d == 1 {
        proof { reveal_strlit("1"); }
        s.append("1");
    } else if d == 2 {
        proof { reveal_strlit("2"); }
        s.append("2");
    } else if d == 3 {
        proof { reveal_strlit("3"); }
        s.append("3");
    } else if d == 4 {
        proof { reveal_strlit("4"); }
        s.append("4");
    } else if d == 5 {
        proof { reveal_strlit("5"); }
        s.append("5");
    } else if d == 6 {
        proof { reveal_strlit("6"); }
        s.append("6");
    } else if d == 7 {
        proof { reveal_strlit("7"); }
        s.append("7");
    } else if d == 8 {
        proof { reveal_strlit("8"); }
        s.append("8");
    } else {
        proof { reveal_strlit("9"); }
        s.append("9");
    }
}

/// Append the decimal numeral of `n` to `s`.
pub fn push_decimal(s: &mut String, n: usize)
    ensures
        final(s)@ == old(s)@ + decimal(n as nat),
    decreases n,
{
    if n >= 10 {
        push_decimal(s, n / 10);
    }
    push_digit(s, n % 10);
    proof {
        if n < 10 {
            assert(old(s)@.push(digit_char(n as nat)) =~= old(s)@ + decimal(n as nat));
        } else {
            assert(decimal(n as nat) == decimal((n / 10) as nat).push(digit_char((n % 10) as nat)));
            assert((old(s)@ + decimal((n / 10) as nat)).push(digit_char((n % 10) as nat)) =~= old(s)@
                + decimal(n as nat));
        }
    }
}

/// The decimal numeral of `n`.
pub fn decimal_string(n: usize) -> (r: String)
    ensures
        r@ == decimal(n as nat),
{
    let mut s = String::new();
    push_decimal(&mut s, n);
    proof {
        assert(Seq::<char>::empty() + decimal(n as nat) =~= decimal(n as nat));
    }
    s
}

/// The parts of `s[start..]` between the separators, scanning from `i` on
/// (with no separator between `start` and `i`).
pub open spec fn split_from(s: Seq<char>, sep: char, start: int, i: int) -> Seq<Seq<char>>
    decreases s.len() - i,
{
    if i < 0 || i >= s.len() {
        seq![s.subrange(start, s.len() as int)]
    } else if s[i] == sep {
        seq![s.subrange(start, i)] + split_from(s, sep, i + 1, i + 1)
    } else {
        split_from(s, sep, start, i + 1)
    }
}

/// The parts of `s` between the separators, as many as there are
/// separators and one more.
pub open spec fn split_chars(s: Seq<char>, sep: char) -> Seq<Seq<char>> {
    split_from(s, sep, 0, 0)
}

/// The parts of `s` between the separators `sep`, in order.
pub fn split_str(s: &str, sep: char) -> (r: Vec<String>)
    ensures
        r@.map_values(|p: String| p@) == split_chars(s@, sep),
{
    broadcast use vstd::string::group_string_axioms;

    let n = s.unicode_len();
    let ghost all = s@;
    let mut parts: Vec<String> = Vec::new();
    let mut start: usize = 0;
    let mut i: usize = 0;
    let mut chars = s.chars();
    proof {
        assert(all.skip(0) =~= all);
        assert(parts@.map_values(|p: String| p@) + split_from(all, sep, 0, 0) =~= split_chars(all, sep));
    }
    loop
        invariant
            chars.obeys_prophetic_iter_laws(),
            chars.remaining() == all.skip(i as int),
            all == s@,
            n == all.len(),
            start <= i <= n,
            parts@.map_values(|p: String| p@) + split_from(all, sep, start as int, i as int)
                == split_chars(all, sep),
        ensures
            i == n,
            start <= n,
            parts@.map_values(|p: String| p@) + split_from(all, sep, start as int, n as int)
                == split_chars(all, sep),
        decreases n - i,
    {
        let ghost before = parts@.map_values(|p: String| p@);
        match chars.next() {
            Some(c) => {
                proof {
                    assert(all.skip(i as int)[0] == all[i as int]);
                    assert(all.skip(i as int).drop_first() =~= all.skip(i + 1));
                }
                if c == sep {
                    let part = s.substring_char(start, i).to_owned();
                    parts.push(part);
                    proof {
                        let head = all.subrange(start as int, i as int);
                        assert(split_from(all, sep, start as int, i as int) == seq![head]
                            + split_from(all, sep, i + 1, i + 1));
                        assert(parts@.map_values(|p: String| p@) =~= before.push(head));
                        assert(before.push(head) + split_from(all, sep, i + 1, i + 1) =~= before
                            + (seq![head] + split_from(all, sep, i + 1, i + 1)));
                    }
                    start = i + 1;
                } else {
                    proof {
                        assert(split_from(all, sep, start as int, i as int) == split_from(
                            all,
                            sep,
                            start as int,
                            i + 1,
                        ));
                    }
                }
                i = i + 1;
            },
            None => {
                proof {
                    if i < n {
                        assert(all.skip(i as int).len() > 0);
                    }
                }
                assert(i == n);
                break;
            },
        }
    }
    let last = s.substring_char(start, n).to_owned();
    let ghost before = parts@.map_values(|p: String| p@);
    parts.push(last);
    proof {
        let tail = all.subrange(start as int, n as int);
        assert(split_from(all, sep, start as int, n as int) == seq![tail]);
        assert(parts@.map_values(|p: String| p@) =~= before.push(tail));
        assert(before.push(tail) =~= before + seq![tail]);
    }
    parts
}

/// The value of a numeral of decimal digits.
pub open spec fn digits_value(s: Seq<char>) -> int
    decreases s.len(),
{
    if s.len() == 0 {
        0
    } else {
        10 * digits_value(s.drop_last()) + (s.last() as int - '0' as int)
    }
}

/// All the characters are decimal digits.
pub open spec fn all_digits(s: Seq<char>) -> bool {
    forall|i: int| 0 <= i < s.len() ==> '0' <= #[trigger] s[i] && s[i] <= '9'
}

/// What `str::parse::<usize>` gives: an optional `+` and at least one
/// decimal digit, whose value fits in a `usize`.
pub open spec fn spec_parse_usize(s: Seq<char>) -> Option<usize> {
    let digits = if s.len() > 0 && s[0] == '+' {
        s.drop_first()
    } else {
        s
    };
    if digits.len() > 0 && all_digits(digits) && digits_value(digits) <= usize::MAX {
        Some(digits_value(digits) as usize)
    } else {
        None
    }
}

/// Calls `str::parse::<usize>`: the number an optional `+` and decimal
/// digits spell, where it fits.
#[verifier::external_body]
pub(crate) fn parse_usize(s: &str) -> (r: Option<usize>)
    ensures
        r == spec_parse_usize(s@),
{
    s.parse::<usize>().ok()
}

// =========== //
// float texts //
// =========== //

/// Text with float constants between its pieces: `texts[0]`, then
/// `floats[0]` (the bits of an `f32`, to be written out by whoever shows the
/// text), then `texts[1]`, and so on, ending with the last text.
#[derive(Debug)]
pub struct SourceText {
    texts: Vec<String>,
    floats: Vec<u32>,
}

/// Text with float constants, as a value.
pub struct SourceView {
    pub texts: Seq<Seq<char>>,
    pub floats: Seq<u32>,
}

impl View for SourceText {
    type V = SourceView;

    closed spec fn view(&self) -> SourceView {
        SourceView { texts: self.texts@.map_values(|t: String| t@), floats: self.floats@ }
    }
}

/// No text.
pub open spec fn source_empty() -> SourceView {
    SourceView { texts: seq![Seq::empty()], floats: Seq::empty() }
}

/// The text with `s` appended.
pub open spec fn emit(g: SourceView, s: Seq<char>) -> SourceView {
    SourceView { texts: g.texts.update(g.texts.len() - 1, g.texts.last() + s), ..g }
}

/// The text with a float constant appended.
pub open spec fn emit_float(g: SourceView, bits: u32) -> SourceView {
    SourceView { texts: g.texts.push(Seq::empty()), floats: g.floats.push(bits) }
}

/// The text can be appended to: it ends with a piece of text.
pub open spec fn source_wf(g: SourceView) -> bool {
    g.texts.len() == g.floats.len() + 1
}

impl SourceText {
    /// No text.
    pub fn new() -> (r: SourceText)
        ensures
            r@ == source_empty(),
    {
        let mut texts: Vec<String> = Vec::new();
        texts.push(String::new());
        let r = SourceText { texts, floats: Vec::new() };
        proof {
            assert(r@.texts =~= seq![Seq::<char>::empty()]);
        }
        r
    }

    /// The pieces of text.
    pub fn texts(&self) -> (r: &Vec<String>)
        ensures
            r@.map_values(|t: String| t@) == self@.texts,
    {
        &self.texts
    }

    /// The float constants, as the bits of `f32`s.
    pub fn floats(&self) -> (r: &Vec<u32>)
        ensures
            r@ == self@.floats,
    {
        &self.floats
    }

    /// Append text.
    pub fn push_str(&mut self, s: &str)
        requires
            source_wf(old(self)@),
        ensures
            final(self)@ == emit(old(self)@, s@),
            source_wf(final(self)@),
    {
        let last = self.texts.len() - 1;
        let mut t = String::new();
        std::mem::swap(&mut t, &mut self.texts[last]);
        t.append(s);
        std::mem::swap(&mut t, &mut self.texts[last]);
        proof {
            assert(self@.texts =~= emit(old(self)@, s@).texts);
        }
    }

    /// Append the decimal numeral of `n`.
    pub fn push_decimal(&mut self, n: usize)
        requires
            source_wf(old(self)@),
        ensures
            final(self)@ == emit(old(self)@, decimal(n as nat)),
            source_wf(final(self)@),
    {
        let last = self.texts.len() - 1;
        let mut t = String::new();
        std::mem::swap(&mut t, &mut self.texts[last]);
        push_decimal(&mut t, n);
        std::mem::swap(&mut t, &mut self.texts[last]);
        proof {
            assert(self@.texts =~= emit(old(self)@, decimal(n as nat)).texts);
        }
    }

    /// Append a float constant.
    pub fn push_float(&mut self, bits: u32)
        requires
            source_wf(old(self)@),
        ensures
            final(self)@ == emit_float(old(self)@, bits),
            source_wf(final(self)@),
    {
        self.texts.push(String::new());
        self.floats.push(bits);
        proof {
            assert(self@.texts =~= emit_float(old(self)@, bits).texts);
        }
    }
}

} // verus!
