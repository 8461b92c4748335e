//! Character sequences and the writers that append them to a `String`.
//!
//! Every writer in this crate has the same shape: it takes the output as
//! `&mut String` and promises that the new contents are the old contents
//! followed by a text that a spec function names.

use vstd::prelude::*;

verus! {

/// `String::push` of the standard library: the string afterwards is the string
/// before with `c` as one more character at its end. Assumed, not proved.
pub assume_specification[ String::push ](s: &mut String, c: char)
    ensures
        final(s)@ == old(s)@.push(c),
;

/// The characters of `s`, in order.
pub fn chars_of(s: &str) -> (v: Vec<char>)
    ensures
        v@ == s@,
{
    let mut v: Vec<char> = Vec::new();
    for c in it: s.chars()
        invariant
            it.seq() == s@,
            v@ == s@.take(it.index()),
    {
        v.push(c);
    }
    v
}

/// One unit of indentation is two spaces.
pub open spec fn indent_text(depth: nat) -> Seq<char> {
    Seq::new(2 * depth, |i: int| ' ')
}

/// Appends `depth` units of indentation.
pub fn write_indent(w: &mut String, depth: usize)
    ensures
        final(w)@ == old(w)@ + indent_text(depth as nat),
{
    let mut i: usize = 0;
    while i < depth
        invariant
            i <= depth,
            w@ == old(w)@ + indent_text(i as nat),
        decreases depth - i,
    {
        w.push(' ');
        w.push(' ');
        i = i + 1;
    }
}

/// The parts in order with `sep` between each two neighbours.
pub open spec fn join(parts: Seq<Seq<char>>, sep: Seq<char>) -> Seq<char>
    decreases parts.len(),
{
    if parts.len() == 0 {
        Seq::empty()
    } else if parts.len() == 1 {
        parts[0]
    } else {
        join(parts.drop_last(), sep) + sep + parts.last()
    }
}

/// Appends the items with `sep` between each two neighbours.
pub fn write_joined(w: &mut String, items: &Vec<String>, sep: &str)
    ensures
        final(w)@ == old(w)@ + join(items.deep_view(), sep@),
{
    let ghost parts = items.deep_view();
    let mut i: usize = 0;
    while i < items.len()
        invariant
            i <= items.len(),
            parts == items.deep_view(),
            w@ == old(w)@ + join(parts.take(i as int), sep@),
        decreases items.len() - i,
    {
        if i > 0 {
            w.append(sep);
        }
        w.append(items[i].as_str());
        proof {
            let next = parts.take(i + 1);
            assert(next.drop_last() == parts.take(i as int));
            assert(next.last() == items@[i as int]@);
        }
        i = i + 1;
    }
    proof {
        assert(parts.take(items.len() as int) == parts);
    }
}

/// The character of a decimal digit.
pub open spec fn digit_char(d: nat) -> char {
    if d == 0 {
        '0'
    } else if d == 1 {
        '1'
    } else if d == 2 {
        '2'
    } else if d == 3 {
        '3'
    } else if d == 4 {
        '4'
    } else if d == 5 {
        '5'
    } else if d == 6 {
        '6'
    } else if d == 7 {
        '7'
    } else if d == 8 {
        '8'
    } else {
        '9'
    }
}

/// `n` in decimal notation: no sign, no leading zero, `0` for zero.
pub open spec fn decimal(n: nat) -> Seq<char>
    decreases n,
{
    if n < 10 {
        seq![digit_char(n)]
    } else {
        decimal(n / 10).push(digit_char(n % 10))
    }
}

fn digit_of(d: usize) -> (c: char)
    requires
        d < 10,
    ensures
        c == digit_char(d as nat),
{
    if d == 0 {
        '0'
    } else if d == 1 {
        '1'
    } else if d == 2 {
        '2'
    } else if d == 3 {
        '3'
    } else if d == 4 {
        '4'
    } else if d == 5 {
        '5'
    } else if d == 6 {
        '6'
    } else if d == 7 {
        '7'
    } else if d == 8 {
        '8'
    } else {
        '9'
    }
}

/// Appends `n` in decimal notation.
pub fn write_decimal(w: &mut String, n: usize)
    ensures
        final(w)@ == old(w)@ + decimal(n as nat),
{
    // The digits come out lowest first; `low` holds them in that order.
    let mut low: Vec<char> = Vec::new();
    let mut rest: usize = n;
    while rest >= 10
        invariant
            decimal(n as nat) == decimal(rest as nat) + low@.reverse(),
        decreases rest,
    {
        let c = digit_of(rest % 10);
        proof {
            assert(low@.push(c).reverse() == seq![c] + low@.reverse());
        }
        low.push(c);
        rest = rest / 10;
    }
    w.push(digit_of(rest));
    let mut i: usize = low.len();
    while i > 0
        invariant
            i <= low.len(),
            w@ == old(w)@ + decimal(rest as nat) + low@.reverse().take(low.len() - i),
        decreases i,
    {
        i = i - 1;
        w.push(low[i]);
        proof {
            let r = low@.reverse();
            assert(r.take(low.len() - i) == r.take(low.len() - i - 1).push(low@[i as int]));
        }
    }
    proof {
        assert(low@.reverse().take(low.len() as int) == low@.reverse());
    }
}

/// Where the first line feed of `s` stands, or `s.len()` where it has none.
pub open spec fn first_line_feed(s: Seq<char>) -> int
    decreases s.len(),
{
    if s.len() == 0 || s[0] == '\n' {
        0
    } else {
        1 + first_line_feed(s.drop_first())
    }
}

/// A line without the carriage return that stood before its line feed.
pub open spec fn without_return(line: Seq<char>) -> Seq<char> {
    if line.len() > 0 && line.last() == '\r' {
        line.drop_last()
    } else {
        line
    }
}

/// The lines of `s`. A line ends with a line feed, or with a carriage return
/// and a line feed; neither belongs to the line. The last line may end with
/// the text instead, and then keeps a carriage return at its end. A text that
/// ends with a line feed has no empty line behind it.
pub open spec fn lines(s: Seq<char>) -> Seq<Seq<char>>
    decreases s.len(),
{
    if s.len() == 0 {
        Seq::empty()
    } else {
        let feed = first_line_feed(s);
        if 0 <= feed < s.len() {
            seq![without_return(s.take(feed))] + lines(s.skip(feed + 1))
        } else {
            seq![s]
        }
    }
}

/// The first line feed is the first: no character before it is one, and a
/// line feed stands there unless the text has none.
pub proof fn lemma_first_line_feed(s: Seq<char>)
    ensures
        0 <= first_line_feed(s) <= s.len(),
        first_line_feed(s) < s.len() ==> s[first_line_feed(s)] == '\n',
        forall|i: int| 0 <= i < first_line_feed(s) ==> s[i] != '\n',
    decreases s.len(),
{
    if !(s.len() == 0 || s[0] == '\n') {
        let rest = s.drop_first();
        lemma_first_line_feed(rest);
        assert forall|i: int| 0 <= i < first_line_feed(s) implies s[i] != '\n' by {
            if i > 0 {
                assert(s[i] == rest[i - 1]);
            }
        }
    }
}

/// The place of the first line feed at or behind `from`, or the length of
/// the text where none follows.
pub fn find_line_feed(chars: &Vec<char>, from: usize) -> (at: usize)
    requires
        from <= chars.len(),
    ensures
        from <= at <= chars.len(),
        at < chars.len() ==> chars@[at as int] == '\n',
        forall|i: int| from <= i < at ==> chars@[i] != '\n',
        at - from == first_line_feed(chars@.skip(from as int)),
{
    let mut at: usize = from;
    while at < chars.len() && chars[at] != '\n'
        invariant
            from <= at <= chars.len(),
            forall|i: int| from <= i < at ==> chars@[i] != '\n',
            first_line_feed(chars@.skip(from as int)) == at - from + first_line_feed(
                chars@.skip(at as int),
            ),
        decreases chars.len() - at,
    {
        proof {
            assert(chars@.skip(at as int).drop_first() == chars@.skip(at + 1));
        }
        at = at + 1;
    }
    at
}

/// The texts that `f` makes of the items, one after the other.
pub open spec fn blocks<A>(items: Seq<A>, f: spec_fn(A) -> Seq<char>) -> Seq<char> {
    items.map_values(f).flatten()
}

/// One more item adds its text at the end.
pub proof fn lemma_blocks_push<A>(items: Seq<A>, f: spec_fn(A) -> Seq<char>, item: A)
    ensures
        blocks(items.push(item), f) == blocks(items, f) + f(item),
{
    assert(items.push(item).map_values(f) == items.map_values(f).push(f(item)));
    items.map_values(f).lemma_flatten_push(f(item));
}

/// The first `i + 1` items give what the first `i` give and then the text
/// of item `i`.
pub proof fn lemma_blocks_next<A>(items: Seq<A>, f: spec_fn(A) -> Seq<char>, i: int)
    requires
        0 <= i < items.len(),
    ensures
        blocks(items.take(i + 1), f) == blocks(items.take(i), f) + f(items[i]),
{
    assert(items.take(i + 1) == items.take(i).push(items[i]));
    lemma_blocks_push(items.take(i), f, items[i]);
}

/// No items, no text.
pub proof fn lemma_blocks_empty<A>(f: spec_fn(A) -> Seq<char>)
    ensures
        blocks(Seq::<A>::empty(), f) == Seq::<char>::empty(),
{
    assert(Seq::<A>::empty().map_values(f) == Seq::<Seq<char>>::empty());
}

/// The text of a first item stands before the texts of the rest.
pub proof fn lemma_blocks_first<A>(first: A, rest: Seq<A>, f: spec_fn(A) -> Seq<char>)
    ensures
        blocks(seq![first] + rest, f) == f(first) + blocks(rest, f),
{
    let head = seq![first];
    assert((head + rest).map_values(f) == head.map_values(f) + rest.map_values(f));
    vstd::seq_lib::lemma_flatten_concat(head.map_values(f), rest.map_values(f));
    assert(head.map_values(f) == seq![f(first)]);
    seq![f(first)].lemma_flatten_singleton();
}

/// Of the first `i + 1` items those that pass `shown` give what those of
/// the first `i` give, and then the text of item `i` if it passes.
pub proof fn lemma_filtered_blocks_next<A>(
    items: Seq<A>,
    shown: spec_fn(A) -> bool,
    f: spec_fn(A) -> Seq<char>,
    i: int,
)
    requires
        0 <= i < items.len(),
    ensures
        blocks(items.take(i + 1).filter(shown), f) == blocks(items.take(i).filter(shown), f) + (
        if shown(items[i]) {
            f(items[i])
        } else {
            Seq::<char>::empty()
        }),
{
    assert(items.take(i + 1) == items.take(i).push(items[i]));
    items.take(i).lemma_filter_push(items[i], shown);
    if shown(items[i]) {
        lemma_blocks_push(items.take(i).filter(shown), f, items[i]);
    }
}

/// Where no item has been looked at, none is shown.
pub proof fn lemma_filtered_blocks_empty<A>(
    items: Seq<A>,
    shown: spec_fn(A) -> bool,
    f: spec_fn(A) -> Seq<char>,
)
    ensures
        blocks(items.take(0).filter(shown), f) == Seq::<char>::empty(),
{
    reveal(Seq::filter);
    assert(items.take(0).filter(shown) == Seq::<A>::empty());
    lemma_blocks_empty(f);
}

/// Where a line starts at `pos`, the lines from there on are that line
/// and the lines behind it: the line runs to `end`, and the next starts
/// at `next`.
pub proof fn lemma_lines_next(
    text: Seq<char>,
    pos: int,
    feed: int,
    f: spec_fn(Seq<char>) -> Seq<char>,
)
    requires
        0 <= pos < text.len(),
        feed - pos == first_line_feed(text.skip(pos)),
    ensures
        pos <= feed <= text.len(),
        ({
            let ended = feed < text.len();
            let end = if ended && feed > pos && text[feed - 1] == '\r' {
                feed - 1
            } else {
                feed
            };
            let next = if ended {
                feed + 1
            } else {
                feed
            };
            blocks(lines(text.skip(pos)), f) == f(text.subrange(pos, end)) + blocks(
                lines(text.skip(next)),
                f,
            )
        }),
{
    let rest = text.skip(pos);
    let k = feed - pos;
    lemma_first_line_feed(rest);
    if feed < text.len() {
        let line = without_return(rest.take(k));
        let end = if feed > pos && text[feed - 1] == '\r' {
            feed - 1
        } else {
            feed
        };
        assert(rest.take(k) == text.subrange(pos, feed));
        assert(line == text.subrange(pos, end));
        assert(rest.skip(k + 1) == text.skip(feed + 1));
        lemma_blocks_first(line, lines(rest.skip(k + 1)), f);
    } else {
        assert(rest == text.subrange(pos, feed));
        assert(lines(rest) == seq![rest] + Seq::<Seq<char>>::empty());
        lemma_blocks_first(rest, Seq::<Seq<char>>::empty(), f);
        assert(lines(text.skip(feed)) == Seq::<Seq<char>>::empty());
    }
}

} // verus!
