//! Terminal styles: which escape sequences wrap a token, and what a text is
//! once its escape sequences are taken out again.

use vstd::prelude::*;

verus! {

/// What a token of the report is, as far as its looks go.
#[derive(Clone, Copy, Debug, PartialEq, Eq, Structural)]
pub enum Style {
    /// `class`, `extends`, `const` and the other words of the language.
    Keyword,
    /// The name that a declaration or a member declares.
    Name,
    /// The line that says where a declaration stands in the source.
    Location,
    /// A line of descriptive text.
    Description,
}

/// The character that starts an escape sequence.
pub open spec fn escape() -> char {
    '\u{1b}'
}

/// The parameters of the "select graphic rendition" sequence of a style:
/// magenta for keywords, bold for names, dim italic for locations, grey for
/// descriptions.
pub open spec fn style_code(style: Style) -> Seq<char> {
    match style {
        Style::Keyword => seq!['3', '5'],
        Style::Name => seq!['1'],
        Style::Location => seq!['2', ';', '3'],
        Style::Description => seq!['9', '0'],
    }
}

/// The sequence that switches a style on.
pub open spec fn style_on(style: Style) -> Seq<char> {
    seq![escape(), '['] + style_code(style) + seq!['m']
}

/// The sequence that switches every style off.
pub open spec fn style_off() -> Seq<char> {
    seq![escape(), '[', '0', 'm']
}

/// `text` in the given style: wrapped in the style's sequences where colour
/// is in use, and as it is where it is not.
pub open spec fn paint(style: Style, text: Seq<char>, color: bool) -> Seq<char> {
    if color {
        style_on(style) + text + style_off()
    } else {
        text
    }
}

/// Appends the sequence that switches `style` on.
pub fn write_style_on(w: &mut String, style: Style)
    ensures
        final(w)@ == old(w)@ + style_on(style),
{
    w.push('\u{1b}');
    w.push('[');
    match style {
        Style::Keyword => {
            w.push('3');
            w.push('5');
        },
        Style::Name => {
            w.push('1');
        },
        Style::Location => {
            w.push('2');
            w.push(';');
            w.push('3');
        },
        Style::Description => {
            w.push('9');
            w.push('0');
        },
    }
    w.push('m');
}

/// Appends the sequence that switches every style off.
pub fn write_style_off(w: &mut String)
    ensures
        final(w)@ == old(w)@ + style_off(),
{
    w.push('\u{1b}');
    w.push('[');
    w.push('0');
    w.push('m');
}

/// Appends `text` in the given style.
pub fn write_painted(w: &mut String, style: Style, text: &str, color: bool)
    ensures
        final(w)@ == old(w)@ + paint(style, text@, color),
{
    if color {
        write_style_on(w, style);
    }
    w.append(text);
    if color {
        write_style_off(w);
    }
}

/// Appends the characters `chars[from..to]` in the given style.
pub fn write_painted_range(
    w: &mut String,
    style: Style,
    chars: &Vec<char>,
    from: usize,
    to: usize,
    color: bool,
)
    requires
        from <= to <= chars.len(),
    ensures
        final(w)@ == old(w)@ + paint(style, chars@.subrange(from as int, to as int), color),
{
    if color {
        write_style_on(w, style);
    }
    let ghost before = w@;
    let mut i: usize = from;
    while i < to
        invariant
            from <= i <= to <= chars.len(),
            w@ == before + chars@.subrange(from as int, i as int),
        decreases to - i,
    {
        w.push(chars[i]);
        proof {
            assert(chars@.subrange(from as int, i + 1) == chars@.subrange(
                from as int,
                i as int,
            ).push(chars@[i as int]));
        }
        i = i + 1;
    }
    if color {
        write_style_off(w);
    }
}

/// Whether a reader that has gone through `s` stands inside an escape
/// sequence. A sequence starts at an escape character and ends with the
/// next `m`.
pub open spec fn in_escape(s: Seq<char>) -> bool
    decreases s.len(),
{
    if s.len() == 0 {
        false
    } else if s.last() == escape() {
        true
    } else {
        in_escape(s.drop_last()) && s.last() != 'm'
    }
}

/// `s` without its escape sequences: the characters of `s` that stand
/// outside every sequence, in order.
pub open spec fn strip_ansi(s: Seq<char>) -> Seq<char>
    decreases s.len(),
{
    if s.len() == 0 {
        Seq::empty()
    } else if s.last() == escape() || in_escape(s.drop_last()) {
        strip_ansi(s.drop_last())
    } else {
        strip_ansi(s.drop_last()).push(s.last())
    }
}

/// No character of `s` is the escape character.
pub open spec fn escape_free(s: Seq<char>) -> bool {
    forall|i: int| 0 <= i < s.len() ==> s[i] != escape()
}

/// `colored` says what `plain` says: where `plain` holds no escape character,
/// it is `colored` without its escape sequences, and `colored` ends outside
/// every sequence.
pub open spec fn same_text(colored: Seq<char>, plain: Seq<char>) -> bool {
    escape_free(plain) ==> strip_ansi(colored) == plain && !in_escape(colored)
}

/// Behind a text that ends outside every sequence, a second text is read as
/// if it stood alone.
pub proof fn lemma_strip_add(a: Seq<char>, b: Seq<char>)
    requires
        !in_escape(a),
    ensures
        strip_ansi(a + b) == strip_ansi(a) + strip_ansi(b),
        in_escape(a + b) == in_escape(b),
    decreases b.len(),
{
    if b.len() == 0 {
        assert(a + b == a);
    } else {
        lemma_strip_add(a, b.drop_last());
        assert((a + b).drop_last() == a + b.drop_last());
        assert((a + b).last() == b.last());
    }
}

/// A text without escape characters has no sequence to lose.
pub proof fn lemma_strip_escape_free(s: Seq<char>)
    requires
        escape_free(s),
    ensures
        strip_ansi(s) == s,
        !in_escape(s),
    decreases s.len(),
{
    if s.len() > 0 {
        lemma_strip_escape_free(s.drop_last());
        assert(s.drop_last().push(s.last()) == s);
    }
}

/// An escape character followed by characters that are neither `m` nor an
/// escape character is an unfinished sequence.
proof fn lemma_strip_open_sequence(body: Seq<char>)
    requires
        forall|i: int| 0 <= i < body.len() ==> body[i] != 'm' && body[i] != escape(),
    ensures
        in_escape(seq![escape()] + body),
        strip_ansi(seq![escape()] + body) == Seq::<char>::empty(),
    decreases body.len(),
{
    let s = seq![escape()] + body;
    if body.len() == 0 {
        assert(s.drop_last() == Seq::<char>::empty());
        assert(strip_ansi(s.drop_last()) == Seq::<char>::empty());
    } else {
        lemma_strip_open_sequence(body.drop_last());
        assert(s.drop_last() == seq![escape()] + body.drop_last());
        assert(s.last() == body.last());
    }
}

/// The sequence that switches a style on is one whole escape sequence.
pub proof fn lemma_strip_style_on(style: Style)
    ensures
        strip_ansi(style_on(style)) == Seq::<char>::empty(),
        !in_escape(style_on(style)),
{
    let body = seq!['['] + style_code(style);
    lemma_strip_open_sequence(body);
    let open = seq![escape()] + body;
    assert(style_on(style) == open.push('m'));
    assert(open.push('m').drop_last() == open);
}

/// The sequence that switches every style off is one whole escape sequence.
pub proof fn lemma_strip_style_off()
    ensures
        strip_ansi(style_off()) == Seq::<char>::empty(),
        !in_escape(style_off()),
{
    let body = seq!['[', '0'];
    lemma_strip_open_sequence(body);
    let open = seq![escape()] + body;
    assert(style_off() == open.push('m'));
    assert(open.push('m').drop_last() == open);
}

/// Any text says what it says.
pub proof fn lemma_same_text_refl(s: Seq<char>)
    ensures
        same_text(s, s),
{
    if escape_free(s) {
        lemma_strip_escape_free(s);
    }
}

/// A painted text says what the bare text says, whatever the style.
pub proof fn lemma_same_text_paint(style: Style, text: Seq<char>, color: bool)
    ensures
        same_text(paint(style, text, color), text),
        same_text(paint(style, text, color), paint(style, text, false)),
{
    if escape_free(text) {
        lemma_strip_escape_free(text);
        if color {
            lemma_strip_style_on(style);
            lemma_strip_style_off();
            lemma_strip_add(style_on(style), text);
            lemma_strip_add(style_on(style) + text, style_off());
        }
    }
}

/// What two texts say one after the other, their coloured forms say one
/// after the other.
pub proof fn lemma_same_text_add(
    col1: Seq<char>,
    bare1: Seq<char>,
    col2: Seq<char>,
    bare2: Seq<char>,
)
    requires
        same_text(col1, bare1),
        same_text(col2, bare2),
    ensures
        same_text(col1 + col2, bare1 + bare2),
{
    if escape_free(bare1 + bare2) {
        assert forall|i: int| 0 <= i < bare1.len() implies bare1[i] != escape() by {
            assert((bare1 + bare2)[i] == bare1[i]);
        }
        assert forall|i: int| 0 <= i < bare2.len() implies bare2[i] != escape() by {
            assert((bare1 + bare2)[bare1.len() + i] == bare2[i]);
        }
        lemma_strip_add(col1, col2);
    }
}

/// What holds of two texts holds of two rows of texts, joined end to end.
pub proof fn lemma_same_text_flatten(cs: Seq<Seq<char>>, ps: Seq<Seq<char>>)
    requires
        cs.len() == ps.len(),
        forall|i: int| 0 <= i < cs.len() ==> same_text(#[trigger] cs[i], ps[i]),
    ensures
        same_text(cs.flatten(), ps.flatten()),
    decreases cs.len(),
{
    if cs.len() == 0 {
        lemma_same_text_refl(Seq::empty());
    } else {
        lemma_same_text_flatten(cs.drop_last(), ps.drop_last());
        assert(cs.drop_last().push(cs.last()) == cs);
        assert(ps.drop_last().push(ps.last()) == ps);
        cs.drop_last().lemma_flatten_push(cs.last());
        ps.drop_last().lemma_flatten_push(ps.last());
        lemma_same_text_add(
            cs.drop_last().flatten(),
            ps.drop_last().flatten(),
            cs.last(),
            ps.last(),
        );
    }
}

} // verus!
