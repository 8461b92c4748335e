use doc_printer::node::{DocNode, DocNodeDef, DocNodeKind, Location, NamespaceDef};
use doc_printer::order::{name_before, rank_of, sorted_order};
use doc_printer::style::{
    write_painted, write_painted_range, write_style_off, write_style_on, Style,
};
use doc_printer::text::{
    chars_of, find_line_feed, write_decimal, write_indent, write_joined,
};

fn decimal_of(n: usize) -> String {
    let mut out = String::new();
    write_decimal(&mut out, n);
    out
}

fn letters(s: &str) -> Vec<char> {
    s.chars().collect()
}

fn named(kind: DocNodeKind, name: &str) -> DocNode {
    let def = match kind {
        DocNodeKind::ModuleDoc => DocNodeDef::ModuleDoc,
        DocNodeKind::Import => DocNodeDef::Import,
        _ => DocNodeDef::Namespace(NamespaceDef { elements: Vec::new() }),
    };
    DocNode {
        name: String::from(name),
        location: Location { filename: String::new(), line: 1, col: 1 },
        description: None,
        def,
    }
}

#[test]
fn decimal_digits() {
    assert_eq!(decimal_of(0), "0");
    assert_eq!(decimal_of(7), "7");
    assert_eq!(decimal_of(9), "9");
    assert_eq!(decimal_of(10), "10");
    assert_eq!(decimal_of(11), "11");
    assert_eq!(decimal_of(99), "99");
    assert_eq!(decimal_of(100), "100");
    assert_eq!(decimal_of(1234567890), "1234567890");
    assert_eq!(decimal_of(usize::MAX), format!("{}", usize::MAX));
}

#[test]
fn decimal_agrees_with_std() {
    let mut n: usize = 1;
    for _ in 0..19 {
        assert_eq!(decimal_of(n), format!("{}", n));
        assert_eq!(decimal_of(n - 1), format!("{}", n - 1));
        assert_eq!(decimal_of(n + 3), format!("{}", n + 3));
        n = n.saturating_mul(10);
    }
}

#[test]
fn decimal_appends() {
    let mut out = String::from("line ");
    write_decimal(&mut out, 42);
    write_decimal(&mut out, 0);
    assert_eq!(out, "line 420");
}

#[test]
fn indentation_is_two_spaces_a_unit() {
    let mut out = String::from("x");
    write_indent(&mut out, 0);
    assert_eq!(out, "x");
    write_indent(&mut out, 1);
    assert_eq!(out, "x  ");
    write_indent(&mut out, 3);
    assert_eq!(out, "x        ");
}

#[test]
fn joined_items() {
    let mut out = String::new();
    write_joined(&mut out, &Vec::new(), ", ");
    assert_eq!(out, "");
    write_joined(&mut out, &vec![String::from("a")], ", ");
    assert_eq!(out, "a");
    let mut out = String::from("<");
    write_joined(&mut out, &vec![String::from("a"), String::new(), String::from("c")], ", ");
    assert_eq!(out, "<a, , c");
}

#[test]
fn characters_of_a_text() {
    assert_eq!(chars_of(""), Vec::<char>::new());
    assert_eq!(chars_of("a\u{e9}\u{1f600}z"), vec!['a', '\u{e9}', '\u{1f600}', 'z']);
}

#[test]
fn line_feeds_are_found() {
    let chars = letters("ab\ncd\n\nx");
    assert_eq!(find_line_feed(&chars, 0), 2);
    assert_eq!(find_line_feed(&chars, 2), 2);
    assert_eq!(find_line_feed(&chars, 3), 5);
    assert_eq!(find_line_feed(&chars, 6), 6);
    assert_eq!(find_line_feed(&chars, 7), 8);
    assert_eq!(find_line_feed(&chars, 8), 8);
    assert_eq!(find_line_feed(&Vec::new(), 0), 0);
}

#[test]
fn names_in_the_dictionary() {
    assert!(name_before(&letters(""), &letters("a")));
    assert!(!name_before(&letters(""), &letters("")));
    assert!(!name_before(&letters("a"), &letters("")));
    assert!(name_before(&letters("a"), &letters("b")));
    assert!(!name_before(&letters("b"), &letters("a")));
    assert!(!name_before(&letters("same"), &letters("same")));
    assert!(name_before(&letters("ab"), &letters("abc")));
    assert!(!name_before(&letters("abc"), &letters("ab")));
    assert!(name_before(&letters("Z"), &letters("a")));
    assert!(name_before(&letters("abd"), &letters("b")));
    assert!(name_before(&letters("z"), &letters("\u{e9}")));
}

#[test]
fn names_agree_with_the_order_of_strings() {
    let names = ["", "a", "A", "ab", "b", "\u{e9}", "z\u{1f600}", "zz", "10", "9"];
    for a in names {
        for b in names {
            assert_eq!(name_before(&letters(a), &letters(b)), a < b);
        }
    }
}

#[test]
fn ranks_of_the_kinds() {
    let kinds = [
        DocNodeKind::ModuleDoc,
        DocNodeKind::Function,
        DocNodeKind::Variable,
        DocNodeKind::Class,
        DocNodeKind::Enum,
        DocNodeKind::Interface,
        DocNodeKind::TypeAlias,
        DocNodeKind::Namespace,
        DocNodeKind::Import,
    ];
    let mut rank = 0;
    for kind in kinds {
        assert_eq!(rank_of(kind), rank);
        rank += 1;
    }
}

#[test]
fn order_of_siblings() {
    assert_eq!(sorted_order(&[]), Vec::<usize>::new());
    let nodes = vec![
        named(DocNodeKind::Import, "a"),
        named(DocNodeKind::Namespace, "b"),
        named(DocNodeKind::Namespace, "a"),
        named(DocNodeKind::ModuleDoc, "z"),
        named(DocNodeKind::Namespace, "b"),
        named(DocNodeKind::Namespace, ""),
    ];
    assert_eq!(sorted_order(&nodes), vec![3, 5, 2, 1, 4, 0]);
}

#[test]
fn order_of_sorted_and_reversed_siblings() {
    let up = vec![
        named(DocNodeKind::Namespace, "a"),
        named(DocNodeKind::Namespace, "b"),
        named(DocNodeKind::Namespace, "c"),
    ];
    assert_eq!(sorted_order(&up), vec![0, 1, 2]);
    let down = vec![
        named(DocNodeKind::Namespace, "c"),
        named(DocNodeKind::Namespace, "b"),
        named(DocNodeKind::Namespace, "a"),
    ];
    assert_eq!(sorted_order(&down), vec![2, 1, 0]);
    let same = vec![
        named(DocNodeKind::Namespace, "x"),
        named(DocNodeKind::Namespace, "x"),
        named(DocNodeKind::Namespace, "x"),
    ];
    assert_eq!(sorted_order(&same), vec![0, 1, 2]);
}

#[test]
fn sequences_of_the_styles() {
    let mut out = String::new();
    write_style_on(&mut out, Style::Keyword);
    write_style_on(&mut out, Style::Name);
    write_style_on(&mut out, Style::Location);
    write_style_on(&mut out, Style::Description);
    write_style_off(&mut out);
    assert_eq!(out, "\u{1b}[35m\u{1b}[1m\u{1b}[2;3m\u{1b}[90m\u{1b}[0m");
}

#[test]
fn painted_texts() {
    let mut out = String::new();
    write_painted(&mut out, Style::Keyword, "class", false);
    assert_eq!(out, "class");
    write_painted(&mut out, Style::Keyword, "class", true);
    assert_eq!(out, "class\u{1b}[35mclass\u{1b}[0m");
    let mut out = String::new();
    write_painted(&mut out, Style::Name, "", true);
    assert_eq!(out, "\u{1b}[1m\u{1b}[0m");
}

#[test]
fn painted_ranges() {
    let chars = letters("hello world");
    let mut out = String::new();
    write_painted_range(&mut out, Style::Description, &chars, 6, 11, false);
    assert_eq!(out, "world");
    write_painted_range(&mut out, Style::Description, &chars, 0, 5, true);
    assert_eq!(out, "world\u{1b}[90mhello\u{1b}[0m");
    write_painted_range(&mut out, Style::Description, &chars, 3, 3, false);
    assert_eq!(out, "world\u{1b}[90mhello\u{1b}[0m");
}
