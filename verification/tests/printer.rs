use doc_printer::node::{
    Accessibility, ClassConstructorDef, ClassDef, ClassMethodDef, ClassPropertyDef, DocNode,
    DocNodeDef, DocNodeKind, EnumDef, EnumMemberDef, FunctionDef, IndexSignatureDef,
    InterfaceDef, InterfaceMethodDef, InterfacePropertyDef, Location, NamespaceDef, ParamDef,
    TypeAliasDef, VarDeclKind, VariableDef,
};
use doc_printer::printer::DocPrinter;

fn text(s: &str) -> String {
    String::from(s)
}

fn texts(items: &[&str]) -> Vec<String> {
    let mut out = Vec::new();
    for item in items {
        out.push(text(item));
    }
    out
}

fn at(filename: &str, line: usize, col: usize) -> Location {
    Location { filename: text(filename), line, col }
}

fn node(name: &str, def: DocNodeDef) -> DocNode {
    DocNode { name: text(name), location: at("mod.ts", 1, 1), description: None, def }
}

fn described(name: &str, description: &str, def: DocNodeDef) -> DocNode {
    DocNode {
        name: text(name),
        location: at("mod.ts", 1, 1),
        description: Some(text(description)),
        def,
    }
}

fn param(name: &str, ts_type: Option<&str>, has_default: bool) -> ParamDef {
    ParamDef { name: text(name), ts_type: ts_type.map(text), has_default }
}

fn function() -> FunctionDef {
    FunctionDef {
        is_async: false,
        is_generator: false,
        type_params: Vec::new(),
        params: Vec::new(),
        return_type: None,
        decorators: Vec::new(),
    }
}

fn class() -> ClassDef {
    ClassDef {
        is_abstract: false,
        type_params: Vec::new(),
        extends: None,
        super_type_params: Vec::new(),
        implements: Vec::new(),
        decorators: Vec::new(),
        constructors: Vec::new(),
        properties: Vec::new(),
        index_signatures: Vec::new(),
        methods: Vec::new(),
    }
}

fn interface() -> InterfaceDef {
    InterfaceDef {
        type_params: Vec::new(),
        extends: Vec::new(),
        properties: Vec::new(),
        methods: Vec::new(),
        index_signatures: Vec::new(),
    }
}

fn method(name: &str, accessibility: Accessibility) -> ClassMethodDef {
    ClassMethodDef { name: text(name), description: None, accessibility, function_def: function() }
}

fn property(name: &str, ts_type: Option<&str>, accessibility: Accessibility) -> ClassPropertyDef {
    ClassPropertyDef {
        name: text(name),
        description: None,
        ts_type: ts_type.map(text),
        accessibility,
        decorators: Vec::new(),
    }
}

fn signature(node: &DocNode, indent: usize, color: bool) -> String {
    let nodes: Vec<DocNode> = Vec::new();
    let printer = DocPrinter::new(&nodes, color, false);
    let mut out = String::new();
    printer.format_signature(&mut out, node, indent);
    out
}

fn render(nodes: &[DocNode], color: bool, private: bool) -> String {
    DocPrinter::new(nodes, color, private).to_string()
}

/// Takes out what stands from an escape character to the next `m`.
fn without_escapes(s: &str) -> String {
    let mut out = String::new();
    let mut inside = false;
    for c in s.chars() {
        if c == '\u{1b}' {
            inside = true;
        } else if inside {
            if c == 'm' {
                inside = false;
            }
        } else {
            out.push(c);
        }
    }
    out
}

#[test]
fn function_signature_is_complete() {
    let mut def = function();
    def.is_async = true;
    def.is_generator = true;
    def.type_params = texts(&["T"]);
    def.params.push(param("x", Some("T"), false));
    def.return_type = Some(text("T"));
    let n = node("Name", DocNodeDef::Function(def));
    assert_eq!(signature(&n, 0, false), "async function* Name<T>(x: T): T\n");
}

#[test]
fn function_signature_plain() {
    let n = node("run", DocNodeDef::Function(function()));
    assert_eq!(signature(&n, 0, false), "function run()\n");
}

#[test]
fn function_signature_several_params() {
    let mut def = function();
    def.type_params = texts(&["A", "B"]);
    def.params.push(param("a", Some("A"), false));
    def.params.push(param("b", None, true));
    def.params.push(param("c", Some("B"), true));
    let n = node("f", DocNodeDef::Function(def));
    assert_eq!(signature(&n, 1, false), "  function f<A, B>(a: A, b?, c?: B)\n");
}

#[test]
fn function_signature_in_color() {
    let mut def = function();
    def.is_async = true;
    let n = node("f", DocNodeDef::Function(def));
    assert_eq!(
        signature(&n, 0, true),
        "\u{1b}[35masync \u{1b}[0m\u{1b}[35mfunction\u{1b}[0m \u{1b}[1mf\u{1b}[0m()\n"
    );
}

#[test]
fn variable_signatures() {
    let c = node(
        "a",
        DocNodeDef::Variable(VariableDef { kind: VarDeclKind::Const, ts_type: Some(text("number")) }),
    );
    let l = node("b", DocNodeDef::Variable(VariableDef { kind: VarDeclKind::Let, ts_type: None }));
    let v = node("c", DocNodeDef::Variable(VariableDef { kind: VarDeclKind::Var, ts_type: None }));
    assert_eq!(signature(&c, 0, false), "const a: number\n");
    assert_eq!(signature(&l, 0, false), "let b\n");
    assert_eq!(signature(&v, 2, false), "    var c\n");
}

#[test]
fn class_signature_without_type_params_has_no_brackets() {
    let n = node("Bare", DocNodeDef::Class(class()));
    assert_eq!(signature(&n, 0, false), "class Bare\n");
}

#[test]
fn class_signature_full() {
    let mut def = class();
    def.is_abstract = true;
    def.type_params = texts(&["T"]);
    def.extends = Some(text("Base"));
    def.super_type_params = texts(&["T", "string"]);
    def.implements = texts(&["A", "B"]);
    def.decorators = texts(&["sealed", "tagged(1)"]);
    let n = node("Box", DocNodeDef::Class(def));
    assert_eq!(
        signature(&n, 1, false),
        "  @sealed\n  @tagged(1)\n  abstract class Box<T> extends Base<T, string> implements A, B\n"
    );
}

#[test]
fn class_type_arguments_need_a_parent() {
    let mut def = class();
    def.super_type_params = texts(&["T"]);
    let n = node("Lone", DocNodeDef::Class(def));
    assert_eq!(signature(&n, 0, false), "class Lone\n");
}

#[test]
fn class_signature_in_color() {
    let mut def = class();
    def.extends = Some(text("Base"));
    let n = node("Box", DocNodeDef::Class(def));
    assert_eq!(
        signature(&n, 0, true),
        "\u{1b}[35mclass\u{1b}[0m \u{1b}[1mBox\u{1b}[0m \u{1b}[35mextends\u{1b}[0m Base\n"
    );
}

#[test]
fn enum_and_namespace_signatures() {
    let e = node("Color", DocNodeDef::Enum(EnumDef { members: Vec::new() }));
    let n = node("util", DocNodeDef::Namespace(NamespaceDef { elements: Vec::new() }));
    assert_eq!(signature(&e, 0, false), "enum Color\n");
    assert_eq!(signature(&n, 0, false), "namespace util\n");
}

#[test]
fn interface_signatures() {
    let bare = node("Shape", DocNodeDef::Interface(interface()));
    assert_eq!(signature(&bare, 0, false), "interface Shape\n");
    let mut def = interface();
    def.type_params = texts(&["K", "V"]);
    def.extends = texts(&["A", "B"]);
    let full = node("Dict", DocNodeDef::Interface(def));
    assert_eq!(signature(&full, 0, false), "interface Dict<K, V> extends A, B\n");
}

#[test]
fn type_alias_signatures() {
    let bare = node(
        "Id",
        DocNodeDef::TypeAlias(TypeAliasDef { type_params: Vec::new(), ts_type: text("string") }),
    );
    let generic = node(
        "Pair",
        DocNodeDef::TypeAlias(TypeAliasDef { type_params: texts(&["A", "B"]), ts_type: text("[A, B]") }),
    );
    assert_eq!(signature(&bare, 0, false), "type Id = string\n");
    assert_eq!(signature(&generic, 0, false), "type Pair<A, B> = [A, B]\n");
}

#[test]
fn import_and_module_doc_have_no_signature() {
    let i = node("dep", DocNodeDef::Import);
    let m = node("", DocNodeDef::ModuleDoc);
    assert_eq!(signature(&i, 0, false), "");
    assert_eq!(signature(&m, 0, false), "");
    assert_eq!(signature(&i, 0, true), "");
}

#[test]
fn kinds_and_ranks() {
    let nodes: Vec<DocNode> = Vec::new();
    let printer = DocPrinter::new(&nodes, false, false);
    assert_eq!(printer.kind_order(&DocNodeKind::ModuleDoc), 0);
    assert_eq!(printer.kind_order(&DocNodeKind::Function), 1);
    assert_eq!(printer.kind_order(&DocNodeKind::Variable), 2);
    assert_eq!(printer.kind_order(&DocNodeKind::Class), 3);
    assert_eq!(printer.kind_order(&DocNodeKind::Enum), 4);
    assert_eq!(printer.kind_order(&DocNodeKind::Interface), 5);
    assert_eq!(printer.kind_order(&DocNodeKind::TypeAlias), 6);
    assert_eq!(printer.kind_order(&DocNodeKind::Namespace), 7);
    assert_eq!(printer.kind_order(&DocNodeKind::Import), 8);
    assert_eq!(node("f", DocNodeDef::Function(function())).kind(), DocNodeKind::Function);
    assert_eq!(node("c", DocNodeDef::Class(class())).kind(), DocNodeKind::Class);
    assert_eq!(node("i", DocNodeDef::Import).kind(), DocNodeKind::Import);
}

#[test]
fn empty_list_gives_empty_report() {
    assert_eq!(render(&[], false, false), "");
    assert_eq!(render(&[], true, true), "");
}

#[test]
fn siblings_come_by_rank_then_name() {
    let nodes = vec![
        node("B", DocNodeDef::Class(class())),
        node("a", DocNodeDef::Function(function())),
        node("A", DocNodeDef::Class(class())),
    ];
    assert_eq!(
        render(&nodes, false, false),
        "Defined in mod.ts:1:1\n\nfunction a()\n\n\
         Defined in mod.ts:1:1\n\nclass A\n\n\n\
         Defined in mod.ts:1:1\n\nclass B\n\n\n"
    );
}

#[test]
fn all_nine_kinds_in_order() {
    let nodes = vec![
        node("i", DocNodeDef::Import),
        node("n", DocNodeDef::Namespace(NamespaceDef { elements: Vec::new() })),
        node("t", DocNodeDef::TypeAlias(TypeAliasDef { type_params: Vec::new(), ts_type: text("X") })),
        node("f", DocNodeDef::Interface(interface())),
        node("e", DocNodeDef::Enum(EnumDef { members: Vec::new() })),
        node("c", DocNodeDef::Class(class())),
        node("v", DocNodeDef::Variable(VariableDef { kind: VarDeclKind::Let, ts_type: None })),
        node("u", DocNodeDef::Function(function())),
        node("m", DocNodeDef::ModuleDoc),
    ];
    let loc = "Defined in mod.ts:1:1\n\n";
    let expected = [
        "\n",
        "function u()\n\n",
        "let v\n\n",
        "class c\n\n\n",
        "enum e\n\n\n",
        "interface f\n\n\n",
        "type t = X\n\n",
        "namespace n\n\n\n",
        "\n",
    ];
    let mut want = String::new();
    for part in expected {
        want.push_str(loc);
        want.push_str(part);
    }
    assert_eq!(render(&nodes, false, false), want);
}

#[test]
fn names_compare_by_code_point() {
    let nodes = vec![
        node("b", DocNodeDef::Function(function())),
        node("ab", DocNodeDef::Function(function())),
        node("a", DocNodeDef::Function(function())),
        node("Z", DocNodeDef::Function(function())),
        node("\u{e9}", DocNodeDef::Function(function())),
    ];
    let out = render(&nodes, false, false);
    let order: Vec<&str> = out.lines().filter(|l| l.starts_with("function")).collect();
    assert_eq!(
        order,
        vec!["function Z()", "function a()", "function ab()", "function b()", "function \u{e9}()"]
    );
}

#[test]
fn equal_siblings_keep_their_order() {
    let mut first = function();
    first.params.push(param("x", None, false));
    let mut second = function();
    second.params.push(param("y", None, false));
    let nodes = vec![
        node("same", DocNodeDef::Function(first)),
        node("same", DocNodeDef::Function(second)),
    ];
    assert_eq!(
        render(&nodes, false, false),
        "Defined in mod.ts:1:1\n\nfunction same(x)\n\nDefined in mod.ts:1:1\n\nfunction same(y)\n\n"
    );
}

#[test]
fn location_is_written_in_decimal() {
    let mut n = node("f", DocNodeDef::Function(function()));
    n.location = at("src/deep/file.ts", 120, 7);
    let zero = DocNode { location: at("z.ts", 0, 10), ..node("g", DocNodeDef::Function(function())) };
    assert_eq!(
        render(&[n, zero], false, false),
        "Defined in src/deep/file.ts:120:7\n\nfunction f()\n\nDefined in z.ts:0:10\n\nfunction g()\n\n"
    );
}

#[test]
fn location_of_the_largest_numbers() {
    let mut n = node("f", DocNodeDef::Function(function()));
    n.location = at("m.ts", usize::MAX, 1000000);
    let want = format!("Defined in m.ts:{}:1000000\n\nfunction f()\n\n", usize::MAX);
    assert_eq!(render(&[n], false, false), want);
}

#[test]
fn description_lines_are_indented() {
    let n = described("f", "first\nsecond\n\nfourth", DocNodeDef::Function(function()));
    assert_eq!(
        render(&[n], false, false),
        "Defined in mod.ts:1:1\n\nfunction f()\n  first\n  second\n  \n  fourth\n\n"
    );
}

#[test]
fn description_line_ends() {
    let crlf = described("f", "one\r\ntwo\r\n", DocNodeDef::Function(function()));
    assert_eq!(
        render(&[crlf], false, false),
        "Defined in mod.ts:1:1\n\nfunction f()\n  one\n  two\n\n"
    );
    let bare = described("f", "one\rtwo\r", DocNodeDef::Function(function()));
    assert_eq!(
        render(&[bare], false, false),
        "Defined in mod.ts:1:1\n\nfunction f()\n  one\rtwo\r\n\n"
    );
    let empty = described("f", "", DocNodeDef::Function(function()));
    assert_eq!(render(&[empty], false, false), "Defined in mod.ts:1:1\n\nfunction f()\n\n");
    let feed = described("f", "\n", DocNodeDef::Function(function()));
    assert_eq!(render(&[feed], false, false), "Defined in mod.ts:1:1\n\nfunction f()\n  \n\n");
}

#[test]
fn description_matches_the_lines_of_std() {
    for doc in ["a\nb", "a\n", "\n\n", "a\r\n\r\nb\r", "\r\n", "x\r\r\ny", "", "\r", "a\n\rb"] {
        let n = described("f", doc, DocNodeDef::Function(function()));
        let mut want = text("Defined in mod.ts:1:1\n\nfunction f()\n");
        for line in doc.lines() {
            want.push_str("  ");
            want.push_str(line);
            want.push('\n');
        }
        want.push('\n');
        assert_eq!(render(&[n], false, false), want);
    }
}

#[test]
fn report_in_color() {
    let n = described("f", "doc", DocNodeDef::Function(function()));
    assert_eq!(
        render(&[n], true, false),
        "\u{1b}[2;3mDefined in mod.ts:1:1\n\n\u{1b}[0m\
         \u{1b}[35mfunction\u{1b}[0m \u{1b}[1mf\u{1b}[0m()\n\
         \u{20}\u{20}\u{1b}[90mdoc\u{1b}[0m\n\n"
    );
}

fn sample_tree() -> Vec<DocNode> {
    let mut c = class();
    c.is_abstract = true;
    c.type_params = texts(&["T"]);
    c.extends = Some(text("Base"));
    c.implements = texts(&["I"]);
    c.decorators = texts(&["sealed"]);
    c.constructors.push(ClassConstructorDef {
        description: Some(text("Makes one.")),
        params: vec![param("size", Some("number"), true)],
    });
    let mut p = property("count", Some("number"), Accessibility::Protected);
    p.decorators = texts(&["observed"]);
    p.description = Some(text("How many."));
    c.properties.push(p);
    c.properties.push(property("secret", None, Accessibility::Private));
    c.index_signatures.push(IndexSignatureDef {
        params: vec![param("key", Some("string"), false)],
        ts_type: Some(text("unknown")),
    });
    let mut m = method("get", Accessibility::Public);
    m.function_def.is_async = true;
    m.function_def.return_type = Some(text("Promise<T>"));
    m.function_def.decorators = texts(&["memo"]);
    m.description = Some(text("Reads.\nSlowly."));
    c.methods.push(m);
    c.methods.push(method("hide", Accessibility::Private));
    let mut i = interface();
    i.properties.push(InterfacePropertyDef {
        name: text("x"),
        description: Some(text("Across.")),
        ts_type: Some(text("number")),
    });
    i.methods.push(InterfaceMethodDef {
        name: text("move"),
        description: None,
        type_params: texts(&["D"]),
        params: vec![param("by", Some("D"), false)],
        return_type: Some(text("void")),
    });
    i.index_signatures.push(IndexSignatureDef { params: vec![param("k", None, false)], ts_type: None });
    let e = EnumDef {
        members: vec![
            EnumMemberDef { name: text("Red"), description: Some(text("Warm.")) },
            EnumMemberDef { name: text("Blue"), description: None },
        ],
    };
    let ns = NamespaceDef {
        elements: vec![
            described("Inner", "A nested class.", DocNodeDef::Class({
                let mut inner = class();
                inner.methods.push(method("unseen", Accessibility::Public));
                inner.constructors.push(ClassConstructorDef { description: None, params: Vec::new() });
                inner
            })),
            node("helper", DocNodeDef::Function(function())),
        ],
    };
    vec![
        described("util", "Helpers.", DocNodeDef::Namespace(ns)),
        node("Shape", DocNodeDef::Interface(i)),
        node("Color", DocNodeDef::Enum(e)),
        described("Box", "A box.", DocNodeDef::Class(c)),
        node("dep", DocNodeDef::Import),
    ]
}

#[test]
fn whole_report() {
    let want = "\
Defined in mod.ts:1:1\n\n\
@sealed\n\
abstract class Box<T> extends Base implements I\n\
\u{20}\u{20}A box.\n\
\n\
\u{20}\u{20}constructor(size?: number)\n\
\u{20}\u{20}\u{20}\u{20}Makes one.\n\
\u{20}\u{20}@observed\n\
\u{20}\u{20}protected count: number\n\
\u{20}\u{20}\u{20}\u{20}How many.\n\
\u{20}\u{20}[key: string]: unknown\n\
\u{20}\u{20}@memo\n\
\u{20}\u{20}async get(): Promise<T>\n\
\u{20}\u{20}\u{20}\u{20}Reads.\n\
\u{20}\u{20}\u{20}\u{20}Slowly.\n\
\n\
Defined in mod.ts:1:1\n\n\
enum Color\n\
\n\
\u{20}\u{20}Red\n\
\u{20}\u{20}\u{20}\u{20}Warm.\n\
\u{20}\u{20}Blue\n\
\n\
Defined in mod.ts:1:1\n\n\
interface Shape\n\
\n\
\u{20}\u{20}x: number\n\
\u{20}\u{20}\u{20}\u{20}Across.\n\
\u{20}\u{20}move<D>(by: D): void\n\
\u{20}\u{20}[k]\n\
\n\
Defined in mod.ts:1:1\n\n\
namespace util\n\
\u{20}\u{20}Helpers.\n\
\n\
\u{20}\u{20}function helper()\n\
\u{20}\u{20}class Inner\n\
\u{20}\u{20}\u{20}\u{20}A nested class.\n\
\n\
Defined in mod.ts:1:1\n\n\
\n";
    assert_eq!(render(&sample_tree(), false, false), want);
}

#[test]
fn private_members_are_shown_on_request() {
    let mut c = class();
    c.methods.push(method("foo", Accessibility::Public));
    c.methods.push(method("bar", Accessibility::Private));
    let nodes = vec![node("C", DocNodeDef::Class(c))];
    assert_eq!(
        render(&nodes, false, false),
        "Defined in mod.ts:1:1\n\nclass C\n\n  foo()\n\n"
    );
    assert_eq!(
        render(&nodes, false, true),
        "Defined in mod.ts:1:1\n\nclass C\n\n  foo()\n  private bar()\n\n"
    );
}

#[test]
fn private_properties_leave_nothing_behind() {
    let mut c = class();
    let mut hidden = property("key", Some("string"), Accessibility::Private);
    hidden.decorators = texts(&["noted"]);
    hidden.description = Some(text("Kept back."));
    c.properties.push(hidden);
    c.properties.push(property("open", None, Accessibility::Public));
    c.properties.push(property("mine", None, Accessibility::Protected));
    let nodes = vec![node("C", DocNodeDef::Class(c))];
    assert_eq!(
        render(&nodes, false, false),
        "Defined in mod.ts:1:1\n\nclass C\n\n  open\n  protected mine\n\n"
    );
    assert_eq!(
        render(&nodes, false, true),
        "Defined in mod.ts:1:1\n\nclass C\n\n  @noted\n  private key: string\n    Kept back.\n  open\n  protected mine\n\n"
    );
}

#[test]
fn absent_accessibility_counts_as_public() {
    assert_eq!(Accessibility::or_public(None), Accessibility::Public);
    assert_eq!(Accessibility::or_public(Some(Accessibility::Private)), Accessibility::Private);
    assert_eq!(Accessibility::or_public(Some(Accessibility::Protected)), Accessibility::Protected);
    assert_eq!(Accessibility::default(), Accessibility::Public);
    let mut c = class();
    c.methods.push(method("m", Accessibility::or_public(None)));
    let nodes = vec![node("C", DocNodeDef::Class(c))];
    assert_eq!(render(&nodes, false, false), "Defined in mod.ts:1:1\n\nclass C\n\n  m()\n\n");
}

#[test]
fn color_only_adds_escape_sequences() {
    let tree = sample_tree();
    for private in [false, true] {
        let plain = render(&tree, false, private);
        let colored = render(&tree, true, private);
        assert_ne!(plain, colored);
        assert!(!plain.contains('\u{1b}'));
        assert_eq!(without_escapes(&colored), plain);
    }
}

#[test]
fn same_tree_same_report() {
    let tree = sample_tree();
    for color in [false, true] {
        for private in [false, true] {
            let printer = DocPrinter::new(&tree, color, private);
            let first = printer.to_string();
            let second = printer.to_string();
            assert_eq!(first, second);
            assert_eq!(first, render(&sample_tree(), color, private));
        }
    }
}

#[test]
fn format_appends_to_what_is_there() {
    let nodes = vec![node("f", DocNodeDef::Function(function()))];
    let printer = DocPrinter::new(&nodes, false, false);
    let mut out = text("before\n");
    printer.format(&mut out);
    assert_eq!(out, "before\nDefined in mod.ts:1:1\n\nfunction f()\n\n");
    printer.format(&mut out);
    assert_eq!(
        out,
        "before\nDefined in mod.ts:1:1\n\nfunction f()\n\nDefined in mod.ts:1:1\n\nfunction f()\n\n"
    );
}

#[test]
fn namespace_shows_elements_without_their_bodies() {
    let mut inner = class();
    inner.constructors.push(ClassConstructorDef { description: None, params: Vec::new() });
    inner.properties.push(property("p", None, Accessibility::Public));
    inner.methods.push(method("m", Accessibility::Public));
    let ns = NamespaceDef { elements: vec![described("Inner", "Nested.", DocNodeDef::Class(inner))] };
    let nodes = vec![node("outer", DocNodeDef::Namespace(ns))];
    let out = render(&nodes, false, true);
    assert_eq!(
        out,
        "Defined in mod.ts:1:1\n\nnamespace outer\n\n  class Inner\n    Nested.\n\n"
    );
    assert!(!out.contains("constructor"));
    assert!(!out.contains("m()"));
}

#[test]
fn namespace_elements_come_in_sibling_order() {
    let ns = NamespaceDef {
        elements: vec![
            node("z", DocNodeDef::Enum(EnumDef { members: Vec::new() })),
            node("b", DocNodeDef::Function(function())),
            node("nested", DocNodeDef::Namespace(NamespaceDef {
                elements: vec![node("deep", DocNodeDef::Function(function()))],
            })),
            node("a", DocNodeDef::Function(function())),
            node("gone", DocNodeDef::Import),
        ],
    };
    let nodes = vec![node("ns", DocNodeDef::Namespace(ns))];
    assert_eq!(
        render(&nodes, false, false),
        "Defined in mod.ts:1:1\n\nnamespace ns\n\n  function a()\n  function b()\n  enum z\n  namespace nested\n\n"
    );
}

#[test]
fn format_with_deeper_indent() {
    let nodes = vec![described("f", "doc", DocNodeDef::Function(function()))];
    let printer = DocPrinter::new(&[], false, false);
    let mut out = String::new();
    printer.format_(&mut out, &nodes, 2);
    assert_eq!(out, "Defined in mod.ts:1:1\n\n    function f()\n      doc\n\n");
}

#[test]
fn order_handed_in_does_not_show() {
    let forward = sample_tree();
    let mut backward = sample_tree();
    backward.reverse();
    let mut rotated = sample_tree();
    rotated.rotate_left(2);
    for color in [false, true] {
        let want = render(&forward, color, true);
        assert_eq!(render(&backward, color, true), want);
        assert_eq!(render(&rotated, color, true), want);
    }
}

#[test]
fn hidden_members_are_as_good_as_absent() {
    let mut with_private = class();
    with_private.properties.push(property("a", None, Accessibility::Private));
    with_private.properties.push(property("b", None, Accessibility::Public));
    with_private.methods.push(method("c", Accessibility::Private));
    with_private.methods.push(method("d", Accessibility::Protected));
    let mut without_private = class();
    without_private.properties.push(property("b", None, Accessibility::Public));
    without_private.methods.push(method("d", Accessibility::Protected));
    let full = vec![node("C", DocNodeDef::Class(with_private))];
    let bare = vec![node("C", DocNodeDef::Class(without_private))];
    assert_eq!(render(&full, false, false), render(&bare, false, true));
    assert_eq!(render(&full, true, false), render(&bare, true, false));
    assert_ne!(render(&full, false, true), render(&bare, false, true));
}

#[test]
fn bodies_of_namespace_elements_do_not_show() {
    let mut full_class = class();
    full_class.type_params = texts(&["T"]);
    full_class.methods.push(method("m", Accessibility::Public));
    let mut bare_class = class();
    bare_class.type_params = texts(&["T"]);
    let full_enum = EnumDef { members: vec![EnumMemberDef { name: text("A"), description: None }] };
    let bare_enum = EnumDef { members: Vec::new() };
    let full = NamespaceDef {
        elements: vec![
            node("K", DocNodeDef::Class(full_class)),
            node("E", DocNodeDef::Enum(full_enum)),
        ],
    };
    let bare = NamespaceDef {
        elements: vec![
            node("K", DocNodeDef::Class(bare_class)),
            node("E", DocNodeDef::Enum(bare_enum)),
        ],
    };
    let with_bodies = vec![node("ns", DocNodeDef::Namespace(full))];
    let without_bodies = vec![node("ns", DocNodeDef::Namespace(bare))];
    assert_eq!(render(&with_bodies, false, true), render(&without_bodies, false, true));
    assert_eq!(
        render(&with_bodies, false, true),
        "Defined in mod.ts:1:1\n\nnamespace ns\n\n  class K<T>\n  enum E\n\n"
    );
}
