//! What the report says: the text of every part of it, as a function of the
//! view of the tree and of the two settings of a pass.
//!
//! `color` says whether tokens are wrapped in escape sequences, and
//! `include_private` whether private members of a class are shown. `depth`
//! counts units of indentation.

use crate::node::{
    Accessibility, ClassConstructorDefView, ClassDefView, ClassMethodDefView,
    ClassPropertyDefView, DocNodeDefView, DocNodeView, EnumDefView, EnumMemberDefView,
    FunctionDefView, IndexSignatureDefView, InterfaceDefView, InterfaceMethodDefView,
    InterfacePropertyDefView, LocationView, NamespaceDefView, ParamDefView, TypeAliasDefView,
    VarDeclKind, VariableDefView,
};
use crate::order::{
    display_order, is_display_order, lemma_display_order, lemma_display_order_unique,
    lemma_sibling_before_total, lists_all, sibling_before,
};
use crate::style::{paint, Style};
use crate::text::{blocks, decimal, indent_text, join, lines};
use vstd::prelude::*;

verus! {

/// A word of the language, in the style of keywords.
pub open spec fn keyword(word: Seq<char>, color: bool) -> Seq<char> {
    paint(Style::Keyword, word, color)
}

/// A modifier: the keyword where it applies, and nothing where it does not.
pub open spec fn modifier(applies: bool, word: Seq<char>, color: bool) -> Seq<char> {
    if applies {
        keyword(word, color)
    } else {
        Seq::empty()
    }
}

/// A declared name, in the style of names.
pub open spec fn name_text(name: Seq<char>, color: bool) -> Seq<char> {
    paint(Style::Name, name, color)
}

/// `: Type` behind what has a type, and nothing behind what has none.
pub open spec fn type_suffix(ts_type: Option<Seq<char>>) -> Seq<char> {
    match ts_type {
        Some(t) => ": "@ + t,
        None => Seq::empty(),
    }
}

/// `<A, B>` for a list of type parameters or type arguments, and nothing at
/// all for an empty list.
pub open spec fn type_params_text(type_params: Seq<Seq<char>>) -> Seq<char> {
    if type_params.len() == 0 {
        Seq::empty()
    } else {
        "<"@ + join(type_params, ", "@) + ">"@
    }
}

/// One parameter: its name, a question mark where it has a default value,
/// and its type.
pub open spec fn param_text(param: ParamDefView) -> Seq<char> {
    param.name + (if param.has_default {
        "?"@
    } else {
        Seq::empty()
    }) + type_suffix(param.ts_type)
}

/// The parameters, separated by a comma and a space.
pub open spec fn params_text(params: Seq<ParamDefView>) -> Seq<char> {
    join(params.map_values(|p: ParamDefView| param_text(p)), ", "@)
}

/// What follows the name of something that is called:
/// `[<TypeParams>](Params)[: ReturnType]`.
pub open spec fn callable_text(
    type_params: Seq<Seq<char>>,
    params: Seq<ParamDefView>,
    return_type: Option<Seq<char>>,
) -> Seq<char> {
    type_params_text(type_params) + "("@ + params_text(params) + ")"@ + type_suffix(return_type)
}

/// A keyword, a space and the declared name: `class Name`.
pub open spec fn declaration_head(word: Seq<char>, name: Seq<char>, color: bool) -> Seq<char> {
    keyword(word, color) + " "@ + name_text(name, color)
}

/// A decorator on a line of its own: an at sign and the expression.
pub open spec fn decorator_line(depth: nat) -> spec_fn(Seq<char>) -> Seq<char> {
    |decorator: Seq<char>| indent_text(depth) + "@"@ + decorator + "\n"@
}

/// The decorators, each on its line.
pub open spec fn decorator_lines(decorators: Seq<Seq<char>>, depth: nat) -> Seq<char> {
    blocks(decorators, decorator_line(depth))
}

/// A line of a description.
pub open spec fn description_line(color: bool, depth: nat) -> spec_fn(Seq<char>) -> Seq<char> {
    |line: Seq<char>| indent_text(depth) + paint(Style::Description, line, color) + "\n"@
}

/// A description: each of its lines indented and in the style of
/// descriptions. Nothing where there is no description.
pub open spec fn description_text(description: Option<Seq<char>>, color: bool, depth: nat) -> Seq<
    char,
> {
    match description {
        Some(text) => blocks(lines(text), description_line(color, depth)),
        None => Seq::empty(),
    }
}

/// The line that says where a declaration stands, and the empty line
/// behind it; both in the style of locations.
pub open spec fn location_text(location: LocationView, color: bool) -> Seq<char> {
    paint(
        Style::Location,
        "Defined in "@ + location.filename + ":"@ + decimal(location.line) + ":"@ + decimal(
            location.col,
        ) + "\n\n"@,
        color,
    )
}

/// `[async ]function[*] Name[<TypeParams>](Params)[: ReturnType]`
pub open spec fn function_signature(
    name: Seq<char>,
    def: FunctionDefView,
    color: bool,
    depth: nat,
) -> Seq<char> {
    indent_text(depth) + modifier(def.is_async, "async "@, color) + keyword("function"@, color)
        + modifier(def.is_generator, "*"@, color) + " "@ + name_text(name, color) + callable_text(
        def.type_params,
        def.params,
        def.return_type,
    ) + "\n"@
}

/// The word that declares a variable of the given kind.
pub open spec fn var_kind_word(kind: VarDeclKind) -> Seq<char> {
    match kind {
        VarDeclKind::Const => "const"@,
        VarDeclKind::Let => "let"@,
        VarDeclKind::Var => "var"@,
    }
}

/// `kind Name[: Type]`
pub open spec fn variable_signature(
    name: Seq<char>,
    def: VariableDefView,
    color: bool,
    depth: nat,
) -> Seq<char> {
    indent_text(depth) + declaration_head(var_kind_word(def.kind), name, color) + type_suffix(
        def.ts_type,
    ) + "\n"@
}

/// ` extends Super[<SuperTypeParams>]`, and nothing for a class that
/// extends none.
pub open spec fn class_extends_text(def: ClassDefView, color: bool) -> Seq<char> {
    match def.extends {
        Some(parent) => " "@ + keyword("extends"@, color) + " "@ + parent + type_params_text(
            def.super_type_params,
        ),
        None => Seq::empty(),
    }
}

/// ` word A, B` for a list of types, and nothing for an empty list.
pub open spec fn type_list_text(word: Seq<char>, types: Seq<Seq<char>>, color: bool) -> Seq<
    char,
> {
    if types.len() == 0 {
        Seq::empty()
    } else {
        " "@ + keyword(word, color) + " "@ + join(types, ", "@)
    }
}

/// What a class extends and what it implements:
/// `[ extends Super[<SuperTypeParams>]][ implements I1, I2]`.
pub open spec fn class_heritage_text(def: ClassDefView, color: bool) -> Seq<char> {
    class_extends_text(def, color) + type_list_text("implements"@, def.implements, color)
}

/// The decorators, each on its line, then
/// `[abstract ]class Name[<TypeParams>][ extends Super[<SuperTypeParams>]][ implements I1, I2]`
pub open spec fn class_signature(
    name: Seq<char>,
    def: ClassDefView,
    color: bool,
    depth: nat,
) -> Seq<char> {
    decorator_lines(def.decorators, depth) + indent_text(depth) + modifier(
        def.is_abstract,
        "abstract "@,
        color,
    ) + declaration_head("class"@, name, color) + type_params_text(def.type_params)
        + class_heritage_text(def, color) + "\n"@
}

/// `enum Name`
pub open spec fn enum_signature(name: Seq<char>, color: bool, depth: nat) -> Seq<char> {
    indent_text(depth) + declaration_head("enum"@, name, color) + "\n"@
}

/// `interface Name[<TypeParams>][ extends E1, E2]`
pub open spec fn interface_signature(
    name: Seq<char>,
    def: InterfaceDefView,
    color: bool,
    depth: nat,
) -> Seq<char> {
    indent_text(depth) + declaration_head("interface"@, name, color) + type_params_text(
        def.type_params,
    ) + type_list_text("extends"@, def.extends, color) + "\n"@
}

/// `type Name[<TypeParams>] = AliasedType`
pub open spec fn type_alias_signature(
    name: Seq<char>,
    def: TypeAliasDefView,
    color: bool,
    depth: nat,
) -> Seq<char> {
    indent_text(depth) + declaration_head("type"@, name, color) + type_params_text(
        def.type_params,
    ) + " = "@ + def.ts_type + "\n"@
}

/// `namespace Name`
pub open spec fn namespace_signature(name: Seq<char>, color: bool, depth: nat) -> Seq<char> {
    indent_text(depth) + declaration_head("namespace"@, name, color) + "\n"@
}

/// The header of a node, by its kind. A module's documentation and an
/// import have none.
pub open spec fn signature_text(node: DocNodeView, color: bool, depth: nat) -> Seq<char> {
    match node.def {
        DocNodeDefView::ModuleDoc => Seq::empty(),
        DocNodeDefView::Function(def) => function_signature(node.name, def, color, depth),
        DocNodeDefView::Variable(def) => variable_signature(node.name, def, color, depth),
        DocNodeDefView::Class(def) => class_signature(node.name, def, color, depth),
        DocNodeDefView::Enum(_) => enum_signature(node.name, color, depth),
        DocNodeDefView::Interface(def) => interface_signature(node.name, def, color, depth),
        DocNodeDefView::TypeAlias(def) => type_alias_signature(node.name, def, color, depth),
        DocNodeDefView::Namespace(_) => namespace_signature(node.name, color, depth),
        DocNodeDefView::Import => Seq::empty(),
    }
}

/// `protected ` or `private `; a public member says nothing.
pub open spec fn accessibility_text(accessibility: Accessibility, color: bool) -> Seq<char> {
    match accessibility {
        Accessibility::Public => Seq::empty(),
        Accessibility::Protected => keyword("protected "@, color),
        Accessibility::Private => keyword("private "@, color),
    }
}

/// A member's line: one unit of indentation, the member, a line feed.
pub open spec fn member_line(member: Seq<char>) -> Seq<char> {
    indent_text(1) + member + "\n"@
}

/// `constructor(Params)`
pub open spec fn constructor_text(def: ClassConstructorDefView, color: bool) -> Seq<char> {
    keyword("constructor"@, color) + callable_text(Seq::empty(), def.params, None)
}

/// `[protected |private ]Name[: Type]`
pub open spec fn class_property_text(def: ClassPropertyDefView, color: bool) -> Seq<char> {
    accessibility_text(def.accessibility, color) + name_text(def.name, color) + type_suffix(
        def.ts_type,
    )
}

/// `[protected |private ][async ][*]Name[<TypeParams>](Params)[: ReturnType]`
pub open spec fn class_method_text(def: ClassMethodDefView, color: bool) -> Seq<char> {
    accessibility_text(def.accessibility, color) + modifier(
        def.function_def.is_async,
        "async "@,
        color,
    ) + modifier(def.function_def.is_generator, "*"@, color) + name_text(def.name, color)
        + callable_text(
        def.function_def.type_params,
        def.function_def.params,
        def.function_def.return_type,
    )
}

/// `[Params][: Type]`, the brackets being part of the text.
pub open spec fn index_signature_text(def: IndexSignatureDefView) -> Seq<char> {
    "["@ + params_text(def.params) + "]"@ + type_suffix(def.ts_type)
}

/// `Name[: Type]`
pub open spec fn interface_property_text(def: InterfacePropertyDefView, color: bool) -> Seq<
    char,
> {
    name_text(def.name, color) + type_suffix(def.ts_type)
}

/// `Name[<TypeParams>](Params)[: ReturnType]`
pub open spec fn interface_method_text(def: InterfaceMethodDefView, color: bool) -> Seq<char> {
    name_text(def.name, color) + callable_text(def.type_params, def.params, def.return_type)
}

/// A constructor in the body of its class: its line and its description.
pub open spec fn constructor_block(color: bool) -> spec_fn(ClassConstructorDefView) -> Seq<
    char,
> {
    |def: ClassConstructorDefView|
        member_line(constructor_text(def, color)) + description_text(def.description, color, 2)
}

/// A property in the body of its class: its decorators, its line and its
/// description.
pub open spec fn class_property_block(color: bool) -> spec_fn(ClassPropertyDefView) -> Seq<
    char,
> {
    |def: ClassPropertyDefView|
        decorator_lines(def.decorators, 1) + member_line(class_property_text(def, color))
            + description_text(def.description, color, 2)
}

/// A method in the body of its class: its decorators, its line and its
/// description.
pub open spec fn class_method_block(color: bool) -> spec_fn(ClassMethodDefView) -> Seq<char> {
    |def: ClassMethodDefView|
        decorator_lines(def.function_def.decorators, 1) + member_line(
            class_method_text(def, color),
        ) + description_text(def.description, color, 2)
}

/// An index signature in a body: its line.
pub open spec fn index_signature_block() -> spec_fn(IndexSignatureDefView) -> Seq<char> {
    |def: IndexSignatureDefView| member_line(index_signature_text(def))
}

/// A member of an enum: its name on a line, and its description.
pub open spec fn enum_member_block(color: bool) -> spec_fn(EnumMemberDefView) -> Seq<char> {
    |def: EnumMemberDefView|
        member_line(name_text(def.name, color)) + description_text(def.description, color, 2)
}

/// A property in the body of its interface: its line and its description.
pub open spec fn interface_property_block(color: bool) -> spec_fn(
    InterfacePropertyDefView,
) -> Seq<char> {
    |def: InterfacePropertyDefView|
        member_line(interface_property_text(def, color)) + description_text(
            def.description,
            color,
            2,
        )
}

/// A method in the body of its interface: its line and its description.
pub open spec fn interface_method_block(color: bool) -> spec_fn(InterfaceMethodDefView) -> Seq<
    char,
> {
    |def: InterfaceMethodDefView|
        member_line(interface_method_text(def, color)) + description_text(
            def.description,
            color,
            2,
        )
}

/// Whether a member of the given accessibility is shown: all are where
/// private members are included, and all but the private ones where not.
pub open spec fn is_shown(accessibility: Accessibility, include_private: bool) -> bool {
    include_private || accessibility != Accessibility::Private
}

/// Whether a property is shown.
pub open spec fn property_shown(include_private: bool) -> spec_fn(ClassPropertyDefView) -> bool {
    |def: ClassPropertyDefView| is_shown(def.accessibility, include_private)
}

/// Whether a method is shown.
pub open spec fn method_shown(include_private: bool) -> spec_fn(ClassMethodDefView) -> bool {
    |def: ClassMethodDefView| is_shown(def.accessibility, include_private)
}

/// The body of a class: its constructors, the properties that are shown,
/// its index signatures, the methods that are shown, each list in the order
/// in which it was declared; then an empty line.
pub open spec fn class_body(def: ClassDefView, color: bool, include_private: bool) -> Seq<char> {
    blocks(def.constructors, constructor_block(color)) + blocks(
        def.properties.filter(property_shown(include_private)),
        class_property_block(color),
    ) + blocks(def.index_signatures, index_signature_block()) + blocks(
        def.methods.filter(method_shown(include_private)),
        class_method_block(color),
    ) + "\n"@
}

/// The body of an enum: its members as declared, then an empty line.
pub open spec fn enum_body(def: EnumDefView, color: bool) -> Seq<char> {
    blocks(def.members, enum_member_block(color)) + "\n"@
}

/// The body of an interface: its properties, its methods and its index
/// signatures, each list as declared; then an empty line.
pub open spec fn interface_body(def: InterfaceDefView, color: bool) -> Seq<char> {
    blocks(def.properties, interface_property_block(color)) + blocks(
        def.methods,
        interface_method_block(color),
    ) + blocks(def.index_signatures, index_signature_block()) + "\n"@
}

/// An element of a namespace: its header, one unit deep, and its
/// description, two units deep. Its own body is not shown.
pub open spec fn namespace_element_block(elements: Seq<DocNodeView>, color: bool) -> spec_fn(
    int,
) -> Seq<char> {
    |place: int|
        signature_text(elements[place], color, 1) + description_text(
            elements[place].description,
            color,
            2,
        )
}

/// The body of a namespace: its elements in the order in which siblings
/// are shown, then an empty line.
pub open spec fn namespace_body(def: NamespaceDefView, color: bool) -> Seq<char> {
    blocks(display_order(def.elements), namespace_element_block(def.elements, color)) + "\n"@
}

/// The body of a node: a class, an enum, an interface and a namespace have
/// one.
pub open spec fn body_text(node: DocNodeView, color: bool, include_private: bool) -> Seq<char> {
    match node.def {
        DocNodeDefView::Class(def) => class_body(def, color, include_private),
        DocNodeDefView::Enum(def) => enum_body(def, color),
        DocNodeDefView::Interface(def) => interface_body(def, color),
        DocNodeDefView::Namespace(def) => namespace_body(def, color),
        _ => Seq::empty(),
    }
}

/// What the report says of one node: where it stands, its header, its
/// description one unit deeper than the header, an empty line, its body.
pub open spec fn entry_text(
    node: DocNodeView,
    color: bool,
    include_private: bool,
    depth: nat,
) -> Seq<char> {
    location_text(node.location, color) + signature_text(node, color, depth) + description_text(
        node.description,
        color,
        depth + 1,
    ) + "\n"@ + body_text(node, color, include_private)
}

/// The entry of the sibling at a place.
pub open spec fn entry_block(
    nodes: Seq<DocNodeView>,
    color: bool,
    include_private: bool,
    depth: nat,
) -> spec_fn(int) -> Seq<char> {
    |place: int| entry_text(nodes[place], color, include_private, depth)
}

/// The report on a list of siblings: the entry of each, in the order in
/// which siblings are shown.
pub open spec fn report(
    nodes: Seq<DocNodeView>,
    color: bool,
    include_private: bool,
    depth: nat,
) -> Seq<char> {
    blocks(display_order(nodes), entry_block(nodes, color, include_private, depth))
}

/// A list loses nothing to a test that all of its items pass.
proof fn lemma_filter_keeps_all<A>(items: Seq<A>, pred: spec_fn(A) -> bool)
    requires
        forall|i: int| 0 <= i < items.len() ==> pred(#[trigger] items[i]),
    ensures
        items.filter(pred) == items,
    decreases items.len(),
{
    reveal(Seq::filter);
    if items.len() > 0 {
        lemma_filter_keeps_all(items.drop_last(), pred);
        assert(items.drop_last().push(items.last()) == items);
    }
}

/// Where private members are included, every property and every method of
/// a class is shown.
pub proof fn lemma_private_included_shows_all(def: ClassDefView)
    ensures
        def.properties.filter(property_shown(true)) == def.properties,
        def.methods.filter(method_shown(true)) == def.methods,
{
    lemma_filter_keeps_all(def.properties, property_shown(true));
    lemma_filter_keeps_all(def.methods, method_shown(true));
}

/// Where private members are not included, the properties and methods that
/// are shown are those that are not private; none of them is lost, and
/// they keep their order (a filter keeps it).
pub proof fn lemma_private_excluded_shows_the_rest(def: ClassDefView)
    ensures
        forall|i: int|
            0 <= i < def.properties.filter(property_shown(false)).len() ==> (
            #[trigger] def.properties.filter(property_shown(false))[i]).accessibility
                != Accessibility::Private,
        forall|i: int|
            0 <= i < def.methods.filter(method_shown(false)).len() ==> (
            #[trigger] def.methods.filter(method_shown(false))[i]).accessibility
                != Accessibility::Private,
        forall|i: int|
            0 <= i < def.properties.len() && def.properties[i].accessibility
                != Accessibility::Private ==> def.properties.filter(
                property_shown(false),
            ).contains(#[trigger] def.properties[i]),
        forall|i: int|
            0 <= i < def.methods.len() && def.methods[i].accessibility != Accessibility::Private
                ==> def.methods.filter(method_shown(false)).contains(#[trigger] def.methods[i]),
{
    let properties = def.properties.filter(property_shown(false));
    let methods = def.methods.filter(method_shown(false));
    assert forall|i: int| 0 <= i < properties.len() implies (#[trigger] properties[i]).accessibility
        != Accessibility::Private by {
        def.properties.lemma_filter_pred(property_shown(false), i);
    }
    assert forall|i: int| 0 <= i < methods.len() implies (#[trigger] methods[i]).accessibility
        != Accessibility::Private by {
        def.methods.lemma_filter_pred(method_shown(false), i);
    }
    assert forall|i: int|
        0 <= i < def.properties.len() && def.properties[i].accessibility
            != Accessibility::Private implies properties.contains(
        #[trigger] def.properties[i],
    ) by {
        def.properties.lemma_filter_contains(property_shown(false), i);
    }
    assert forall|i: int|
        0 <= i < def.methods.len() && def.methods[i].accessibility
            != Accessibility::Private implies methods.contains(#[trigger] def.methods[i]) by {
        def.methods.lemma_filter_contains(method_shown(false), i);
    }
}

/// A class without its private properties and methods.
pub open spec fn without_private(def: ClassDefView) -> ClassDefView {
    ClassDefView {
        properties: def.properties.filter(property_shown(false)),
        methods: def.methods.filter(method_shown(false)),
        ..def
    }
}

/// A private member that is not shown leaves nothing behind: where private
/// members are not included, the body of a class is the body of the class
/// without them, whatever the setting is there.
pub proof fn lemma_private_members_leave_nothing(
    def: ClassDefView,
    color: bool,
    include_private: bool,
)
    ensures
        class_body(def, color, false) == class_body(without_private(def), color, include_private),
{
    let properties = def.properties.filter(property_shown(false));
    let methods = def.methods.filter(method_shown(false));
    assert forall|i: int| 0 <= i < properties.len() implies property_shown(include_private)(
        #[trigger] properties[i],
    ) by {
        def.properties.lemma_filter_pred(property_shown(false), i);
    }
    assert forall|i: int| 0 <= i < methods.len() implies method_shown(include_private)(
        #[trigger] methods[i],
    ) by {
        def.methods.lemma_filter_pred(method_shown(false), i);
    }
    lemma_filter_keeps_all(properties, property_shown(include_private));
    lemma_filter_keeps_all(methods, method_shown(include_private));
}

/// A node with the body taken out: a class, an enum and an interface
/// without members, a namespace without elements.
pub open spec fn header_only(node: DocNodeView) -> DocNodeView {
    DocNodeView {
        def: match node.def {
            DocNodeDefView::Class(def) => DocNodeDefView::Class(
                ClassDefView {
                    constructors: Seq::empty(),
                    properties: Seq::empty(),
                    index_signatures: Seq::empty(),
                    methods: Seq::empty(),
                    ..def
                },
            ),
            DocNodeDefView::Enum(_) => DocNodeDefView::Enum(EnumDefView { members: Seq::empty() }),
            DocNodeDefView::Interface(def) => DocNodeDefView::Interface(
                InterfaceDefView {
                    properties: Seq::empty(),
                    methods: Seq::empty(),
                    index_signatures: Seq::empty(),
                    ..def
                },
            ),
            DocNodeDefView::Namespace(_) => DocNodeDefView::Namespace(
                NamespaceDefView { elements: Seq::empty() },
            ),
            other => other,
        },
        ..node
    }
}

/// The elements of a namespace, each with its body taken out.
pub open spec fn headers_only(def: NamespaceDefView) -> NamespaceDefView {
    NamespaceDefView { elements: def.elements.map_values(|node: DocNodeView| header_only(node)) }
}

/// A namespace shows of its elements the header and the description, and
/// nothing of their bodies: its body is what it would be if the elements
/// had no members and no elements of their own.
pub proof fn lemma_namespace_shows_no_bodies(def: NamespaceDefView, color: bool)
    ensures
        namespace_body(def, color) == namespace_body(headers_only(def), color),
{
    let elements = def.elements;
    let bare = headers_only(def).elements;
    let order = display_order(elements);
    lemma_display_order(elements);
    assert(is_display_order(bare, order)) by {
        assert forall|p: int, q: int| 0 <= p < q < order.len() implies sibling_before(
            bare,
            #[trigger] order[p],
            #[trigger] order[q],
        ) by {
            assert(sibling_before(elements, order[p], order[q]));
            assert(bare[order[p]] == header_only(elements[order[p]]));
            assert(bare[order[q]] == header_only(elements[order[q]]));
        }
    }
    lemma_display_order_unique(bare, order);
    let full = namespace_element_block(elements, color);
    let short = namespace_element_block(bare, color);
    assert(order.map_values(full) == order.map_values(short)) by {
        assert forall|i: int| 0 <= i < order.len() implies full(order[i]) == short(order[i]) by {
            assert(bare[order[i]] == header_only(elements[order[i]]));
        }
    }
}

/// An empty list of type parameters leaves no brackets behind.
pub proof fn lemma_no_type_params_no_brackets()
    ensures
        type_params_text(Seq::empty()) == Seq::<char>::empty(),
{
}

/// A function without type parameters has its name followed at once by
/// its parameters.
pub proof fn lemma_function_without_type_params(
    name: Seq<char>,
    def: FunctionDefView,
    color: bool,
    depth: nat,
)
    requires
        def.type_params.len() == 0,
    ensures
        function_signature(name, def, color, depth) == indent_text(depth) + modifier(
            def.is_async,
            "async "@,
            color,
        ) + keyword("function"@, color) + modifier(def.is_generator, "*"@, color) + " "@
            + name_text(name, color) + "("@ + params_text(def.params) + ")"@ + type_suffix(
            def.return_type,
        ) + "\n"@,
{
    let head = indent_text(depth) + modifier(def.is_async, "async "@, color) + keyword(
        "function"@,
        color,
    ) + modifier(def.is_generator, "*"@, color) + " "@ + name_text(name, color);
    let call = callable_text(def.type_params, def.params, def.return_type);
    assert(call == "("@ + params_text(def.params) + ")"@ + type_suffix(def.return_type)) by {
        assert(Seq::<char>::empty() + "("@ == "("@);
    }
    assert(head + call + "\n"@ == head + "("@ + params_text(def.params) + ")"@ + type_suffix(
        def.return_type,
    ) + "\n"@);
}

/// A class without type parameters has its name followed at once by what
/// it extends and implements, or by the end of the line.
pub proof fn lemma_class_without_type_params(
    name: Seq<char>,
    def: ClassDefView,
    color: bool,
    depth: nat,
)
    requires
        def.type_params.len() == 0,
    ensures
        class_signature(name, def, color, depth) == decorator_lines(def.decorators, depth)
            + indent_text(depth) + modifier(def.is_abstract, "abstract "@, color)
            + declaration_head("class"@, name, color) + class_heritage_text(def, color) + "\n"@,
{
    let head = decorator_lines(def.decorators, depth) + indent_text(depth) + modifier(
        def.is_abstract,
        "abstract "@,
        color,
    ) + declaration_head("class"@, name, color);
    assert(head + Seq::<char>::empty() == head);
}

/// An interface without type parameters has its name followed at once by
/// what it extends, or by the end of the line.
pub proof fn lemma_interface_without_type_params(
    name: Seq<char>,
    def: InterfaceDefView,
    color: bool,
    depth: nat,
)
    requires
        def.type_params.len() == 0,
    ensures
        interface_signature(name, def, color, depth) == indent_text(depth) + declaration_head(
            "interface"@,
            name,
            color,
        ) + type_list_text("extends"@, def.extends, color) + "\n"@,
{
    let head = indent_text(depth) + declaration_head("interface"@, name, color);
    assert(head + Seq::<char>::empty() == head);
}

/// No two of the siblings have both the same kind and the same name.
pub open spec fn distinct_siblings(nodes: Seq<DocNodeView>) -> bool {
    forall|a: int, b: int|
        0 <= a < nodes.len() && 0 <= b < nodes.len() && a != b ==> !(#[trigger] nodes[a].kind()
            == #[trigger] nodes[b].kind() && nodes[a].name == nodes[b].name)
}

/// `second` holds the nodes of `first` in another order: place `k` of
/// `second` holds what stands at place `moved[k]` of `first`, and `moved`
/// names every place of `first`.
pub open spec fn rearranged(
    first: Seq<DocNodeView>,
    second: Seq<DocNodeView>,
    moved: Seq<int>,
) -> bool {
    &&& second.len() == first.len()
    &&& lists_all(moved, first.len())
    &&& forall|k: int| 0 <= k < second.len() ==> #[trigger] second[k] == first[moved[k]]
}

/// The order in which siblings are handed in does not show in the report,
/// as long as no two of them have both the same kind and the same name.
pub proof fn lemma_report_of_rearranged_siblings(
    first: Seq<DocNodeView>,
    second: Seq<DocNodeView>,
    moved: Seq<int>,
    color: bool,
    include_private: bool,
    depth: nat,
)
    requires
        rearranged(first, second, moved),
        distinct_siblings(second),
    ensures
        report(second, color, include_private, depth) == report(
            first,
            color,
            include_private,
            depth,
        ),
{
    let order = display_order(second);
    lemma_display_order(second);
    let back = order.map_values(|k: int| moved[k]);
    assert(is_display_order(first, back)) by {
        assert forall|i: int| 0 <= i < first.len() implies back.contains(i) by {
            assert(moved.contains(i));
            let k = choose|k: int| 0 <= k < moved.len() && moved[k] == i;
            assert(order.contains(k));
            let p = choose|p: int| 0 <= p < order.len() && order[p] == k;
            assert(back[p] == i);
        }
        assert forall|p: int, q: int| 0 <= p < q < back.len() implies sibling_before(
            first,
            #[trigger] back[p],
            #[trigger] back[q],
        ) by {
            assert(sibling_before(second, order[p], order[q]));
            lemma_sibling_before_total(second, order[p], order[p]);
            assert(second[order[p]] == first[back[p]]);
            assert(second[order[q]] == first[back[q]]);
        }
    }
    lemma_display_order_unique(first, back);
    let here = entry_block(second, color, include_private, depth);
    let there = entry_block(first, color, include_private, depth);
    assert(order.map_values(here) == back.map_values(there)) by {
        assert forall|i: int| 0 <= i < order.len() implies here(order[i]) == there(back[i]) by {
            assert(second[order[i]] == first[back[i]]);
        }
    }
}

} // verus!
