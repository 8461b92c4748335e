//! Colour changes nothing that the report says: the coloured report without
//! its escape sequences is the report without colour.
//!
//! This holds of every report whose uncoloured form holds no escape
//! character. A tree that brings an escape character of its own into a text
//! that is shown (a node named with one, say) is left out: taking sequences
//! out of the coloured report would take that character out as well.

use crate::layout::{
    accessibility_text, body_text, callable_text, class_body, class_extends_text,
    class_heritage_text, class_method_block, class_method_text, class_property_block,
    class_property_text, class_signature, constructor_block, constructor_text,
    declaration_head, decorator_lines, description_line, description_text, entry_block,
    entry_text, enum_body, enum_member_block, function_signature, index_signature_block,
    interface_body, interface_method_block, interface_method_text, interface_property_block,
    interface_property_text, interface_signature, keyword, location_text, member_line,
    method_shown, modifier, name_text, namespace_body, namespace_element_block,
    property_shown, report, signature_text, type_alias_signature, type_list_text,
    type_params_text, type_suffix, var_kind_word, variable_signature,
};
use crate::node::{
    Accessibility, ClassConstructorDefView, ClassDefView, ClassMethodDefView,
    ClassPropertyDefView, DocNodeDefView, DocNodeView, EnumDefView, EnumMemberDefView,
    FunctionDefView, InterfaceDefView, InterfaceMethodDefView, InterfacePropertyDefView,
    LocationView, NamespaceDefView, TypeAliasDefView, VariableDefView,
};
use crate::order::display_order;
use crate::printer::DocPrinterView;
use crate::style::{
    escape_free, in_escape, lemma_same_text_add, lemma_same_text_flatten,
    lemma_same_text_paint, lemma_same_text_refl, paint, same_text, strip_ansi, Style,
};
use crate::text::{blocks, decimal, indent_text, join, lines};
use vstd::prelude::*;

verus! {

/// A text that both forms share may follow.
proof fn lemma_then_same(colored: Seq<char>, plain: Seq<char>, shared: Seq<char>)
    requires
        same_text(colored, plain),
    ensures
        same_text(colored + shared, plain + shared),
{
    lemma_same_text_refl(shared);
    lemma_same_text_add(colored, plain, shared, shared);
}

/// A text that both forms share may stand in front.
proof fn lemma_same_then(shared: Seq<char>, colored: Seq<char>, plain: Seq<char>)
    requires
        same_text(colored, plain),
    ensures
        same_text(shared + colored, shared + plain),
{
    lemma_same_text_refl(shared);
    lemma_same_text_add(shared, shared, colored, plain);
}

/// What holds of the text of each item holds of the texts of all.
proof fn lemma_blocks<A>(
    items: Seq<A>,
    colored: spec_fn(A) -> Seq<char>,
    plain: spec_fn(A) -> Seq<char>,
)
    requires
        forall|i: int|
            0 <= i < items.len() ==> same_text(#[trigger] colored(items[i]), plain(items[i])),
    ensures
        same_text(blocks(items, colored), blocks(items, plain)),
{
    let cs = items.map_values(colored);
    let ps = items.map_values(plain);
    assert forall|i: int| 0 <= i < cs.len() implies same_text(#[trigger] cs[i], ps[i]) by {
        assert(cs[i] == colored(items[i]));
    }
    lemma_same_text_flatten(cs, ps);
}

// Each lemma below says of one part of the report that its coloured form
// says what its uncoloured form says. They follow the parts from the
// smallest to the whole report.
proof fn lemma_keyword(word: Seq<char>)
    ensures
        same_text(keyword(word, true), keyword(word, false)),
{
    lemma_same_text_paint(Style::Keyword, word, true);
}

proof fn lemma_modifier(applies: bool, word: Seq<char>)
    ensures
        same_text(modifier(applies, word, true), modifier(applies, word, false)),
{
    lemma_keyword(word);
    lemma_same_text_refl(Seq::empty());
}

proof fn lemma_name(name: Seq<char>)
    ensures
        same_text(name_text(name, true), name_text(name, false)),
{
    lemma_same_text_paint(Style::Name, name, true);
}

proof fn lemma_declaration_head(word: Seq<char>, name: Seq<char>)
    ensures
        same_text(declaration_head(word, name, true), declaration_head(word, name, false)),
{
    lemma_keyword(word);
    lemma_then_same(keyword(word, true), keyword(word, false), " "@);
    lemma_name(name);
    lemma_same_text_add(
        keyword(word, true) + " "@,
        keyword(word, false) + " "@,
        name_text(name, true),
        name_text(name, false),
    );
}

proof fn lemma_description(description: Option<Seq<char>>, depth: nat)
    ensures
        same_text(
            description_text(description, true, depth),
            description_text(description, false, depth),
        ),
{
    match description {
        Some(text) => {
            let all = lines(text);
            let colored = description_line(true, depth);
            let plain = description_line(false, depth);
            assert forall|i: int| 0 <= i < all.len() implies same_text(
                #[trigger] colored(all[i]),
                plain(all[i]),
            ) by {
                let indent = indent_text(depth);
                lemma_same_text_paint(Style::Description, all[i], true);
                lemma_same_then(
                    indent,
                    paint(Style::Description, all[i], true),
                    paint(Style::Description, all[i], false),
                );
                lemma_then_same(
                    indent + paint(Style::Description, all[i], true),
                    indent + paint(Style::Description, all[i], false),
                    "\n"@,
                );
            }
            lemma_blocks(all, colored, plain);
        },
        None => {
            lemma_same_text_refl(Seq::empty());
        },
    }
}

proof fn lemma_location(location: LocationView)
    ensures
        same_text(location_text(location, true), location_text(location, false)),
{
    let inner = "Defined in "@ + location.filename + ":"@ + decimal(location.line)
        + ":"@ + decimal(location.col) + "\n\n"@;
    lemma_same_text_paint(Style::Location, inner, true);
}

/// A line: indentation, a text and what follows it on the line.
proof fn lemma_line(indent: Seq<char>, colored: Seq<char>, plain: Seq<char>, rest: Seq<char>)
    requires
        same_text(colored, plain),
    ensures
        same_text(indent + colored + rest, indent + plain + rest),
{
    lemma_same_then(indent, colored, plain);
    lemma_then_same(indent + colored, indent + plain, rest);
}

proof fn lemma_function_signature(name: Seq<char>, def: FunctionDefView, depth: nat)
    ensures
        same_text(
            function_signature(name, def, true, depth),
            function_signature(name, def, false, depth),
        ),
{
    let indent = indent_text(depth);
    let call = callable_text(def.type_params, def.params, def.return_type);
    lemma_modifier(def.is_async, "async "@);
    lemma_same_then(
        indent,
        modifier(def.is_async, "async "@, true),
        modifier(def.is_async, "async "@, false),
    );
    let col1 = indent + modifier(def.is_async, "async "@, true);
    let bare1 = indent + modifier(def.is_async, "async "@, false);
    lemma_keyword("function"@);
    lemma_same_text_add(col1, bare1, keyword("function"@, true), keyword("function"@, false));
    let col2 = col1 + keyword("function"@, true);
    let bare2 = bare1 + keyword("function"@, false);
    lemma_modifier(def.is_generator, "*"@);
    lemma_same_text_add(
        col2,
        bare2,
        modifier(def.is_generator, "*"@, true),
        modifier(def.is_generator, "*"@, false),
    );
    let col3 = col2 + modifier(def.is_generator, "*"@, true);
    let bare3 = bare2 + modifier(def.is_generator, "*"@, false);
    lemma_then_same(col3, bare3, " "@);
    lemma_name(name);
    lemma_same_text_add(col3 + " "@, bare3 + " "@, name_text(name, true), name_text(name, false));
    let col4 = col3 + " "@ + name_text(name, true);
    let bare4 = bare3 + " "@ + name_text(name, false);
    lemma_then_same(col4, bare4, call);
    lemma_then_same(col4 + call, bare4 + call, "\n"@);
}

proof fn lemma_variable_signature(name: Seq<char>, def: VariableDefView, depth: nat)
    ensures
        same_text(
            variable_signature(name, def, true, depth),
            variable_signature(name, def, false, depth),
        ),
{
    let indent = indent_text(depth);
    let word = var_kind_word(def.kind);
    lemma_declaration_head(word, name);
    lemma_line(
        indent,
        declaration_head(word, name, true),
        declaration_head(word, name, false),
        type_suffix(def.ts_type),
    );
    lemma_then_same(
        indent + declaration_head(word, name, true) + type_suffix(def.ts_type),
        indent + declaration_head(word, name, false) + type_suffix(def.ts_type),
        "\n"@,
    );
}

proof fn lemma_type_list(word: Seq<char>, types: Seq<Seq<char>>)
    ensures
        same_text(type_list_text(word, types, true), type_list_text(word, types, false)),
{
    if types.len() == 0 {
        lemma_same_text_refl(Seq::empty());
    } else {
        lemma_keyword(word);
        lemma_line(" "@, keyword(word, true), keyword(word, false), " "@);
        lemma_then_same(
            " "@ + keyword(word, true) + " "@,
            " "@ + keyword(word, false) + " "@,
            join(types, ", "@),
        );
    }
}

proof fn lemma_class_extends(def: ClassDefView)
    ensures
        same_text(class_extends_text(def, true), class_extends_text(def, false)),
{
    match def.extends {
        Some(parent) => {
            lemma_keyword("extends"@);
            lemma_line(" "@, keyword("extends"@, true), keyword("extends"@, false), " "@);
            lemma_then_same(
                " "@ + keyword("extends"@, true) + " "@,
                " "@ + keyword("extends"@, false) + " "@,
                parent,
            );
            lemma_then_same(
                " "@ + keyword("extends"@, true) + " "@ + parent,
                " "@ + keyword("extends"@, false) + " "@ + parent,
                type_params_text(def.super_type_params),
            );
        },
        None => {
            lemma_same_text_refl(Seq::empty());
        },
    }
}

proof fn lemma_class_heritage(def: ClassDefView)
    ensures
        same_text(class_heritage_text(def, true), class_heritage_text(def, false)),
{
    lemma_class_extends(def);
    lemma_type_list("implements"@, def.implements);
    lemma_same_text_add(
        class_extends_text(def, true),
        class_extends_text(def, false),
        type_list_text("implements"@, def.implements, true),
        type_list_text("implements"@, def.implements, false),
    );
}

proof fn lemma_class_signature(name: Seq<char>, def: ClassDefView, depth: nat)
    ensures
        same_text(
            class_signature(name, def, true, depth),
            class_signature(name, def, false, depth),
        ),
{
    let lead = decorator_lines(def.decorators, depth) + indent_text(
        depth,
    );
    lemma_modifier(def.is_abstract, "abstract "@);
    lemma_same_then(
        lead,
        modifier(def.is_abstract, "abstract "@, true),
        modifier(def.is_abstract, "abstract "@, false),
    );
    let col1 = lead + modifier(def.is_abstract, "abstract "@, true);
    let bare1 = lead + modifier(def.is_abstract, "abstract "@, false);
    lemma_declaration_head("class"@, name);
    lemma_same_text_add(
        col1,
        bare1,
        declaration_head("class"@, name, true),
        declaration_head("class"@, name, false),
    );
    let col2 = col1 + declaration_head("class"@, name, true);
    let bare2 = bare1 + declaration_head("class"@, name, false);
    lemma_then_same(col2, bare2, type_params_text(def.type_params));
    let col3 = col2 + type_params_text(def.type_params);
    let bare3 = bare2 + type_params_text(def.type_params);
    lemma_class_heritage(def);
    lemma_same_text_add(
        col3,
        bare3,
        class_heritage_text(def, true),
        class_heritage_text(def, false),
    );
    lemma_then_same(
        col3 + class_heritage_text(def, true),
        bare3 + class_heritage_text(def, false),
        "\n"@,
    );
}

proof fn lemma_named_signature(word: Seq<char>, name: Seq<char>, depth: nat)
    ensures
        same_text(
            indent_text(depth) + declaration_head(word, name, true) + "\n"@,
            indent_text(depth) + declaration_head(word, name, false) + "\n"@,
        ),
{
    lemma_declaration_head(word, name);
    lemma_line(
        indent_text(depth),
        declaration_head(word, name, true),
        declaration_head(word, name, false),
        "\n"@,
    );
}

proof fn lemma_interface_signature(name: Seq<char>, def: InterfaceDefView, depth: nat)
    ensures
        same_text(
            interface_signature(name, def, true, depth),
            interface_signature(name, def, false, depth),
        ),
{
    let indent = indent_text(depth);
    let params = type_params_text(def.type_params);
    lemma_declaration_head("interface"@, name);
    lemma_line(
        indent,
        declaration_head("interface"@, name, true),
        declaration_head("interface"@, name, false),
        params,
    );
    lemma_type_list("extends"@, def.extends);
    lemma_same_text_add(
        indent + declaration_head("interface"@, name, true) + params,
        indent + declaration_head("interface"@, name, false) + params,
        type_list_text("extends"@, def.extends, true),
        type_list_text("extends"@, def.extends, false),
    );
    lemma_then_same(
        indent + declaration_head("interface"@, name, true) + params + type_list_text(
            "extends"@,
            def.extends,
            true,
        ),
        indent + declaration_head("interface"@, name, false) + params + type_list_text(
            "extends"@,
            def.extends,
            false,
        ),
        "\n"@,
    );
}

proof fn lemma_type_alias_signature(name: Seq<char>, def: TypeAliasDefView, depth: nat)
    ensures
        same_text(
            type_alias_signature(name, def, true, depth),
            type_alias_signature(name, def, false, depth),
        ),
{
    let indent = indent_text(depth);
    let params = type_params_text(def.type_params);
    lemma_declaration_head("type"@, name);
    lemma_line(
        indent,
        declaration_head("type"@, name, true),
        declaration_head("type"@, name, false),
        params,
    );
    let col1 = indent + declaration_head("type"@, name, true) + params;
    let bare1 = indent + declaration_head("type"@, name, false) + params;
    lemma_then_same(col1, bare1, " = "@);
    lemma_then_same(col1 + " = "@, bare1 + " = "@, def.ts_type);
    lemma_then_same(col1 + " = "@ + def.ts_type, bare1 + " = "@ + def.ts_type, "\n"@);
}

proof fn lemma_signature(node: DocNodeView, depth: nat)
    ensures
        same_text(signature_text(node, true, depth), signature_text(node, false, depth)),
{
    match node.def {
        DocNodeDefView::ModuleDoc => lemma_same_text_refl(Seq::empty()),
        DocNodeDefView::Function(def) => lemma_function_signature(node.name, def, depth),
        DocNodeDefView::Variable(def) => lemma_variable_signature(node.name, def, depth),
        DocNodeDefView::Class(def) => lemma_class_signature(node.name, def, depth),
        DocNodeDefView::Enum(_) => lemma_named_signature("enum"@, node.name, depth),
        DocNodeDefView::Interface(def) => lemma_interface_signature(node.name, def, depth),
        DocNodeDefView::TypeAlias(def) => lemma_type_alias_signature(node.name, def, depth),
        DocNodeDefView::Namespace(_) => lemma_named_signature("namespace"@, node.name, depth),
        DocNodeDefView::Import => lemma_same_text_refl(Seq::empty()),
    }
}

proof fn lemma_accessibility(accessibility: Accessibility)
    ensures
        same_text(
            accessibility_text(accessibility, true),
            accessibility_text(accessibility, false),
        ),
{
    lemma_keyword("protected "@);
    lemma_keyword("private "@);
    lemma_same_text_refl(Seq::empty());
}

/// A member: decorators that both forms share, the member's line, and its
/// description two units deep.
proof fn lemma_member(
    lead: Seq<char>,
    colored: Seq<char>,
    plain: Seq<char>,
    description: Option<Seq<char>>,
)
    requires
        same_text(colored, plain),
    ensures
        same_text(
            lead + member_line(colored) + description_text(description, true, 2),
            lead + member_line(plain) + description_text(description, false, 2),
        ),
        same_text(
            member_line(colored) + description_text(description, true, 2),
            member_line(plain) + description_text(description, false, 2),
        ),
{
    lemma_line(indent_text(1), colored, plain, "\n"@);
    lemma_description(description, 2);
    lemma_same_text_add(
        member_line(colored),
        member_line(plain),
        description_text(description, true, 2),
        description_text(description, false, 2),
    );
    lemma_same_then(lead, member_line(colored), member_line(plain));
    lemma_same_text_add(
        lead + member_line(colored),
        lead + member_line(plain),
        description_text(description, true, 2),
        description_text(description, false, 2),
    );
}

proof fn lemma_constructor(def: ClassConstructorDefView)
    ensures
        same_text(constructor_block(true)(def), constructor_block(false)(def)),
{
    lemma_keyword("constructor"@);
    lemma_then_same(
        keyword("constructor"@, true),
        keyword("constructor"@, false),
        callable_text(Seq::empty(), def.params, None),
    );
    lemma_member(
        Seq::empty(),
        constructor_text(def, true),
        constructor_text(def, false),
        def.description,
    );
}

proof fn lemma_class_property(def: ClassPropertyDefView)
    ensures
        same_text(class_property_block(true)(def), class_property_block(false)(def)),
{
    lemma_accessibility(def.accessibility);
    lemma_name(def.name);
    lemma_same_text_add(
        accessibility_text(def.accessibility, true),
        accessibility_text(def.accessibility, false),
        name_text(def.name, true),
        name_text(def.name, false),
    );
    lemma_then_same(
        accessibility_text(def.accessibility, true) + name_text(def.name, true),
        accessibility_text(def.accessibility, false) + name_text(def.name, false),
        type_suffix(def.ts_type),
    );
    lemma_member(
        decorator_lines(def.decorators, 1),
        class_property_text(def, true),
        class_property_text(def, false),
        def.description,
    );
}

proof fn lemma_class_method_text(def: ClassMethodDefView)
    ensures
        same_text(class_method_text(def, true), class_method_text(def, false)),
{
    let f = def.function_def;
    lemma_accessibility(def.accessibility);
    lemma_modifier(f.is_async, "async "@);
    lemma_same_text_add(
        accessibility_text(def.accessibility, true),
        accessibility_text(def.accessibility, false),
        modifier(f.is_async, "async "@, true),
        modifier(f.is_async, "async "@, false),
    );
    let col1 = accessibility_text(def.accessibility, true) + modifier(f.is_async, "async "@, true);
    let bare1 = accessibility_text(def.accessibility, false) + modifier(
        f.is_async,
        "async "@,
        false,
    );
    lemma_modifier(f.is_generator, "*"@);
    lemma_same_text_add(
        col1,
        bare1,
        modifier(f.is_generator, "*"@, true),
        modifier(f.is_generator, "*"@, false),
    );
    let col2 = col1 + modifier(f.is_generator, "*"@, true);
    let bare2 = bare1 + modifier(f.is_generator, "*"@, false);
    lemma_name(def.name);
    lemma_same_text_add(col2, bare2, name_text(def.name, true), name_text(def.name, false));
    lemma_then_same(
        col2 + name_text(def.name, true),
        bare2 + name_text(def.name, false),
        callable_text(f.type_params, f.params, f.return_type),
    );
}

proof fn lemma_class_method(def: ClassMethodDefView)
    ensures
        same_text(class_method_block(true)(def), class_method_block(false)(def)),
{
    lemma_class_method_text(def);
    lemma_member(
        decorator_lines(def.function_def.decorators, 1),
        class_method_text(def, true),
        class_method_text(def, false),
        def.description,
    );
}

proof fn lemma_enum_member(def: EnumMemberDefView)
    ensures
        same_text(enum_member_block(true)(def), enum_member_block(false)(def)),
{
    lemma_name(def.name);
    lemma_member(
        Seq::empty(),
        name_text(def.name, true),
        name_text(def.name, false),
        def.description,
    );
}

proof fn lemma_interface_property(def: InterfacePropertyDefView)
    ensures
        same_text(interface_property_block(true)(def), interface_property_block(false)(def)),
{
    lemma_name(def.name);
    lemma_then_same(
        name_text(def.name, true),
        name_text(def.name, false),
        type_suffix(def.ts_type),
    );
    lemma_member(
        Seq::empty(),
        interface_property_text(def, true),
        interface_property_text(def, false),
        def.description,
    );
}

proof fn lemma_interface_method(def: InterfaceMethodDefView)
    ensures
        same_text(interface_method_block(true)(def), interface_method_block(false)(def)),
{
    lemma_name(def.name);
    lemma_then_same(
        name_text(def.name, true),
        name_text(def.name, false),
        callable_text(def.type_params, def.params, def.return_type),
    );
    lemma_member(
        Seq::empty(),
        interface_method_text(def, true),
        interface_method_text(def, false),
        def.description,
    );
}

proof fn lemma_class_body(def: ClassDefView, include_private: bool)
    ensures
        same_text(class_body(def, true, include_private), class_body(def, false, include_private)),
{
    let properties = def.properties.filter(property_shown(include_private));
    let methods = def.methods.filter(method_shown(include_private));
    let signatures = blocks(def.index_signatures, index_signature_block());
    assert forall|i: int| 0 <= i < def.constructors.len() implies same_text(
        #[trigger] constructor_block(true)(def.constructors[i]),
        constructor_block(false)(def.constructors[i]),
    ) by {
        lemma_constructor(def.constructors[i]);
    }
    lemma_blocks(def.constructors, constructor_block(true), constructor_block(false));
    assert forall|i: int| 0 <= i < properties.len() implies same_text(
        #[trigger] class_property_block(true)(properties[i]),
        class_property_block(false)(properties[i]),
    ) by {
        lemma_class_property(properties[i]);
    }
    lemma_blocks(properties, class_property_block(true), class_property_block(false));
    assert forall|i: int| 0 <= i < methods.len() implies same_text(
        #[trigger] class_method_block(true)(methods[i]),
        class_method_block(false)(methods[i]),
    ) by {
        lemma_class_method(methods[i]);
    }
    lemma_blocks(methods, class_method_block(true), class_method_block(false));
    let col1 = blocks(def.constructors, constructor_block(true));
    let bare1 = blocks(def.constructors, constructor_block(false));
    lemma_same_text_add(
        col1,
        bare1,
        blocks(properties, class_property_block(true)),
        blocks(properties, class_property_block(false)),
    );
    let col2 = col1 + blocks(properties, class_property_block(true));
    let bare2 = bare1 + blocks(properties, class_property_block(false));
    lemma_then_same(col2, bare2, signatures);
    lemma_same_text_add(
        col2 + signatures,
        bare2 + signatures,
        blocks(methods, class_method_block(true)),
        blocks(methods, class_method_block(false)),
    );
    lemma_then_same(
        col2 + signatures + blocks(methods, class_method_block(true)),
        bare2 + signatures + blocks(methods, class_method_block(false)),
        "\n"@,
    );
}

proof fn lemma_enum_body(def: EnumDefView)
    ensures
        same_text(enum_body(def, true), enum_body(def, false)),
{
    assert forall|i: int| 0 <= i < def.members.len() implies same_text(
        #[trigger] enum_member_block(true)(def.members[i]),
        enum_member_block(false)(def.members[i]),
    ) by {
        lemma_enum_member(def.members[i]);
    }
    lemma_blocks(def.members, enum_member_block(true), enum_member_block(false));
    lemma_then_same(
        blocks(def.members, enum_member_block(true)),
        blocks(def.members, enum_member_block(false)),
        "\n"@,
    );
}

proof fn lemma_interface_body(def: InterfaceDefView)
    ensures
        same_text(interface_body(def, true), interface_body(def, false)),
{
    let signatures = blocks(def.index_signatures, index_signature_block());
    assert forall|i: int| 0 <= i < def.properties.len() implies same_text(
        #[trigger] interface_property_block(true)(def.properties[i]),
        interface_property_block(false)(def.properties[i]),
    ) by {
        lemma_interface_property(def.properties[i]);
    }
    lemma_blocks(def.properties, interface_property_block(true), interface_property_block(false));
    assert forall|i: int| 0 <= i < def.methods.len() implies same_text(
        #[trigger] interface_method_block(true)(def.methods[i]),
        interface_method_block(false)(def.methods[i]),
    ) by {
        lemma_interface_method(def.methods[i]);
    }
    lemma_blocks(def.methods, interface_method_block(true), interface_method_block(false));
    let col1 = blocks(def.properties, interface_property_block(true));
    let bare1 = blocks(def.properties, interface_property_block(false));
    lemma_same_text_add(
        col1,
        bare1,
        blocks(def.methods, interface_method_block(true)),
        blocks(def.methods, interface_method_block(false)),
    );
    let col2 = col1 + blocks(def.methods, interface_method_block(true));
    let bare2 = bare1 + blocks(def.methods, interface_method_block(false));
    lemma_then_same(col2, bare2, signatures);
    lemma_then_same(col2 + signatures, bare2 + signatures, "\n"@);
}

proof fn lemma_namespace_body(def: NamespaceDefView)
    ensures
        same_text(namespace_body(def, true), namespace_body(def, false)),
{
    let order = display_order(def.elements);
    let colored = namespace_element_block(def.elements, true);
    let plain = namespace_element_block(def.elements, false);
    assert forall|i: int| 0 <= i < order.len() implies same_text(
        #[trigger] colored(order[i]),
        plain(order[i]),
    ) by {
        let element = def.elements[order[i]];
        lemma_signature(element, 1);
        lemma_description(element.description, 2);
        lemma_same_text_add(
            signature_text(element, true, 1),
            signature_text(element, false, 1),
            description_text(element.description, true, 2),
            description_text(element.description, false, 2),
        );
    }
    lemma_blocks(order, colored, plain);
    lemma_then_same(blocks(order, colored), blocks(order, plain), "\n"@);
}

proof fn lemma_body(node: DocNodeView, include_private: bool)
    ensures
        same_text(body_text(node, true, include_private), body_text(node, false, include_private)),
{
    match node.def {
        DocNodeDefView::Class(def) => lemma_class_body(def, include_private),
        DocNodeDefView::Enum(def) => lemma_enum_body(def),
        DocNodeDefView::Interface(def) => lemma_interface_body(def),
        DocNodeDefView::Namespace(def) => lemma_namespace_body(def),
        _ => lemma_same_text_refl(Seq::empty()),
    }
}

proof fn lemma_entry(node: DocNodeView, include_private: bool, depth: nat)
    ensures
        same_text(
            entry_text(node, true, include_private, depth),
            entry_text(node, false, include_private, depth),
        ),
{
    lemma_location(node.location);
    lemma_signature(node, depth);
    lemma_same_text_add(
        location_text(node.location, true),
        location_text(node.location, false),
        signature_text(node, true, depth),
        signature_text(node, false, depth),
    );
    let col1 = location_text(node.location, true) + signature_text(node, true, depth);
    let bare1 = location_text(node.location, false) + signature_text(node, false, depth);
    lemma_description(node.description, depth + 1);
    lemma_same_text_add(
        col1,
        bare1,
        description_text(node.description, true, depth + 1),
        description_text(node.description, false, depth + 1),
    );
    let col2 = col1 + description_text(node.description, true, depth + 1);
    let bare2 = bare1 + description_text(node.description, false, depth + 1);
    lemma_then_same(col2, bare2, "\n"@);
    lemma_body(node, include_private);
    lemma_same_text_add(
        col2 + "\n"@,
        bare2 + "\n"@,
        body_text(node, true, include_private),
        body_text(node, false, include_private),
    );
}

/// The coloured report on a list of siblings, without its escape
/// sequences, is the report without colour; and the coloured report ends
/// outside every sequence. This is claimed where the report without colour
/// holds no escape character.
pub proof fn lemma_color_only_adds_escapes(
    nodes: Seq<DocNodeView>,
    include_private: bool,
    depth: nat,
)
    requires
        escape_free(report(nodes, false, include_private, depth)),
    ensures
        strip_ansi(report(nodes, true, include_private, depth)) == report(
            nodes,
            false,
            include_private,
            depth,
        ),
        !in_escape(report(nodes, true, include_private, depth)),
{
    let order = display_order(nodes);
    let colored = entry_block(nodes, true, include_private, depth);
    let plain = entry_block(nodes, false, include_private, depth);
    assert forall|i: int| 0 <= i < order.len() implies same_text(
        #[trigger] colored(order[i]),
        plain(order[i]),
    ) by {
        lemma_entry(nodes[order[i]], include_private, depth);
    }
    lemma_blocks(order, colored, plain);
}

/// Two printers over the same nodes that differ in colour alone say the
/// same: the one with colour, without its escape sequences, is the other.
pub proof fn lemma_printer_color_only_adds_escapes(colored: DocPrinterView, plain: DocPrinterView)
    requires
        colored.use_color,
        !plain.use_color,
        colored.nodes == plain.nodes,
        colored.include_private == plain.include_private,
        escape_free(plain.report()),
    ensures
        strip_ansi(colored.report()) == plain.report(),
{
    lemma_color_only_adds_escapes(plain.nodes, plain.include_private, 0);
}

} // verus!
