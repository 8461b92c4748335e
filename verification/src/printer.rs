//! The printer: it walks a list of nodes and appends the report to a
//! `String`.

use crate::layout::{
    body_text, class_method_block, class_method_text, class_property_block, class_property_text,
    constructor_block, constructor_text, description_line, description_text, entry_block,
    entry_text, enum_member_block, enum_signature, index_signature_block, index_signature_text,
    interface_method_block, interface_method_text, interface_property_block,
    interface_property_text, is_shown, location_text, member_line, method_shown, name_text,
    namespace_element_block, namespace_signature, property_shown, report, signature_text,
};
use crate::node::{
    Accessibility, ClassConstructorDef, ClassConstructorDefView, ClassMethodDef, ClassPropertyDef,
    DocNode, DocNodeDef, DocNodeKind, DocNodeView, EnumMemberDef, EnumMemberDefView,
    IndexSignatureDef, IndexSignatureDefView, InterfaceMethodDef, InterfaceMethodDefView,
    InterfacePropertyDef, InterfacePropertyDefView, Location, VarDeclKind,
};
use crate::order::{is_display_order, kind_rank, lemma_display_order, places, rank_of, sorted_order};
use crate::style::{Style, write_painted_range, write_style_off, write_style_on};
use crate::text::{
    blocks, chars_of, find_line_feed, lemma_blocks_empty, lemma_blocks_next,
    lemma_filtered_blocks_empty, lemma_filtered_blocks_next, lemma_lines_next, lines,
    write_decimal, write_indent,
};
use crate::writer::{
    write_callable, write_class_heritage, write_class_method, write_class_property,
    write_declaration_head, write_decorators, write_keyword, write_modifier, write_name,
    write_params, write_type_list, write_type_params, write_type_suffix,
};
use vstd::prelude::*;

verus! {

/// A printer over a list of nodes, with the settings of one pass.
pub struct DocPrinter<'a> {
    doc_nodes: &'a [DocNode],
    use_color: bool,
    private: bool,
}

/// What a printer holds: the nodes of the root list and the two settings.
pub struct DocPrinterView {
    pub nodes: Seq<DocNodeView>,
    pub use_color: bool,
    pub include_private: bool,
}

impl<'a> View for DocPrinter<'a> {
    type V = DocPrinterView;

    closed spec fn view(&self) -> DocPrinterView {
        DocPrinterView {
            nodes: self.doc_nodes.deep_view(),
            use_color: self.use_color,
            include_private: self.private,
        }
    }
}

impl DocPrinterView {
    /// The whole report of the printer.
    pub open spec fn report(self) -> Seq<char> {
        report(self.nodes, self.use_color, self.include_private, 0)
    }
}

/// The report is a function of the nodes and of the two settings: two
/// passes over the same nodes with the same settings give the same text.
pub proof fn lemma_same_tree_same_report(first: DocPrinterView, second: DocPrinterView)
    requires
        first.nodes =~= second.nodes,
        first.use_color == second.use_color,
        first.include_private == second.include_private,
    ensures
        first.report() == second.report(),
{
}

impl<'a> DocPrinter<'a> {
    /// A printer over `doc_nodes`. `use_color` switches the escape sequences
    /// on, and `private` lets private members of classes be shown.
    pub fn new(doc_nodes: &'a [DocNode], use_color: bool, private: bool) -> (printer: DocPrinter<
        'a,
    >)
        ensures
            printer@ == (DocPrinterView {
                nodes: doc_nodes.deep_view(),
                use_color,
                include_private: private,
            }),
    {
        DocPrinter { doc_nodes, use_color, private }
    }

    /// Appends the report on the printer's nodes to `w`.
    pub fn format(&self, w: &mut String)
        ensures
            final(w)@ == old(w)@ + self@.report(),
    {
        self.format_(w, self.doc_nodes, 0)
    }

    /// The report as a text of its own.
    pub fn to_string(&self) -> (text: String)
        ensures
            text@ == self@.report(),
    {
        let mut text = String::new();
        self.format(&mut text);
        text
    }

    /// Appends the report on the siblings `doc_nodes`, their headers
    /// `indent` units deep.
    pub fn format_(&self, w: &mut String, doc_nodes: &[DocNode], indent: usize)
        requires
            indent < usize::MAX,
        ensures
            final(w)@ == old(w)@ + report(
                doc_nodes.deep_view(),
                self@.use_color,
                self@.include_private,
                indent as nat,
            ),
    {
        let ghost views = doc_nodes.deep_view();
        let ghost f = entry_block(views, self@.use_color, self@.include_private, indent as nat);
        let sorted = sorted_order(doc_nodes);
        let ghost order = places(sorted@);
        proof {
            lemma_display_order(views);
            lemma_blocks_empty(f);
            assert(order.take(0) == Seq::<int>::empty());
        }
        let mut i: usize = 0;
        while i < sorted.len()
            invariant
                i <= sorted.len(),
                indent < usize::MAX,
                views == doc_nodes.deep_view(),
                order == places(sorted@),
                is_display_order(views, order),
                f == entry_block(views, self@.use_color, self@.include_private, indent as nat),
                w@ == old(w)@ + blocks(order.take(i as int), f),
            decreases sorted.len() - i,
        {
            proof {
                lemma_blocks_next(order, f, i as int);
                assert(order[i as int] == sorted@[i as int]);
                assert(0 <= order[i as int] < views.len());
            }
            let node = &doc_nodes[sorted[i]];
            assert(node@ == views[order[i as int]]);
            self.format_entry(w, node, indent);
            i = i + 1;
        }
        proof {
            assert(order.take(sorted.len() as int) == order);
        }
    }

    /// Appends what the report says of one node: where it stands, its
    /// header, its description, an empty line and its body.
    pub fn format_entry(&self, w: &mut String, node: &DocNode, indent: usize)
        requires
            indent < usize::MAX,
        ensures
            final(w)@ == old(w)@ + entry_text(
                node@,
                self@.use_color,
                self@.include_private,
                indent as nat,
            ),
    {
        self.format_location(w, &node.location);
        self.format_signature(w, node, indent);
        self.format_jsdoc(w, &node.description, indent + 1);
        w.append("\n");
        self.format_body(w, node);
    }

    /// Appends the body of a node, where its kind has one.
    pub fn format_body(&self, w: &mut String, node: &DocNode)
        ensures
            final(w)@ == old(w)@ + body_text(node@, self@.use_color, self@.include_private),
    {
        match node.kind() {
            DocNodeKind::Class => self.format_class(w, node),
            DocNodeKind::Enum => self.format_enum(w, node),
            DocNodeKind::Interface => self.format_interface(w, node),
            DocNodeKind::Namespace => self.format_namespace(w, node),
            _ => {},
        }
    }

    /// The rank of a kind. A sibling of lower rank is shown first.
    pub fn kind_order(&self, kind: &DocNodeKind) -> (rank: i64)
        ensures
            rank == kind_rank(*kind),
    {
        rank_of(*kind)
    }

    /// Appends the line that says where a declaration stands, and the
    /// empty line behind it.
    pub fn format_location(&self, w: &mut String, location: &Location)
        ensures
            final(w)@ == old(w)@ + location_text(location@, self@.use_color),
    {
        if self.use_color {
            write_style_on(w, Style::Location);
        }
        w.append("Defined in ");
        w.append(location.filename.as_str());
        w.append(":");
        write_decimal(w, location.line);
        w.append(":");
        write_decimal(w, location.col);
        w.append("\n\n");
        if self.use_color {
            write_style_off(w);
        }
    }

    /// Appends the header of a node, by its kind.
    pub fn format_signature(&self, w: &mut String, node: &DocNode, indent: usize)
        ensures
            final(w)@ == old(w)@ + signature_text(node@, self@.use_color, indent as nat),
    {
        match node.kind() {
            DocNodeKind::ModuleDoc => self.format_module_doc(w, node, indent),
            DocNodeKind::Function => self.format_function_signature(w, node, indent),
            DocNodeKind::Variable => self.format_variable_signature(w, node, indent),
            DocNodeKind::Class => self.format_class_signature(w, node, indent),
            DocNodeKind::Enum => self.format_enum_signature(w, node, indent),
            DocNodeKind::Interface => self.format_interface_signature(w, node, indent),
            DocNodeKind::TypeAlias => self.format_type_alias_signature(w, node, indent),
            DocNodeKind::Namespace => self.format_namespace_signature(w, node, indent),
            DocNodeKind::Import => {},
        }
    }

    /// Appends a description, each of its lines `indent` units deep.
    pub fn format_jsdoc(&self, w: &mut String, js_doc: &Option<String>, indent: usize)
        ensures
            final(w)@ == old(w)@ + description_text(
                js_doc.deep_view(),
                self@.use_color,
                indent as nat,
            ),
    {
        match js_doc {
            None => {},
            Some(doc) => {
                let color = self.use_color;
                let chars = chars_of(doc.as_str());
                let ghost text = chars@;
                let ghost f = description_line(color, indent as nat);
                proof {
                    assert(text.skip(0) == text);
                }
                let mut pos: usize = 0;
                while pos < chars.len()
                    invariant
                        pos <= chars.len(),
                        text == chars@,
                        f == description_line(color, indent as nat),
                        old(w)@ + blocks(lines(text), f) == w@ + blocks(
                            lines(text.skip(pos as int)),
                            f,
                        ),
                    decreases chars.len() - pos,
                {
                    let feed = find_line_feed(&chars, pos);
                    proof {
                        lemma_lines_next(text, pos as int, feed as int, f);
                    }
                    let ended = feed < chars.len();
                    let end = if ended && feed > pos && chars[feed - 1] == '\r' {
                        feed - 1
                    } else {
                        feed
                    };
                    let ghost before = w@;
                    write_indent(w, indent);
                    write_painted_range(w, Style::Description, &chars, pos, end, color);
                    w.append("\n");
                    assert(w@ == before + f(text.subrange(pos as int, end as int)));
                    pos = if ended {
                        feed + 1
                    } else {
                        feed
                    };
                }
                proof {
                    assert(lines(text.skip(pos as int)) == Seq::<Seq<char>>::empty());
                    lemma_blocks_empty(f);
                }
            },
        }
    }

    /// A module's documentation has no header: nothing is appended.
    pub fn format_module_doc(&self, w: &mut String, node: &DocNode, indent: usize)
        ensures
            final(w)@ == old(w)@,
    {
    }

    /// Appends `[async ]function[*] Name[<TypeParams>](Params)[: ReturnType]`.
    pub fn format_function_signature(&self, w: &mut String, node: &DocNode, indent: usize)
        requires
            node@.def is Function,
        ensures
            final(w)@ == old(w)@ + signature_text(node@, self@.use_color, indent as nat),
    {
        match &node.def {
            DocNodeDef::Function(def) => {
                let color = self.use_color;
                write_indent(w, indent);
                write_modifier(w, def.is_async, "async ", color);
                write_keyword(w, "function", color);
                write_modifier(w, def.is_generator, "*", color);
                w.append(" ");
                write_name(w, &node.name, color);
                write_callable(w, &def.type_params, &def.params, &def.return_type);
                w.append("\n");
            },
            _ => {},
        }
    }

    /// Appends `kind Name[: Type]`.
    pub fn format_variable_signature(&self, w: &mut String, node: &DocNode, indent: usize)
        requires
            node@.def is Variable,
        ensures
            final(w)@ == old(w)@ + signature_text(node@, self@.use_color, indent as nat),
    {
        match &node.def {
            DocNodeDef::Variable(def) => {
                let color = self.use_color;
                write_indent(w, indent);
                match def.kind {
                    VarDeclKind::Const => write_declaration_head(w, "const", &node.name, color),
                    VarDeclKind::Let => write_declaration_head(w, "let", &node.name, color),
                    VarDeclKind::Var => write_declaration_head(w, "var", &node.name, color),
                }
                write_type_suffix(w, &def.ts_type);
                w.append("\n");
            },
            _ => {},
        }
    }

    /// Appends the decorators of a class, each on its line, and the line
    /// `[abstract ]class Name[<TypeParams>][ extends Super[<Args>]][ implements I1, I2]`.
    pub fn format_class_signature(&self, w: &mut String, node: &DocNode, indent: usize)
        requires
            node@.def is Class,
        ensures
            final(w)@ == old(w)@ + signature_text(node@, self@.use_color, indent as nat),
    {
        match &node.def {
            DocNodeDef::Class(def) => {
                let color = self.use_color;
                write_decorators(w, &def.decorators, indent);
                write_indent(w, indent);
                write_modifier(w, def.is_abstract, "abstract ", color);
                write_declaration_head(w, "class", &node.name, color);
                write_type_params(w, &def.type_params);
                write_class_heritage(w, def, color);
                w.append("\n");
            },
            _ => {},
        }
    }

    /// Appends `enum Name`.
    pub fn format_enum_signature(&self, w: &mut String, node: &DocNode, indent: usize)
        ensures
            final(w)@ == old(w)@ + enum_signature(node@.name, self@.use_color, indent as nat),
    {
        write_indent(w, indent);
        write_declaration_head(w, "enum", &node.name, self.use_color);
        w.append("\n");
    }

    /// Appends `interface Name[<TypeParams>][ extends E1, E2]`.
    pub fn format_interface_signature(&self, w: &mut String, node: &DocNode, indent: usize)
        requires
            node@.def is Interface,
        ensures
            final(w)@ == old(w)@ + signature_text(node@, self@.use_color, indent as nat),
    {
        match &node.def {
            DocNodeDef::Interface(def) => {
                let color = self.use_color;
                write_indent(w, indent);
                write_declaration_head(w, "interface", &node.name, color);
                write_type_params(w, &def.type_params);
                write_type_list(w, "extends", &def.extends, color);
                w.append("\n");
            },
            _ => {},
        }
    }

    /// Appends `type Name[<TypeParams>] = AliasedType`.
    pub fn format_type_alias_signature(&self, w: &mut String, node: &DocNode, indent: usize)
        requires
            node@.def is TypeAlias,
        ensures
            final(w)@ == old(w)@ + signature_text(node@, self@.use_color, indent as nat),
    {
        match &node.def {
            DocNodeDef::TypeAlias(def) => {
                let color = self.use_color;
                write_indent(w, indent);
                write_declaration_head(w, "type", &node.name, color);
                write_type_params(w, &def.type_params);
                w.append(" = ");
                w.append(def.ts_type.as_str());
                w.append("\n");
            },
            _ => {},
        }
    }

    /// Appends `namespace Name`.
    pub fn format_namespace_signature(&self, w: &mut String, node: &DocNode, indent: usize)
        ensures
            final(w)@ == old(w)@ + namespace_signature(
                node@.name,
                self@.use_color,
                indent as nat,
            ),
    {
        write_indent(w, indent);
        write_declaration_head(w, "namespace", &node.name, self.use_color);
        w.append("\n");
    }

    /// Appends a constructor: its line and its description.
    pub fn format_constructor(&self, w: &mut String, member: &ClassConstructorDef)
        ensures
            final(w)@ == old(w)@ + constructor_block(self@.use_color)(member@),
    {
        let no_type_params: Vec<String> = Vec::new();
        let no_return_type: Option<String> = None;
        assert(no_type_params.deep_view() == Seq::<Seq<char>>::empty());
        let ghost before = w@;
        write_indent(w, 1);
        write_keyword(w, "constructor", self.use_color);
        write_callable(w, &no_type_params, &member.params, &no_return_type);
        w.append("\n");
        assert(w@ == before + member_line(
            constructor_text(member@, self@.use_color),
        ));
        self.format_jsdoc(w, &member.description, 2);
    }

    /// Appends a property of a class: its decorators, its line and its
    /// description.
    pub fn format_class_property(&self, w: &mut String, member: &ClassPropertyDef)
        ensures
            final(w)@ == old(w)@ + class_property_block(self@.use_color)(member@),
    {
        let color = self.use_color;
        write_decorators(w, &member.decorators, 1);
        let ghost before = w@;
        write_indent(w, 1);
        write_class_property(w, member, color);
        w.append("\n");
        assert(w@ == before + member_line(
            class_property_text(member@, color),
        ));
        self.format_jsdoc(w, &member.description, 2);
    }

    /// Appends a method of a class: its decorators, its line and its
    /// description.
    pub fn format_class_method(&self, w: &mut String, member: &ClassMethodDef)
        ensures
            final(w)@ == old(w)@ + class_method_block(self@.use_color)(member@),
    {
        let color = self.use_color;
        write_decorators(w, &member.function_def.decorators, 1);
        let ghost before = w@;
        write_indent(w, 1);
        write_class_method(w, member, color);
        w.append("\n");
        assert(w@ == before + member_line(
            class_method_text(member@, color),
        ));
        self.format_jsdoc(w, &member.description, 2);
    }

    /// Appends an index signature on its line.
    pub fn format_index_signature(&self, w: &mut String, member: &IndexSignatureDef)
        ensures
            final(w)@ == old(w)@ + index_signature_block()(member@),
    {
        let ghost before = w@;
        write_indent(w, 1);
        w.append("[");
        write_params(w, &member.params);
        w.append("]");
        write_type_suffix(w, &member.ts_type);
        w.append("\n");
        assert(w@ == before + member_line(
            index_signature_text(member@),
        ));
    }

    /// Appends a member of an enum: its name on a line, and its description.
    pub fn format_enum_member(&self, w: &mut String, member: &EnumMemberDef)
        ensures
            final(w)@ == old(w)@ + enum_member_block(self@.use_color)(member@),
    {
        let ghost before = w@;
        write_indent(w, 1);
        write_name(w, &member.name, self.use_color);
        w.append("\n");
        assert(w@ == before + member_line(
            name_text(member@.name, self@.use_color),
        ));
        self.format_jsdoc(w, &member.description, 2);
    }

    /// Appends a property of an interface: its line and its description.
    pub fn format_interface_property(&self, w: &mut String, member: &InterfacePropertyDef)
        ensures
            final(w)@ == old(w)@ + interface_property_block(self@.use_color)(member@),
    {
        let ghost before = w@;
        write_indent(w, 1);
        write_name(w, &member.name, self.use_color);
        write_type_suffix(w, &member.ts_type);
        w.append("\n");
        assert(w@ == before + member_line(
            interface_property_text(member@, self@.use_color),
        ));
        self.format_jsdoc(w, &member.description, 2);
    }

    /// Appends a method of an interface: its line and its description.
    pub fn format_interface_method(&self, w: &mut String, member: &InterfaceMethodDef)
        ensures
            final(w)@ == old(w)@ + interface_method_block(self@.use_color)(member@),
    {
        let ghost before = w@;
        write_indent(w, 1);
        write_name(w, &member.name, self.use_color);
        write_callable(w, &member.type_params, &member.params, &member.return_type);
        w.append("\n");
        assert(w@ == before + member_line(
            interface_method_text(member@, self@.use_color),
        ));
        self.format_jsdoc(w, &member.description, 2);
    }

    /// Appends the constructors of a class.
    pub fn format_constructors(&self, w: &mut String, members: &Vec<ClassConstructorDef>)
        ensures
            final(w)@ == old(w)@ + blocks(
                members.deep_view(),
                constructor_block(self@.use_color),
            ),
    {
        let ghost items = members.deep_view();
        let ghost f = constructor_block(self@.use_color);
        proof {
            lemma_blocks_empty(f);
            assert(items.take(0) == Seq::<ClassConstructorDefView>::empty());
        }
        let mut i: usize = 0;
        while i < members.len()
            invariant
                i <= members.len(),
                items == members.deep_view(),
                f == constructor_block(self@.use_color),
                w@ == old(w)@ + blocks(items.take(i as int), f),
            decreases members.len() - i,
        {
            proof {
                lemma_blocks_next(items, f, i as int);
            }
            self.format_constructor(w, &members[i]);
            i = i + 1;
        }
        proof {
            assert(items.take(members.len() as int) == items);
        }
    }

    /// Appends the properties of a class that are shown.
    pub fn format_class_properties(&self, w: &mut String, members: &Vec<ClassPropertyDef>)
        ensures
            final(w)@ == old(w)@ + blocks(
                members.deep_view().filter(property_shown(self@.include_private)),
                class_property_block(self@.use_color),
            ),
    {
        let ghost items = members.deep_view();
        let ghost shown = property_shown(self@.include_private);
        let ghost f = class_property_block(self@.use_color);
        proof {
            lemma_filtered_blocks_empty(items, shown, f);
        }
        let mut i: usize = 0;
        while i < members.len()
            invariant
                i <= members.len(),
                items == members.deep_view(),
                shown == property_shown(self@.include_private),
                f == class_property_block(self@.use_color),
                w@ == old(w)@ + blocks(items.take(i as int).filter(shown), f),
            decreases members.len() - i,
        {
            proof {
                lemma_filtered_blocks_next(items, shown, f, i as int);
            }
            let member = &members[i];
            if self.shows(member.accessibility) {
                self.format_class_property(w, member);
            }
            i = i + 1;
        }
        proof {
            assert(items.take(members.len() as int) == items);
        }
    }

    /// Appends the methods of a class that are shown.
    pub fn format_class_methods(&self, w: &mut String, members: &Vec<ClassMethodDef>)
        ensures
            final(w)@ == old(w)@ + blocks(
                members.deep_view().filter(method_shown(self@.include_private)),
                class_method_block(self@.use_color),
            ),
    {
        let ghost items = members.deep_view();
        let ghost shown = method_shown(self@.include_private);
        let ghost f = class_method_block(self@.use_color);
        proof {
            lemma_filtered_blocks_empty(items, shown, f);
        }
        let mut i: usize = 0;
        while i < members.len()
            invariant
                i <= members.len(),
                items == members.deep_view(),
                shown == method_shown(self@.include_private),
                f == class_method_block(self@.use_color),
                w@ == old(w)@ + blocks(items.take(i as int).filter(shown), f),
            decreases members.len() - i,
        {
            proof {
                lemma_filtered_blocks_next(items, shown, f, i as int);
            }
            let member = &members[i];
            if self.shows(member.accessibility) {
                self.format_class_method(w, member);
            }
            i = i + 1;
        }
        proof {
            assert(items.take(members.len() as int) == items);
        }
    }

    /// Whether a member of the given accessibility is shown in this pass.
    pub fn shows(&self, accessibility: Accessibility) -> (shown: bool)
        ensures
            shown == is_shown(accessibility, self@.include_private),
    {
        self.private || !matches!(accessibility, Accessibility::Private)
    }

    /// Appends the index signatures of a class or of an interface.
    pub fn format_index_signatures(&self, w: &mut String, members: &Vec<IndexSignatureDef>)
        ensures
            final(w)@ == old(w)@ + blocks(members.deep_view(), index_signature_block()),
    {
        let ghost items = members.deep_view();
        let ghost f = index_signature_block();
        proof {
            lemma_blocks_empty(f);
            assert(items.take(0) == Seq::<IndexSignatureDefView>::empty());
        }
        let mut i: usize = 0;
        while i < members.len()
            invariant
                i <= members.len(),
                items == members.deep_view(),
                f == index_signature_block(),
                w@ == old(w)@ + blocks(items.take(i as int), f),
            decreases members.len() - i,
        {
            proof {
                lemma_blocks_next(items, f, i as int);
            }
            self.format_index_signature(w, &members[i]);
            i = i + 1;
        }
        proof {
            assert(items.take(members.len() as int) == items);
        }
    }

    /// Appends the body of a class: its constructors, the properties that
    /// are shown, its index signatures, the methods that are shown, and an
    /// empty line.
    pub fn format_class(&self, w: &mut String, node: &DocNode)
        requires
            node@.def is Class,
        ensures
            final(w)@ == old(w)@ + body_text(node@, self@.use_color, self@.include_private),
    {
        match &node.def {
            DocNodeDef::Class(def) => {
                self.format_constructors(w, &def.constructors);
                self.format_class_properties(w, &def.properties);
                self.format_index_signatures(w, &def.index_signatures);
                self.format_class_methods(w, &def.methods);
                w.append("\n");
            },
            _ => {},
        }
    }

    /// Appends the body of an enum: its members, and an empty line.
    pub fn format_enum(&self, w: &mut String, node: &DocNode)
        requires
            node@.def is Enum,
        ensures
            final(w)@ == old(w)@ + body_text(node@, self@.use_color, self@.include_private),
    {
        match &node.def {
            DocNodeDef::Enum(def) => {
                let ghost start = w@;
                let ghost items = def@.members;
                let ghost f = enum_member_block(self@.use_color);
                proof {
                    lemma_blocks_empty(f);
                    assert(items.take(0) == Seq::<EnumMemberDefView>::empty());
                }
                let mut i: usize = 0;
                while i < def.members.len()
                    invariant
                        i <= def.members.len(),
                        items == def@.members,
                        f == enum_member_block(self@.use_color),
                        w@ == start + blocks(items.take(i as int), f),
                    decreases def.members.len() - i,
                {
                    proof {
                        lemma_blocks_next(items, f, i as int);
                    }
                    self.format_enum_member(w, &def.members[i]);
                    i = i + 1;
                }
                proof {
                    assert(items.take(def.members.len() as int) == items);
                }
                w.append("\n");
            },
            _ => {},
        }
    }

    /// Appends the properties of an interface.
    pub fn format_interface_properties(
        &self,
        w: &mut String,
        members: &Vec<InterfacePropertyDef>,
    )
        ensures
            final(w)@ == old(w)@ + blocks(
                members.deep_view(),
                interface_property_block(self@.use_color),
            ),
    {
        let ghost items = members.deep_view();
        let ghost f = interface_property_block(self@.use_color);
        proof {
            lemma_blocks_empty(f);
            assert(items.take(0) == Seq::<InterfacePropertyDefView>::empty());
        }
        let mut i: usize = 0;
        while i < members.len()
            invariant
                i <= members.len(),
                items == members.deep_view(),
                f == interface_property_block(self@.use_color),
                w@ == old(w)@ + blocks(items.take(i as int), f),
            decreases members.len() - i,
        {
            proof {
                lemma_blocks_next(items, f, i as int);
            }
            self.format_interface_property(w, &members[i]);
            i = i + 1;
        }
        proof {
            assert(items.take(members.len() as int) == items);
        }
    }

    /// Appends the methods of an interface.
    pub fn format_interface_methods(&self, w: &mut String, members: &Vec<InterfaceMethodDef>)
        ensures
            final(w)@ == old(w)@ + blocks(
                members.deep_view(),
                interface_method_block(self@.use_color),
            ),
    {
        let ghost items = members.deep_view();
        let ghost f = interface_method_block(self@.use_color);
        proof {
            lemma_blocks_empty(f);
            assert(items.take(0) == Seq::<InterfaceMethodDefView>::empty());
        }
        let mut i: usize = 0;
        while i < members.len()
            invariant
                i <= members.len(),
                items == members.deep_view(),
                f == interface_method_block(self@.use_color),
                w@ == old(w)@ + blocks(items.take(i as int), f),
            decreases members.len() - i,
        {
            proof {
                lemma_blocks_next(items, f, i as int);
            }
            self.format_interface_method(w, &members[i]);
            i = i + 1;
        }
        proof {
            assert(items.take(members.len() as int) == items);
        }
    }

    /// Appends the body of an interface: its properties, its methods, its
    /// index signatures, and an empty line.
    pub fn format_interface(&self, w: &mut String, node: &DocNode)
        requires
            node@.def is Interface,
        ensures
            final(w)@ == old(w)@ + body_text(node@, self@.use_color, self@.include_private),
    {
        match &node.def {
            DocNodeDef::Interface(def) => {
                self.format_interface_properties(w, &def.properties);
                self.format_interface_methods(w, &def.methods);
                self.format_index_signatures(w, &def.index_signatures);
                w.append("\n");
            },
            _ => {},
        }
    }

    /// Appends the body of a namespace: of each element the header and the
    /// description, in the order in which siblings are shown, and an empty
    /// line. The bodies of the elements are left out.
    pub fn format_namespace(&self, w: &mut String, node: &DocNode)
        requires
            node@.def is Namespace,
        ensures
            final(w)@ == old(w)@ + body_text(node@, self@.use_color, self@.include_private),
    {
        match &node.def {
            DocNodeDef::Namespace(def) => {
                let ghost start = w@;
                let elements = def.elements.as_slice();
                let ghost views = def@.elements;
                assert(views == elements.deep_view());
                let ghost f = namespace_element_block(views, self@.use_color);
                let sorted = sorted_order(elements);
                let ghost order = places(sorted@);
                proof {
                    lemma_display_order(views);
                    lemma_blocks_empty(f);
                    assert(order.take(0) == Seq::<int>::empty());
                }
                let mut i: usize = 0;
                while i < sorted.len()
                    invariant
                        i <= sorted.len(),
                        views == elements.deep_view(),
                        order == places(sorted@),
                        is_display_order(views, order),
                        f == namespace_element_block(views, self@.use_color),
                        w@ == start + blocks(order.take(i as int), f),
                    decreases sorted.len() - i,
                {
                    proof {
                        lemma_blocks_next(order, f, i as int);
                        assert(order[i as int] == sorted@[i as int]);
                        assert(0 <= order[i as int] < views.len());
                    }
                    let element = &elements[sorted[i]];
                    assert(element@ == views[order[i as int]]);
                    self.format_signature(w, element, 1);
                    self.format_jsdoc(w, &element.description, 2);
                    i = i + 1;
                }
                proof {
                    assert(order.take(sorted.len() as int) == order);
                }
                w.append("\n");
            },
            _ => {},
        }
    }
}

} // verus!
