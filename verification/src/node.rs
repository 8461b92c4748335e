//! The documentation tree: what a node says of a declaration, and the
//! mathematical view of each of its parts.
//!
//! The printer only reads a tree. Each type here is plain data with public
//! fields, and its view holds the same facts with texts as `Seq<char>` and
//! lists as `Seq`.

use vstd::prelude::*;

verus! {

/// Who may use a member of a class.
#[derive(Clone, Copy, Debug, PartialEq, Eq, Structural)]
pub enum Accessibility {
    Public,
    Protected,
    Private,
}

impl Accessibility {
    /// A member that states no accessibility is public.
    pub open spec fn spec_or_public(stated: Option<Accessibility>) -> Accessibility {
        match stated {
            Some(a) => a,
            None => Accessibility::Public,
        }
    }

    /// A member that states no accessibility is public.
    #[verifier::when_used_as_spec(spec_or_public)]
    pub fn or_public(stated: Option<Accessibility>) -> (a: Accessibility)
        ensures
            a == Self::spec_or_public(stated),
    {
        match stated {
            Some(a) => a,
            None => Accessibility::Public,
        }
    }
}

impl Default for Accessibility {
    fn default() -> (a: Accessibility)
        ensures
            a == Accessibility::Public,
    {
        Accessibility::Public
    }
}

/// The word that declares a variable.
#[derive(Clone, Copy, Debug, PartialEq, Eq, Structural)]
pub enum VarDeclKind {
    Const,
    Let,
    Var,
}

/// The nine kinds of node.
#[derive(Clone, Copy, Debug, PartialEq, Eq, Structural)]
pub enum DocNodeKind {
    ModuleDoc,
    Function,
    Variable,
    Class,
    Enum,
    Interface,
    TypeAlias,
    Namespace,
    Import,
}

/// Where a declaration stands in its source file.
#[derive(Clone, Debug, PartialEq, Eq)]
pub struct Location {
    pub filename: String,
    /// Counted from 1.
    pub line: usize,
    /// Counted from 1.
    pub col: usize,
}

/// The view of a `Location`.
pub struct LocationView {
    pub filename: Seq<char>,
    pub line: nat,
    pub col: nat,
}

impl View for Location {
    type V = LocationView;

    open spec fn view(&self) -> LocationView {
        LocationView { filename: self.filename@, line: self.line as nat, col: self.col as nat }
    }
}

/// One parameter of a function, a method, a constructor or an index
/// signature.
#[derive(Clone, Debug, PartialEq, Eq)]
pub struct ParamDef {
    pub name: String,
    pub ts_type: Option<String>,
    /// The parameter has a default value, so a caller may leave it out.
    pub has_default: bool,
}

/// The view of a `ParamDef`.
pub struct ParamDefView {
    pub name: Seq<char>,
    pub ts_type: Option<Seq<char>>,
    pub has_default: bool,
}

impl View for ParamDef {
    type V = ParamDefView;

    open spec fn view(&self) -> ParamDefView {
        ParamDefView {
            name: self.name@,
            ts_type: self.ts_type.deep_view(),
            has_default: self.has_default,
        }
    }
}

impl DeepView for ParamDef {
    type V = ParamDefView;

    open spec fn deep_view(&self) -> ParamDefView {
        self@
    }
}

/// What is known of a function, and of a method, whose definition holds one.
#[derive(Clone, Debug, PartialEq, Eq)]
pub struct FunctionDef {
    pub is_async: bool,
    pub is_generator: bool,
    pub type_params: Vec<String>,
    pub params: Vec<ParamDef>,
    pub return_type: Option<String>,
    /// Each decorator as the expression behind its at sign.
    pub decorators: Vec<String>,
}

/// The view of a `FunctionDef`.
pub struct FunctionDefView {
    pub is_async: bool,
    pub is_generator: bool,
    pub type_params: Seq<Seq<char>>,
    pub params: Seq<ParamDefView>,
    pub return_type: Option<Seq<char>>,
    pub decorators: Seq<Seq<char>>,
}

impl View for FunctionDef {
    type V = FunctionDefView;

    open spec fn view(&self) -> FunctionDefView {
        FunctionDefView {
            is_async: self.is_async,
            is_generator: self.is_generator,
            type_params: self.type_params.deep_view(),
            params: self.params.deep_view(),
            return_type: self.return_type.deep_view(),
            decorators: self.decorators.deep_view(),
        }
    }
}

/// What is known of a variable.
#[derive(Clone, Debug, PartialEq, Eq)]
pub struct VariableDef {
    pub kind: VarDeclKind,
    pub ts_type: Option<String>,
}

/// The view of a `VariableDef`.
pub struct VariableDefView {
    pub kind: VarDeclKind,
    pub ts_type: Option<Seq<char>>,
}

impl View for VariableDef {
    type V = VariableDefView;

    open spec fn view(&self) -> VariableDefView {
        VariableDefView { kind: self.kind, ts_type: self.ts_type.deep_view() }
    }
}

/// A constructor of a class.
#[derive(Clone, Debug, PartialEq, Eq)]
pub struct ClassConstructorDef {
    pub description: Option<String>,
    pub params: Vec<ParamDef>,
}

/// The view of a `ClassConstructorDef`.
pub struct ClassConstructorDefView {
    pub description: Option<Seq<char>>,
    pub params: Seq<ParamDefView>,
}

impl View for ClassConstructorDef {
    type V = ClassConstructorDefView;

    open spec fn view(&self) -> ClassConstructorDefView {
        ClassConstructorDefView {
            description: self.description.deep_view(),
            params: self.params.deep_view(),
        }
    }
}

impl DeepView for ClassConstructorDef {
    type V = ClassConstructorDefView;

    open spec fn deep_view(&self) -> ClassConstructorDefView {
        self@
    }
}

/// A property of a class.
#[derive(Clone, Debug, PartialEq, Eq)]
pub struct ClassPropertyDef {
    pub name: String,
    pub description: Option<String>,
    pub ts_type: Option<String>,
    pub accessibility: Accessibility,
    /// Each decorator as the expression behind its at sign.
    pub decorators: Vec<String>,
}

/// The view of a `ClassPropertyDef`.
pub struct ClassPropertyDefView {
    pub name: Seq<char>,
    pub description: Option<Seq<char>>,
    pub ts_type: Option<Seq<char>>,
    pub accessibility: Accessibility,
    pub decorators: Seq<Seq<char>>,
}

impl View for ClassPropertyDef {
    type V = ClassPropertyDefView;

    open spec fn view(&self) -> ClassPropertyDefView {
        ClassPropertyDefView {
            name: self.name@,
            description: self.description.deep_view(),
            ts_type: self.ts_type.deep_view(),
            accessibility: self.accessibility,
            decorators: self.decorators.deep_view(),
        }
    }
}

impl DeepView for ClassPropertyDef {
    type V = ClassPropertyDefView;

    open spec fn deep_view(&self) -> ClassPropertyDefView {
        self@
    }
}

/// An index signature of a class or of an interface.
#[derive(Clone, Debug, PartialEq, Eq)]
pub struct IndexSignatureDef {
    pub params: Vec<ParamDef>,
    pub ts_type: Option<String>,
}

/// The view of an `IndexSignatureDef`.
pub struct IndexSignatureDefView {
    pub params: Seq<ParamDefView>,
    pub ts_type: Option<Seq<char>>,
}

impl View for IndexSignatureDef {
    type V = IndexSignatureDefView;

    open spec fn view(&self) -> IndexSignatureDefView {
        IndexSignatureDefView {
            params: self.params.deep_view(),
            ts_type: self.ts_type.deep_view(),
        }
    }
}

impl DeepView for IndexSignatureDef {
    type V = IndexSignatureDefView;

    open spec fn deep_view(&self) -> IndexSignatureDefView {
        self@
    }
}

/// A method of a class.
#[derive(Clone, Debug, PartialEq, Eq)]
pub struct ClassMethodDef {
    pub name: String,
    pub description: Option<String>,
    pub accessibility: Accessibility,
    /// The method's decorators are those of its function.
    pub function_def: FunctionDef,
}

/// The view of a `ClassMethodDef`.
pub struct ClassMethodDefView {
    pub name: Seq<char>,
    pub description: Option<Seq<char>>,
    pub accessibility: Accessibility,
    pub function_def: FunctionDefView,
}

impl View for ClassMethodDef {
    type V = ClassMethodDefView;

    open spec fn view(&self) -> ClassMethodDefView {
        ClassMethodDefView {
            name: self.name@,
            description: self.description.deep_view(),
            accessibility: self.accessibility,
            function_def: self.function_def@,
        }
    }
}

impl DeepView for ClassMethodDef {
    type V = ClassMethodDefView;

    open spec fn deep_view(&self) -> ClassMethodDefView {
        self@
    }
}

/// What is known of a class. The members stand in the order in which they
/// were declared.
#[derive(Clone, Debug, PartialEq, Eq)]
pub struct ClassDef {
    pub is_abstract: bool,
    pub type_params: Vec<String>,
    pub extends: Option<String>,
    /// The type arguments handed to the class that this one extends.
    pub super_type_params: Vec<String>,
    pub implements: Vec<String>,
    /// Each decorator as the expression behind its at sign.
    pub decorators: Vec<String>,
    pub constructors: Vec<ClassConstructorDef>,
    pub properties: Vec<ClassPropertyDef>,
    pub index_signatures: Vec<IndexSignatureDef>,
    pub methods: Vec<ClassMethodDef>,
}

/// The view of a `ClassDef`.
pub struct ClassDefView {
    pub is_abstract: bool,
    pub type_params: Seq<Seq<char>>,
    pub extends: Option<Seq<char>>,
    pub super_type_params: Seq<Seq<char>>,
    pub implements: Seq<Seq<char>>,
    pub decorators: Seq<Seq<char>>,
    pub constructors: Seq<ClassConstructorDefView>,
    pub properties: Seq<ClassPropertyDefView>,
    pub index_signatures: Seq<IndexSignatureDefView>,
    pub methods: Seq<ClassMethodDefView>,
}

impl View for ClassDef {
    type V = ClassDefView;

    open spec fn view(&self) -> ClassDefView {
        ClassDefView {
            is_abstract: self.is_abstract,
            type_params: self.type_params.deep_view(),
            extends: self.extends.deep_view(),
            super_type_params: self.super_type_params.deep_view(),
            implements: self.implements.deep_view(),
            decorators: self.decorators.deep_view(),
            constructors: self.constructors.deep_view(),
            properties: self.properties.deep_view(),
            index_signatures: self.index_signatures.deep_view(),
            methods: self.methods.deep_view(),
        }
    }
}

/// A member of an enum.
#[derive(Clone, Debug, PartialEq, Eq)]
pub struct EnumMemberDef {
    pub name: String,
    pub description: Option<String>,
}

/// The view of an `EnumMemberDef`.
pub struct EnumMemberDefView {
    pub name: Seq<char>,
    pub description: Option<Seq<char>>,
}

impl View for EnumMemberDef {
    type V = EnumMemberDefView;

    open spec fn view(&self) -> EnumMemberDefView {
        EnumMemberDefView { name: self.name@, description: self.description.deep_view() }
    }
}

impl DeepView for EnumMemberDef {
    type V = EnumMemberDefView;

    open spec fn deep_view(&self) -> EnumMemberDefView {
        self@
    }
}

/// What is known of an enum.
#[derive(Clone, Debug, PartialEq, Eq)]
pub struct EnumDef {
    pub members: Vec<EnumMemberDef>,
}

/// The view of an `EnumDef`.
pub struct EnumDefView {
    pub members: Seq<EnumMemberDefView>,
}

impl View for EnumDef {
    type V = EnumDefView;

    open spec fn view(&self) -> EnumDefView {
        EnumDefView { members: self.members.deep_view() }
    }
}

/// A property of an interface.
#[derive(Clone, Debug, PartialEq, Eq)]
pub struct InterfacePropertyDef {
    pub name: String,
    pub description: Option<String>,
    pub ts_type: Option<String>,
}

/// The view of an `InterfacePropertyDef`.
pub struct InterfacePropertyDefView {
    pub name: Seq<char>,
    pub description: Option<Seq<char>>,
    pub ts_type: Option<Seq<char>>,
}

impl View for InterfacePropertyDef {
    type V = InterfacePropertyDefView;

    open spec fn view(&self) -> InterfacePropertyDefView {
        InterfacePropertyDefView {
            name: self.name@,
            description: self.description.deep_view(),
            ts_type: self.ts_type.deep_view(),
        }
    }
}

impl DeepView for InterfacePropertyDef {
    type V = InterfacePropertyDefView;

    open spec fn deep_view(&self) -> InterfacePropertyDefView {
        self@
    }
}

/// A method of an interface.
#[derive(Clone, Debug, PartialEq, Eq)]
pub struct InterfaceMethodDef {
    pub name: String,
    pub description: Option<String>,
    pub type_params: Vec<String>,
    pub params: Vec<ParamDef>,
    pub return_type: Option<String>,
}

/// The view of an `InterfaceMethodDef`.
pub struct InterfaceMethodDefView {
    pub name: Seq<char>,
    pub description: Option<Seq<char>>,
    pub type_params: Seq<Seq<char>>,
    pub params: Seq<ParamDefView>,
    pub return_type: Option<Seq<char>>,
}

impl View for InterfaceMethodDef {
    type V = InterfaceMethodDefView;

    open spec fn view(&self) -> InterfaceMethodDefView {
        InterfaceMethodDefView {
            name: self.name@,
            description: self.description.deep_view(),
            type_params: self.type_params.deep_view(),
            params: self.params.deep_view(),
            return_type: self.return_type.deep_view(),
        }
    }
}

impl DeepView for InterfaceMethodDef {
    type V = InterfaceMethodDefView;

    open spec fn deep_view(&self) -> InterfaceMethodDefView {
        self@
    }
}

/// What is known of an interface. Its members are all public.
#[derive(Clone, Debug, PartialEq, Eq)]
pub struct InterfaceDef {
    pub type_params: Vec<String>,
    pub extends: Vec<String>,
    pub properties: Vec<InterfacePropertyDef>,
    pub methods: Vec<InterfaceMethodDef>,
    pub index_signatures: Vec<IndexSignatureDef>,
}

/// The view of an `InterfaceDef`.
pub struct InterfaceDefView {
    pub type_params: Seq<Seq<char>>,
    pub extends: Seq<Seq<char>>,
    pub properties: Seq<InterfacePropertyDefView>,
    pub methods: Seq<InterfaceMethodDefView>,
    pub index_signatures: Seq<IndexSignatureDefView>,
}

impl View for InterfaceDef {
    type V = InterfaceDefView;

    open spec fn view(&self) -> InterfaceDefView {
        InterfaceDefView {
            type_params: self.type_params.deep_view(),
            extends: self.extends.deep_view(),
            properties: self.properties.deep_view(),
            methods: self.methods.deep_view(),
            index_signatures: self.index_signatures.deep_view(),
        }
    }
}

/// What is known of a type alias.
#[derive(Clone, Debug, PartialEq, Eq)]
pub struct TypeAliasDef {
    pub type_params: Vec<String>,
    pub ts_type: String,
}

/// The view of a `TypeAliasDef`.
pub struct TypeAliasDefView {
    pub type_params: Seq<Seq<char>>,
    pub ts_type: Seq<char>,
}

impl View for TypeAliasDef {
    type V = TypeAliasDefView;

    open spec fn view(&self) -> TypeAliasDefView {
        TypeAliasDefView { type_params: self.type_params.deep_view(), ts_type: self.ts_type@ }
    }
}

/// What is known of a namespace: the nodes that it holds.
#[derive(Debug, PartialEq, Eq)]
pub struct NamespaceDef {
    pub elements: Vec<DocNode>,
}

/// The view of a `NamespaceDef`.
pub struct NamespaceDefView {
    pub elements: Seq<DocNodeView>,
}

impl View for NamespaceDef {
    type V = NamespaceDefView;

    open spec fn view(&self) -> NamespaceDefView {
        NamespaceDefView { elements: nodes_view(self.elements) }
    }
}

/// What a node holds beside the name, place and description that every node
/// has: the definition that belongs to its kind, and nothing for the two
/// kinds that have none.
#[derive(Debug, PartialEq, Eq)]
pub enum DocNodeDef {
    ModuleDoc,
    Function(FunctionDef),
    Variable(VariableDef),
    Class(ClassDef),
    Enum(EnumDef),
    Interface(InterfaceDef),
    TypeAlias(TypeAliasDef),
    Namespace(NamespaceDef),
    Import,
}

/// The view of a `DocNodeDef`.
pub enum DocNodeDefView {
    ModuleDoc,
    Function(FunctionDefView),
    Variable(VariableDefView),
    Class(ClassDefView),
    Enum(EnumDefView),
    Interface(InterfaceDefView),
    TypeAlias(TypeAliasDefView),
    Namespace(NamespaceDefView),
    Import,
}

impl DocNodeDefView {
    pub open spec fn kind(self) -> DocNodeKind {
        match self {
            DocNodeDefView::ModuleDoc => DocNodeKind::ModuleDoc,
            DocNodeDefView::Function(_) => DocNodeKind::Function,
            DocNodeDefView::Variable(_) => DocNodeKind::Variable,
            DocNodeDefView::Class(_) => DocNodeKind::Class,
            DocNodeDefView::Enum(_) => DocNodeKind::Enum,
            DocNodeDefView::Interface(_) => DocNodeKind::Interface,
            DocNodeDefView::TypeAlias(_) => DocNodeKind::TypeAlias,
            DocNodeDefView::Namespace(_) => DocNodeKind::Namespace,
            DocNodeDefView::Import => DocNodeKind::Import,
        }
    }
}

impl View for DocNodeDef {
    type V = DocNodeDefView;

    open spec fn view(&self) -> DocNodeDefView {
        def_view(*self)
    }
}

/// One entry of the documentation: a declaration with its name, its place,
/// its description and the definition that belongs to its kind.
#[derive(Debug, PartialEq, Eq)]
pub struct DocNode {
    pub name: String,
    pub location: Location,
    pub description: Option<String>,
    pub def: DocNodeDef,
}

/// The view of a `DocNode`.
pub struct DocNodeView {
    pub name: Seq<char>,
    pub location: LocationView,
    pub description: Option<Seq<char>>,
    pub def: DocNodeDefView,
}

impl DocNodeView {
    pub open spec fn kind(self) -> DocNodeKind {
        self.def.kind()
    }
}

/// The view of a node. A namespace holds nodes again, so the views of a
/// node, of a definition and of a list of nodes are defined together.
pub open spec fn node_view(node: DocNode) -> DocNodeView
    decreases node, 1int,
{
    DocNodeView {
        name: node.name@,
        location: node.location@,
        description: node.description.deep_view(),
        def: def_view(node.def),
    }
}

pub open spec fn def_view(def: DocNodeDef) -> DocNodeDefView
    decreases def, 1int,
{
    match def {
        DocNodeDef::ModuleDoc => DocNodeDefView::ModuleDoc,
        DocNodeDef::Function(f) => DocNodeDefView::Function(f@),
        DocNodeDef::Variable(v) => DocNodeDefView::Variable(v@),
        DocNodeDef::Class(c) => DocNodeDefView::Class(c@),
        DocNodeDef::Enum(e) => DocNodeDefView::Enum(e@),
        DocNodeDef::Interface(i) => DocNodeDefView::Interface(i@),
        DocNodeDef::TypeAlias(t) => DocNodeDefView::TypeAlias(t@),
        DocNodeDef::Namespace(n) => DocNodeDefView::Namespace(
            NamespaceDefView { elements: nodes_view(n.elements) },
        ),
        DocNodeDef::Import => DocNodeDefView::Import,
    }
}

pub open spec fn nodes_view(nodes: Vec<DocNode>) -> Seq<DocNodeView>
    decreases nodes, 0int,
{
    Seq::new(
        nodes@.len(),
        |i: int|
            if 0 <= i < nodes@.len() {
                node_view(nodes@[i])
            } else {
                arbitrary()
            },
    )
}

impl View for DocNode {
    type V = DocNodeView;

    open spec fn view(&self) -> DocNodeView {
        node_view(*self)
    }
}

impl DeepView for DocNode {
    type V = DocNodeView;

    open spec fn deep_view(&self) -> DocNodeView {
        node_view(*self)
    }
}

impl DocNode {
    /// The kind of the node, which its definition decides.
    pub fn kind(&self) -> (kind: DocNodeKind)
        ensures
            kind == self@.kind(),
    {
        match &self.def {
            DocNodeDef::ModuleDoc => DocNodeKind::ModuleDoc,
            DocNodeDef::Function(_) => DocNodeKind::Function,
            DocNodeDef::Variable(_) => DocNodeKind::Variable,
            DocNodeDef::Class(_) => DocNodeKind::Class,
            DocNodeDef::Enum(_) => DocNodeKind::Enum,
            DocNodeDef::Interface(_) => DocNodeKind::Interface,
            DocNodeDef::TypeAlias(_) => DocNodeKind::TypeAlias,
            DocNodeDef::Namespace(_) => DocNodeKind::Namespace,
            DocNodeDef::Import => DocNodeKind::Import,
        }
    }
}

} // verus!
