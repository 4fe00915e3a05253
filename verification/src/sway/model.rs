

use vstd::prelude::*;
use crate::sway::{
    Abi, Array, ArrayAccess, AsmBlock, AsmFinalExpression, AsmInstruction, AsmRegister, Attribute,
    AttributeList, BinaryExpression, Block, Configurable, ConfigurableField, Constant, Constructor,
    ConstructorField, Enum, EnumVariant, Expression, Function, FunctionCall, GenericParameter,
    GenericParameterList, If, Impl, ImplItem, Let, LetIdentifier, LetPattern, Literal, Match, MatchBranch,
    MemberAccess, Module, ModuleItem, ModuleKind, Parameter, ParameterList, Statement, Storage, StorageField,
    Struct, StructField, Trait, TraitItem, TypeDefinition, TypeName, UnaryExpression, Use, UseTree, While,
};

verus! {

/// What a [`ModuleKind`] holds, as a mathematical value.
pub ghost enum ModuleKindView {
    Contract,
    Library,
    Script,
    Predicate,
}

/// What a [`Module`] holds, as a mathematical value.
pub ghost struct ModuleView {
    pub kind: ModuleKindView,
    pub items: Seq<ModuleItemView>,
}

/// What a [`ModuleItem`] holds, as a mathematical value.
pub ghost enum ModuleItemView {
    Use(UseView),
    TypeDefinition(TypeDefinitionView),
    Constant(ConstantView),
    Struct(StructView),
    Enum(EnumView),
    Abi(AbiView),
    Trait(TraitView),
    Storage(StorageView),
    Configurable(ConfigurableView),
    Function(FunctionView),
    Impl(ImplView),
}

/// What a [`Use`] holds, as a mathematical value.
pub ghost struct UseView {
    pub is_public: bool,
    pub tree: UseTreeView,
}

/// What a [`UseTree`] holds, as a mathematical value.
pub ghost enum UseTreeView {
    Path {
        prefix: Seq<char>,
        suffix: Box<UseTreeView>,
    },
    Group {
        imports: Seq<UseTreeView>,
    },
    Name {
        name: Seq<char>,
    },
    Rename {
        name: Seq<char>,
        alias: Seq<char>,
    },
    Glob,
}

/// What a [`GenericParameter`] holds, as a mathematical value.
pub ghost struct GenericParameterView {
    pub ty: TypeNameView,
    pub implements: Option<Seq<TypeNameView>>,
}

/// What a [`GenericParameterList`] holds, as a mathematical value.
pub ghost struct GenericParameterListView {
    pub entries: Seq<GenericParameterView>,
}

/// What a [`Attribute`] holds, as a mathematical value.
pub ghost struct AttributeView {
    pub name: Seq<char>,
    pub parameters: Option<Seq<Seq<char>>>,
}

/// What a [`AttributeList`] holds, as a mathematical value.
pub ghost struct AttributeListView {
    pub attributes: Seq<AttributeView>,
}

/// What a [`TypeName`] holds, as a mathematical value.
pub ghost enum TypeNameView {
    Undefined,
    Identifier {
        name: Seq<char>,
        generic_parameters: Option<GenericParameterListView>,
    },
    Array {
        ty: Box<TypeNameView>,
        length: usize,
    },
    Tuple {
        type_names: Seq<TypeNameView>,
    },
    StringSlice,
    StringArray {
        length: usize,
    },
}

/// What a [`TypeDefinition`] holds, as a mathematical value.
pub ghost struct TypeDefinitionView {
    pub is_public: bool,
    pub name: TypeNameView,
    pub underlying_type: Option<TypeNameView>,
}

/// What a [`Constant`] holds, as a mathematical value.
pub ghost struct ConstantView {
    pub is_public: bool,
    pub name: Seq<char>,
    pub ty: TypeNameView,
    pub value: Option<ExpressionView>,
}

/// What a [`Literal`] holds, as a mathematical value.
pub ghost enum LiteralView {
    Bool(bool),
    DecInt(u64),
    HexInt(u64),
    String(Seq<char>),
}

/// What a [`Struct`] holds, as a mathematical value.
pub ghost struct StructView {
    pub attributes: Option<AttributeListView>,
    pub is_public: bool,
    pub name: Seq<char>,
    pub generic_parameters: Option<GenericParameterListView>,
    pub fields: Seq<StructFieldView>,
}

/// What a [`StructField`] holds, as a mathematical value.
pub ghost struct StructFieldView {
    pub is_public: bool,
    pub name: Seq<char>,
    pub ty: TypeNameView,
}

/// What a [`Enum`] holds, as a mathematical value.
pub ghost struct EnumView {
    pub attributes: Option<AttributeListView>,
    pub is_public: bool,
    pub name: Seq<char>,
    pub generic_parameters: Option<GenericParameterListView>,
    pub variants: Seq<EnumVariantView>,
}

/// What a [`EnumVariant`] holds, as a mathematical value.
pub ghost struct EnumVariantView {
    pub name: Seq<char>,
    pub ty: TypeNameView,
}

/// What a [`Abi`] holds, as a mathematical value.
pub ghost struct AbiView {
    pub name: Seq<char>,
    pub inherits: Seq<Seq<char>>,
    pub functions: Seq<FunctionView>,
}

/// What a [`Trait`] holds, as a mathematical value.
pub ghost struct TraitView {
    pub attributes: Option<AttributeListView>,
    pub is_public: bool,
    pub name: Seq<char>,
    pub generic_parameters: Option<GenericParameterListView>,
    pub items: Seq<TraitItemView>,
}

/// What a [`TraitItem`] holds, as a mathematical value.
pub ghost enum TraitItemView {
    Constant(ConstantView),
    TypeName(GenericParameterView),
    Function(FunctionView),
}

/// What a [`Storage`] holds, as a mathematical value.
pub ghost struct StorageView {
    pub fields: Seq<StorageFieldView>,
}

/// What a [`StorageField`] holds, as a mathematical value.
pub ghost struct StorageFieldView {
    pub name: Seq<char>,
    pub ty: TypeNameView,
    pub value: ExpressionView,
}

/// What a [`Configurable`] holds, as a mathematical value.
pub ghost struct ConfigurableView {
    pub fields: Seq<ConfigurableFieldView>,
}

/// What a [`ConfigurableField`] holds, as a mathematical value.
pub ghost struct ConfigurableFieldView {
    pub name: Seq<char>,
    pub ty: TypeNameView,
    pub value: ExpressionView,
}

/// What a [`Function`] holds, as a mathematical value.
pub ghost struct FunctionView {
    pub attributes: Option<AttributeListView>,
    pub is_public: bool,
    pub name: Seq<char>,
    pub generic_parameters: Option<GenericParameterListView>,
    pub parameters: ParameterListView,
    pub return_type: Option<TypeNameView>,
    pub body: Option<BlockView>,
}

/// What a [`Parameter`] holds, as a mathematical value.
pub ghost struct ParameterView {
    pub is_ref: bool,
    pub is_mut: bool,
    pub name: Seq<char>,
    pub ty: Option<TypeNameView>,
}

/// What a [`ParameterList`] holds, as a mathematical value.
pub ghost struct ParameterListView {
    pub entries: Seq<ParameterView>,
}

/// What a [`Impl`] holds, as a mathematical value.
pub ghost struct ImplView {
    pub generic_parameters: Option<GenericParameterListView>,
    pub ty: TypeNameView,
    pub for_type_name: Option<TypeNameView>,
    pub items: Seq<ImplItemView>,
}

/// What a [`ImplItem`] holds, as a mathematical value.
pub ghost enum ImplItemView {
    Constant(ConstantView),
    TypeDefinition(TypeDefinitionView),
    Function(FunctionView),
}

/// What a [`Block`] holds, as a mathematical value.
pub ghost struct BlockView {
    pub statements: Seq<StatementView>,
    pub final_expr: Option<ExpressionView>,
}

/// What a [`Statement`] holds, as a mathematical value.
pub ghost enum StatementView {
    Let(LetView),
    Expression(ExpressionView),
}

/// What a [`Let`] holds, as a mathematical value.
pub ghost struct LetView {
    pub pattern: LetPatternView,
    pub ty: Option<TypeNameView>,
    pub value: ExpressionView,
}

/// What a [`LetPattern`] holds, as a mathematical value.
pub ghost enum LetPatternView {
    Identifier(LetIdentifierView),
    Tuple(Seq<LetIdentifierView>),
}

/// What a [`LetIdentifier`] holds, as a mathematical value.
pub ghost struct LetIdentifierView {
    pub is_mutable: bool,
    pub name: Seq<char>,
}

/// What a [`Expression`] holds, as a mathematical value.
pub ghost enum ExpressionView {
    Literal(LiteralView),
    Identifier(Seq<char>),
    FunctionCall(Box<FunctionCallView>),
    Block(Box<BlockView>),
    Return(Option<Box<ExpressionView>>),
    Array(ArrayView),
    ArrayAccess(Box<ArrayAccessView>),
    MemberAccess(Box<MemberAccessView>),
    Tuple(Seq<ExpressionView>),
    If(Box<IfView>),
    Match(Box<MatchView>),
    While(Box<WhileView>),
    UnaryExpression(Box<UnaryExpressionView>),
    BinaryExpression(Box<BinaryExpressionView>),
    Constructor(Box<ConstructorView>),
    Continue,
    Break,
    AsmBlock(Box<AsmBlockView>),
    Commented(Seq<char>, Box<ExpressionView>),
}

/// What a [`FunctionCall`] holds, as a mathematical value.
pub ghost struct FunctionCallView {
    pub function: ExpressionView,
    pub generic_parameters: Option<GenericParameterListView>,
    pub parameters: Seq<ExpressionView>,
}

/// What a [`Array`] holds, as a mathematical value.
pub ghost struct ArrayView {
    pub elements: Seq<ExpressionView>,
}

/// What a [`ArrayAccess`] holds, as a mathematical value.
pub ghost struct ArrayAccessView {
    pub expression: ExpressionView,
    pub index: ExpressionView,
}

/// What a [`MemberAccess`] holds, as a mathematical value.
pub ghost struct MemberAccessView {
    pub expression: ExpressionView,
    pub member: Seq<char>,
}

/// What a [`If`] holds, as a mathematical value.
pub ghost struct IfView {
    pub condition: Option<ExpressionView>,
    pub then_body: BlockView,
    pub else_if: Option<Box<IfView>>,
}

/// What a [`Match`] holds, as a mathematical value.
pub ghost struct MatchView {
    pub expression: ExpressionView,
    pub branches: Seq<MatchBranchView>,
}

/// What a [`MatchBranch`] holds, as a mathematical value.
pub ghost struct MatchBranchView {
    pub pattern: ExpressionView,
    pub value: ExpressionView,
}

/// What a [`While`] holds, as a mathematical value.
pub ghost struct WhileView {
    pub condition: ExpressionView,
    pub body: BlockView,
}

/// What a [`UnaryExpression`] holds, as a mathematical value.
pub ghost struct UnaryExpressionView {
    pub operator: Seq<char>,
    pub expression: ExpressionView,
}

/// What a [`BinaryExpression`] holds, as a mathematical value.
pub ghost struct BinaryExpressionView {
    pub operator: Seq<char>,
    pub lhs: ExpressionView,
    pub rhs: ExpressionView,
}

/// What a [`Constructor`] holds, as a mathematical value.
pub ghost struct ConstructorView {
    pub ty: TypeNameView,
    pub fields: Seq<ConstructorFieldView>,
}

/// What a [`ConstructorField`] holds, as a mathematical value.
pub ghost struct ConstructorFieldView {
    pub name: Seq<char>,
    pub value: ExpressionView,
}

/// What a [`AsmBlock`] holds, as a mathematical value.
pub ghost struct AsmBlockView {
    pub registers: Seq<AsmRegisterView>,
    pub instructions: Seq<AsmInstructionView>,
    pub final_expression: Option<AsmFinalExpressionView>,
}

/// What a [`AsmRegister`] holds, as a mathematical value.
pub ghost struct AsmRegisterView {
    pub name: Seq<char>,
    pub value: Option<ExpressionView>,
}

/// What a [`AsmInstruction`] holds, as a mathematical value.
pub ghost struct AsmInstructionView {
    pub op_code: Seq<char>,
    pub args: Seq<Seq<char>>,
}

/// What a [`AsmFinalExpression`] holds, as a mathematical value.
pub ghost struct AsmFinalExpressionView {
    pub register: Seq<char>,
    pub ty: Option<TypeNameView>,
}

/// The texts of a sequence of strings.
pub open spec fn string_views(s: Seq<String>) -> Seq<Seq<char>> {
    Seq::new(s.len(), |i: int| s[i]@)
}

/// The values of a sequence of [`ModuleItem`], element by element.
pub open spec fn module_item_models(s: Seq<ModuleItem>) -> Seq<ModuleItemView>
    decreases s,
{
    Seq::new(s.len(), |i: int| if 0 <= i < s.len() { s[i].model() } else { arbitrary() })
}

/// The values of a sequence of [`Use`], element by element.
pub open spec fn use_models(s: Seq<Use>) -> Seq<UseView>
    decreases s,
{
    Seq::new(s.len(), |i: int| if 0 <= i < s.len() { s[i].model() } else { arbitrary() })
}

/// The values of a sequence of [`UseTree`], element by element.
pub open spec fn use_tree_models(s: Seq<UseTree>) -> Seq<UseTreeView>
    decreases s,
{
    Seq::new(s.len(), |i: int| if 0 <= i < s.len() { s[i].model() } else { arbitrary() })
}

/// The values of a sequence of [`GenericParameter`], element by element.
pub open spec fn generic_parameter_models(s: Seq<GenericParameter>) -> Seq<GenericParameterView>
    decreases s,
{
    Seq::new(s.len(), |i: int| if 0 <= i < s.len() { s[i].model() } else { arbitrary() })
}

/// The values of a sequence of [`Attribute`], element by element.
pub open spec fn attribute_models(s: Seq<Attribute>) -> Seq<AttributeView>
    decreases s,
{
    Seq::new(s.len(), |i: int| if 0 <= i < s.len() { s[i].model() } else { arbitrary() })
}

/// The values of a sequence of [`TypeName`], element by element.
pub open spec fn type_name_models(s: Seq<TypeName>) -> Seq<TypeNameView>
    decreases s,
{
    Seq::new(s.len(), |i: int| if 0 <= i < s.len() { s[i].model() } else { arbitrary() })
}

/// The values of a sequence of [`TypeDefinition`], element by element.
pub open spec fn type_definition_models(s: Seq<TypeDefinition>) -> Seq<TypeDefinitionView>
    decreases s,
{
    Seq::new(s.len(), |i: int| if 0 <= i < s.len() { s[i].model() } else { arbitrary() })
}

/// The values of a sequence of [`Constant`], element by element.
pub open spec fn constant_models(s: Seq<Constant>) -> Seq<ConstantView>
    decreases s,
{
    Seq::new(s.len(), |i: int| if 0 <= i < s.len() { s[i].model() } else { arbitrary() })
}

/// The values of a sequence of [`Struct`], element by element.
pub open spec fn struct_models(s: Seq<Struct>) -> Seq<StructView>
    decreases s,
{
    Seq::new(s.len(), |i: int| if 0 <= i < s.len() { s[i].model() } else { arbitrary() })
}

/// The values of a sequence of [`StructField`], element by element.
pub open spec fn struct_field_models(s: Seq<StructField>) -> Seq<StructFieldView>
    decreases s,
{
    Seq::new(s.len(), |i: int| if 0 <= i < s.len() { s[i].model() } else { arbitrary() })
}

/// The values of a sequence of [`EnumVariant`], element by element.
pub open spec fn enum_variant_models(s: Seq<EnumVariant>) -> Seq<EnumVariantView>
    decreases s,
{
    Seq::new(s.len(), |i: int| if 0 <= i < s.len() { s[i].model() } else { arbitrary() })
}

/// The values of a sequence of [`Abi`], element by element.
pub open spec fn abi_models(s: Seq<Abi>) -> Seq<AbiView>
    decreases s,
{
    Seq::new(s.len(), |i: int| if 0 <= i < s.len() { s[i].model() } else { arbitrary() })
}

/// The values of a sequence of [`TraitItem`], element by element.
pub open spec fn trait_item_models(s: Seq<TraitItem>) -> Seq<TraitItemView>
    decreases s,
{
    Seq::new(s.len(), |i: int| if 0 <= i < s.len() { s[i].model() } else { arbitrary() })
}

/// The values of a sequence of [`StorageField`], element by element.
pub open spec fn storage_field_models(s: Seq<StorageField>) -> Seq<StorageFieldView>
    decreases s,
{
    Seq::new(s.len(), |i: int| if 0 <= i < s.len() { s[i].model() } else { arbitrary() })
}

/// The values of a sequence of [`ConfigurableField`], element by element.
pub open spec fn configurable_field_models(s: Seq<ConfigurableField>) -> Seq<ConfigurableFieldView>
    decreases s,
{
    Seq::new(s.len(), |i: int| if 0 <= i < s.len() { s[i].model() } else { arbitrary() })
}

/// The values of a sequence of [`Function`], element by element.
pub open spec fn function_models(s: Seq<Function>) -> Seq<FunctionView>
    decreases s,
{
    Seq::new(s.len(), |i: int| if 0 <= i < s.len() { s[i].model() } else { arbitrary() })
}

/// The values of a sequence of [`Parameter`], element by element.
pub open spec fn parameter_models(s: Seq<Parameter>) -> Seq<ParameterView>
    decreases s,
{
    Seq::new(s.len(), |i: int| if 0 <= i < s.len() { s[i].model() } else { arbitrary() })
}

/// The values of a sequence of [`Impl`], element by element.
pub open spec fn impl_models(s: Seq<Impl>) -> Seq<ImplView>
    decreases s,
{
    Seq::new(s.len(), |i: int| if 0 <= i < s.len() { s[i].model() } else { arbitrary() })
}

/// The values of a sequence of [`ImplItem`], element by element.
pub open spec fn impl_item_models(s: Seq<ImplItem>) -> Seq<ImplItemView>
    decreases s,
{
    Seq::new(s.len(), |i: int| if 0 <= i < s.len() { s[i].model() } else { arbitrary() })
}

/// The values of a sequence of [`Statement`], element by element.
pub open spec fn statement_models(s: Seq<Statement>) -> Seq<StatementView>
    decreases s,
{
    Seq::new(s.len(), |i: int| if 0 <= i < s.len() { s[i].model() } else { arbitrary() })
}

/// The values of a sequence of [`LetIdentifier`], element by element.
pub open spec fn let_identifier_models(s: Seq<LetIdentifier>) -> Seq<LetIdentifierView>
    decreases s,
{
    Seq::new(s.len(), |i: int| if 0 <= i < s.len() { s[i].model() } else { arbitrary() })
}

/// The values of a sequence of [`Expression`], element by element.
pub open spec fn expression_models(s: Seq<Expression>) -> Seq<ExpressionView>
    decreases s,
{
    Seq::new(s.len(), |i: int| if 0 <= i < s.len() { s[i].model() } else { arbitrary() })
}

/// The values of a sequence of [`FunctionCall`], element by element.
pub open spec fn function_call_models(s: Seq<FunctionCall>) -> Seq<FunctionCallView>
    decreases s,
{
    Seq::new(s.len(), |i: int| if 0 <= i < s.len() { s[i].model() } else { arbitrary() })
}

/// The values of a sequence of [`MatchBranch`], element by element.
pub open spec fn match_branch_models(s: Seq<MatchBranch>) -> Seq<MatchBranchView>
    decreases s,
{
    Seq::new(s.len(), |i: int| if 0 <= i < s.len() { s[i].model() } else { arbitrary() })
}

/// The values of a sequence of [`ConstructorField`], element by element.
pub open spec fn constructor_field_models(s: Seq<ConstructorField>) -> Seq<ConstructorFieldView>
    decreases s,
{
    Seq::new(s.len(), |i: int| if 0 <= i < s.len() { s[i].model() } else { arbitrary() })
}

/// The values of a sequence of [`AsmRegister`], element by element.
pub open spec fn asm_register_models(s: Seq<AsmRegister>) -> Seq<AsmRegisterView>
    decreases s,
{
    Seq::new(s.len(), |i: int| if 0 <= i < s.len() { s[i].model() } else { arbitrary() })
}

/// The values of a sequence of [`AsmInstruction`], element by element.
pub open spec fn asm_instruction_models(s: Seq<AsmInstruction>) -> Seq<AsmInstructionView>
    decreases s,
{
    Seq::new(s.len(), |i: int| if 0 <= i < s.len() { s[i].model() } else { arbitrary() })
}

impl ModuleKind {
    /// The value this node stands for.
    pub open spec fn model(&self) -> ModuleKindView
        decreases self,
    {
        match self {
            ModuleKind::Contract => ModuleKindView::Contract,
            ModuleKind::Library => ModuleKindView::Library,
            ModuleKind::Script => ModuleKindView::Script,
            ModuleKind::Predicate => ModuleKindView::Predicate,
        }
    }
}

impl View for ModuleKind {
    type V = ModuleKindView;

    open spec fn view(&self) -> ModuleKindView {
        self.model()
    }
}

impl Module {
    /// The value this node stands for.
    pub open spec fn model(&self) -> ModuleView
        decreases self,
    {
        ModuleView {
            kind: self.kind.model(),
            items: module_item_models(self.items@),
        }
    }
}

impl View for Module {
    type V = ModuleView;

    open spec fn view(&self) -> ModuleView {
        self.model()
    }
}

impl ModuleItem {
    /// The value this node stands for.
    pub open spec fn model(&self) -> ModuleItemView
        decreases self,
    {
        match self {
            ModuleItem::Use(x0) => ModuleItemView::Use(x0.model()),
            ModuleItem::TypeDefinition(x0) => ModuleItemView::TypeDefinition(x0.model()),
            ModuleItem::Constant(x0) => ModuleItemView::Constant(x0.model()),
            ModuleItem::Struct(x0) => ModuleItemView::Struct(x0.model()),
            ModuleItem::Enum(x0) => ModuleItemView::Enum(x0.model()),
            ModuleItem::Abi(x0) => ModuleItemView::Abi(x0.model()),
            ModuleItem::Trait(x0) => ModuleItemView::Trait(x0.model()),
            ModuleItem::Storage(x0) => ModuleItemView::Storage(x0.model()),
            ModuleItem::Configurable(x0) => ModuleItemView::Configurable(x0.model()),
            ModuleItem::Function(x0) => ModuleItemView::Function(x0.model()),
            ModuleItem::Impl(x0) => ModuleItemView::Impl(x0.model()),
        }
    }
}

impl View for ModuleItem {
    type V = ModuleItemView;

    open spec fn view(&self) -> ModuleItemView {
        self.model()
    }
}

impl Use {
    /// The value this node stands for.
    pub open spec fn model(&self) -> UseView
        decreases self,
    {
        UseView {
            is_public: self.is_public,
            tree: self.tree.model(),
        }
    }
}

impl View for Use {
    type V = UseView;

    open spec fn view(&self) -> UseView {
        self.model()
    }
}

impl UseTree {
    /// The value this node stands for.
    pub open spec fn model(&self) -> UseTreeView
        decreases self,
    {
        match self {
            UseTree::Path { prefix, suffix } => UseTreeView::Path { prefix: prefix@, suffix: Box::new(suffix.model()) },
            UseTree::Group { imports } => UseTreeView::Group { imports: use_tree_models(imports@) },
            UseTree::Name { name } => UseTreeView::Name { name: name@ },
            UseTree::Rename { name, alias } => UseTreeView::Rename { name: name@, alias: alias@ },
            UseTree::Glob => UseTreeView::Glob,
        }
    }
}

impl View for UseTree {
    type V = UseTreeView;

    open spec fn view(&self) -> UseTreeView {
        self.model()
    }
}

impl GenericParameter {
    /// The value this node stands for.
    pub open spec fn model(&self) -> GenericParameterView
        decreases self,
    {
        GenericParameterView {
            ty: self.ty.model(),
            implements: match self.implements { Some(x) => Some(type_name_models(x@)), None => None },
        }
    }
}

impl View for GenericParameter {
    type V = GenericParameterView;

    open spec fn view(&self) -> GenericParameterView {
        self.model()
    }
}

impl GenericParameterList {
    /// The value this node stands for.
    pub open spec fn model(&self) -> GenericParameterListView
        decreases self,
    {
        GenericParameterListView {
            entries: generic_parameter_models(self.entries@),
        }
    }
}

impl View for GenericParameterList {
    type V = GenericParameterListView;

    open spec fn view(&self) -> GenericParameterListView {
        self.model()
    }
}

impl Attribute {
    /// The value this node stands for.
    pub open spec fn model(&self) -> AttributeView
        decreases self,
    {
        AttributeView {
            name: self.name@,
            parameters: match self.parameters { Some(x) => Some(string_views(x@)), None => None },
        }
    }
}

impl View for Attribute {
    type V = AttributeView;

    open spec fn view(&self) -> AttributeView {
        self.model()
    }
}

impl AttributeList {
    /// The value this node stands for.
    pub open spec fn model(&self) -> AttributeListView
        decreases self,
    {
        AttributeListView {
            attributes: attribute_models(self.attributes@),
        }
    }
}

impl View for AttributeList {
    type V = AttributeListView;

    open spec fn view(&self) -> AttributeListView {
        self.model()
    }
}

impl TypeName {
    /// The value this node stands for.
    pub open spec fn model(&self) -> TypeNameView
        decreases self,
    {
        match self {
            TypeName::Undefined => TypeNameView::Undefined,
            TypeName::Identifier { name, generic_parameters } => TypeNameView::Identifier { name: name@, generic_parameters: match generic_parameters { Some(x) => Some(x.model()), None => None } },
            TypeName::Array { ty, length } => TypeNameView::Array { ty: Box::new(ty.model()), length: *length },
            TypeName::Tuple { type_names } => TypeNameView::Tuple { type_names: type_name_models(type_names@) },
            TypeName::StringSlice => TypeNameView::StringSlice,
            TypeName::StringArray { length } => TypeNameView::StringArray { length: *length },
        }
    }
}

impl View for TypeName {
    type V = TypeNameView;

    open spec fn view(&self) -> TypeNameView {
        self.model()
    }
}

impl TypeDefinition {
    /// The value this node stands for.
    pub open spec fn model(&self) -> TypeDefinitionView
        decreases self,
    {
        TypeDefinitionView {
            is_public: self.is_public,
            name: self.name.model(),
            underlying_type: match self.underlying_type { Some(x) => Some(x.model()), None => None },
        }
    }
}

impl View for TypeDefinition {
    type V = TypeDefinitionView;

    open spec fn view(&self) -> TypeDefinitionView {
        self.model()
    }
}

impl Constant {
    /// The value this node stands for.
    pub open spec fn model(&self) -> ConstantView
        decreases self,
    {
        ConstantView {
            is_public: self.is_public,
            name: self.name@,
            ty: self.ty.model(),
            value: match self.value { Some(x) => Some(x.model()), None => None },
        }
    }
}

impl View for Constant {
    type V = ConstantView;

    open spec fn view(&self) -> ConstantView {
        self.model()
    }
}

impl Literal {
    /// The value this node stands for.
    pub open spec fn model(&self) -> LiteralView
        decreases self,
    {
        match self {
            Literal::Bool(x0) => LiteralView::Bool(*x0),
            Literal::DecInt(x0) => LiteralView::DecInt(*x0),
            Literal::HexInt(x0) => LiteralView::HexInt(*x0),
            Literal::String(x0) => LiteralView::String(x0@),
        }
    }
}

impl View for Literal {
    type V = LiteralView;

    open spec fn view(&self) -> LiteralView {
        self.model()
    }
}

impl Struct {
    /// The value this node stands for.
    pub open spec fn model(&self) -> StructView
        decreases self,
    {
        StructView {
            attributes: match self.attributes { Some(x) => Some(x.model()), None => None },
            is_public: self.is_public,
            name: self.name@,
            generic_parameters: match self.generic_parameters { Some(x) => Some(x.model()), None => None },
            fields: struct_field_models(self.fields@),
        }
    }
}

impl View for Struct {
    type V = StructView;

    open spec fn view(&self) -> StructView {
        self.model()
    }
}

impl StructField {
    /// The value this node stands for.
    pub open spec fn model(&self) -> StructFieldView
        decreases self,
    {
        StructFieldView {
            is_public: self.is_public,
            name: self.name@,
            ty: self.ty.model(),
        }
    }
}

impl View for StructField {
    type V = StructFieldView;

    open spec fn view(&self) -> StructFieldView {
        self.model()
    }
}

impl Enum {
    /// The value this node stands for.
    pub open spec fn model(&self) -> EnumView
        decreases self,
    {
        EnumView {
            attributes: match self.attributes { Some(x) => Some(x.model()), None => None },
            is_public: self.is_public,
            name: self.name@,
            generic_parameters: match self.generic_parameters { Some(x) => Some(x.model()), None => None },
            variants: enum_variant_models(self.variants@),
        }
    }
}

impl View for Enum {
    type V = EnumView;

    open spec fn view(&self) -> EnumView {
        self.model()
    }
}

impl EnumVariant {
    /// The value this node stands for.
    pub open spec fn model(&self) -> EnumVariantView
        decreases self,
    {
        EnumVariantView {
            name: self.name@,
            ty: self.ty.model(),
        }
    }
}

impl View for EnumVariant {
    type V = EnumVariantView;

    open spec fn view(&self) -> EnumVariantView {
        self.model()
    }
}

impl Abi {
    /// The value this node stands for.
    pub open spec fn model(&self) -> AbiView
        decreases self,
    {
        AbiView {
            name: self.name@,
            inherits: string_views(self.inherits@),
            functions: function_models(self.functions@),
        }
    }
}

impl View for Abi {
    type V = AbiView;

    open spec fn view(&self) -> AbiView {
        self.model()
    }
}

impl Trait {
    /// The value this node stands for.
    pub open spec fn model(&self) -> TraitView
        decreases self,
    {
        TraitView {
            attributes: match self.attributes { Some(x) => Some(x.model()), None => None },
            is_public: self.is_public,
            name: self.name@,
            generic_parameters: match self.generic_parameters { Some(x) => Some(x.model()), None => None },
            items: trait_item_models(self.items@),
        }
    }
}

impl View for Trait {
    type V = TraitView;

    open spec fn view(&self) -> TraitView {
        self.model()
    }
}

impl TraitItem {
    /// The value this node stands for.
    pub open spec fn model(&self) -> TraitItemView
        decreases self,
    {
        match self {
            TraitItem::Constant(x0) => TraitItemView::Constant(x0.model()),
            TraitItem::TypeName(x0) => TraitItemView::TypeName(x0.model()),
            TraitItem::Function(x0) => TraitItemView::Function(x0.model()),
        }
    }
}

impl View for TraitItem {
    type V = TraitItemView;

    open spec fn view(&self) -> TraitItemView {
        self.model()
    }
}

impl Storage {
    /// The value this node stands for.
    pub open spec fn model(&self) -> StorageView
        decreases self,
    {
        StorageView {
            fields: storage_field_models(self.fields@),
        }
    }
}

impl View for Storage {
    type V = StorageView;

    open spec fn view(&self) -> StorageView {
        self.model()
    }
}

impl StorageField {
    /// The value this node stands for.
    pub open spec fn model(&self) -> StorageFieldView
        decreases self,
    {
        StorageFieldView {
            name: self.name@,
            ty: self.ty.model(),
            value: self.value.model(),
        }
    }
}

impl View for StorageField {
    type V = StorageFieldView;

    open spec fn view(&self) -> StorageFieldView {
        self.model()
    }
}

impl Configurable {
    /// The value this node stands for.
    pub open spec fn model(&self) -> ConfigurableView
        decreases self,
    {
        ConfigurableView {
            fields: configurable_field_models(self.fields@),
        }
    }
}

impl View for Configurable {
    type V = ConfigurableView;

    open spec fn view(&self) -> ConfigurableView {
        self.model()
    }
}

impl ConfigurableField {
    /// The value this node stands for.
    pub open spec fn model(&self) -> ConfigurableFieldView
        decreases self,
    {
        ConfigurableFieldView {
            name: self.name@,
            ty: self.ty.model(),
            value: self.value.model(),
        }
    }
}

impl View for ConfigurableField {
    type V = ConfigurableFieldView;

    open spec fn view(&self) -> ConfigurableFieldView {
        self.model()
    }
}

impl Function {
    /// The value this node stands for.
    pub open spec fn model(&self) -> FunctionView
        decreases self,
    {
        FunctionView {
            attributes: match self.attributes { Some(x) => Some(x.model()), None => None },
            is_public: self.is_public,
            name: self.name@,
            generic_parameters: match self.generic_parameters { Some(x) => Some(x.model()), None => None },
            parameters: self.parameters.model(),
            return_type: match self.return_type { Some(x) => Some(x.model()), None => None },
            body: match self.body { Some(x) => Some(x.model()), None => None },
        }
    }
}

impl View for Function {
    type V = FunctionView;

    open spec fn view(&self) -> FunctionView {
        self.model()
    }
}

impl Parameter {
    /// The value this node stands for.
    pub open spec fn model(&self) -> ParameterView
        decreases self,
    {
        ParameterView {
            is_ref: self.is_ref,
            is_mut: self.is_mut,
            name: self.name@,
            ty: match self.ty { Some(x) => Some(x.model()), None => None },
        }
    }
}

impl View for Parameter {
    type V = ParameterView;

    open spec fn view(&self) -> ParameterView {
        self.model()
    }
}

impl ParameterList {
    /// The value this node stands for.
    pub open spec fn model(&self) -> ParameterListView
        decreases self,
    {
        ParameterListView {
            entries: parameter_models(self.entries@),
        }
    }
}

impl View for ParameterList {
    type V = ParameterListView;

    open spec fn view(&self) -> ParameterListView {
        self.model()
    }
}

impl Impl {
    /// The value this node stands for.
    pub open spec fn model(&self) -> ImplView
        decreases self,
    {
        ImplView {
            generic_parameters: match self.generic_parameters { Some(x) => Some(x.model()), None => None },
            ty: self.ty.model(),
            for_type_name: match self.for_type_name { Some(x) => Some(x.model()), None => None },
            items: impl_item_models(self.items@),
        }
    }
}

impl View for Impl {
    type V = ImplView;

    open spec fn view(&self) -> ImplView {
        self.model()
    }
}

impl ImplItem {
    /// The value this node stands for.
    pub open spec fn model(&self) -> ImplItemView
        decreases self,
    {
        match self {
            ImplItem::Constant(x0) => ImplItemView::Constant(x0.model()),
            ImplItem::TypeDefinition(x0) => ImplItemView::TypeDefinition(x0.model()),
            ImplItem::Function(x0) => ImplItemView::Function(x0.model()),
        }
    }
}

impl View for ImplItem {
    type V = ImplItemView;

    open spec fn view(&self) -> ImplItemView {
        self.model()
    }
}

impl Block {
    /// The value this node stands for.
    pub open spec fn model(&self) -> BlockView
        decreases self,
    {
        BlockView {
            statements: statement_models(self.statements@),
            final_expr: match self.final_expr { Some(x) => Some(x.model()), None => None },
        }
    }
}

impl View for Block {
    type V = BlockView;

    open spec fn view(&self) -> BlockView {
        self.model()
    }
}

impl Statement {
    /// The value this node stands for.
    pub open spec fn model(&self) -> StatementView
        decreases self,
    {
        match self {
            Statement::Let(x0) => StatementView::Let(x0.model()),
            Statement::Expression(x0) => StatementView::Expression(x0.model()),
        }
    }
}

impl View for Statement {
    type V = StatementView;

    open spec fn view(&self) -> StatementView {
        self.model()
    }
}

impl Let {
    /// The value this node stands for.
    pub open spec fn model(&self) -> LetView
        decreases self,
    {
        LetView {
            pattern: self.pattern.model(),
            ty: match self.ty { Some(x) => Some(x.model()), None => None },
            value: self.value.model(),
        }
    }
}

impl View for Let {
    type V = LetView;

    open spec fn view(&self) -> LetView {
        self.model()
    }
}

impl LetPattern {
    /// The value this node stands for.
    pub open spec fn model(&self) -> LetPatternView
        decreases self,
    {
        match self {
            LetPattern::Identifier(x0) => LetPatternView::Identifier(x0.model()),
            LetPattern::Tuple(x0) => LetPatternView::Tuple(let_identifier_models(x0@)),
        }
    }
}

impl View for LetPattern {
    type V = LetPatternView;

    open spec fn view(&self) -> LetPatternView {
        self.model()
    }
}

impl LetIdentifier {
    /// The value this node stands for.
    pub open spec fn model(&self) -> LetIdentifierView
        decreases self,
    {
        LetIdentifierView {
            is_mutable: self.is_mutable,
            name: self.name@,
        }
    }
}

impl View for LetIdentifier {
    type V = LetIdentifierView;

    open spec fn view(&self) -> LetIdentifierView {
        self.model()
    }
}

impl Expression {
    /// The value this node stands for.
    pub open spec fn model(&self) -> ExpressionView
        decreases self,
    {
        match self {
            Expression::Literal(x0) => ExpressionView::Literal(x0.model()),
            Expression::Identifier(x0) => ExpressionView::Identifier(x0@),
            Expression::FunctionCall(x0) => ExpressionView::FunctionCall(Box::new(x0.model())),
            Expression::Block(x0) => ExpressionView::Block(Box::new(x0.model())),
            Expression::Return(x0) => ExpressionView::Return(match x0 { Some(x) => Some(Box::new(x.model())), None => None }),
            Expression::Array(x0) => ExpressionView::Array(x0.model()),
            Expression::ArrayAccess(x0) => ExpressionView::ArrayAccess(Box::new(x0.model())),
            Expression::MemberAccess(x0) => ExpressionView::MemberAccess(Box::new(x0.model())),
            Expression::Tuple(x0) => ExpressionView::Tuple(expression_models(x0@)),
            Expression::If(x0) => ExpressionView::If(Box::new(x0.model())),
            Expression::Match(x0) => ExpressionView::Match(Box::new(x0.model())),
            Expression::While(x0) => ExpressionView::While(Box::new(x0.model())),
            Expression::UnaryExpression(x0) => ExpressionView::UnaryExpression(Box::new(x0.model())),
            Expression::BinaryExpression(x0) => ExpressionView::BinaryExpression(Box::new(x0.model())),
            Expression::Constructor(x0) => ExpressionView::Constructor(Box::new(x0.model())),
            Expression::Continue => ExpressionView::Continue,
            Expression::Break => ExpressionView::Break,
            Expression::AsmBlock(x0) => ExpressionView::AsmBlock(Box::new(x0.model())),
            Expression::Commented(x0, x1) => ExpressionView::Commented(x0@, Box::new(x1.model())),
        }
    }
}

impl View for Expression {
    type V = ExpressionView;

    open spec fn view(&self) -> ExpressionView {
        self.model()
    }
}

impl FunctionCall {
    /// The value this node stands for.
    pub open spec fn model(&self) -> FunctionCallView
        decreases self,
    {
        FunctionCallView {
            function: self.function.model(),
            generic_parameters: match self.generic_parameters { Some(x) => Some(x.model()), None => None },
            parameters: expression_models(self.parameters@),
        }
    }
}

impl View for FunctionCall {
    type V = FunctionCallView;

    open spec fn view(&self) -> FunctionCallView {
        self.model()
    }
}

impl Array {
    /// The value this node stands for.
    pub open spec fn model(&self) -> ArrayView
        decreases self,
    {
        ArrayView {
            elements: expression_models(self.elements@),
        }
    }
}

impl View for Array {
    type V = ArrayView;

    open spec fn view(&self) -> ArrayView {
        self.model()
    }
}

impl ArrayAccess {
    /// The value this node stands for.
    pub open spec fn model(&self) -> ArrayAccessView
        decreases self,
    {
        ArrayAccessView {
            expression: self.expression.model(),
            index: self.index.model(),
        }
    }
}

impl View for ArrayAccess {
    type V = ArrayAccessView;

    open spec fn view(&self) -> ArrayAccessView {
        self.model()
    }
}

impl MemberAccess {
    /// The value this node stands for.
    pub open spec fn model(&self) -> MemberAccessView
        decreases self,
    {
        MemberAccessView {
            expression: self.expression.model(),
            member: self.member@,
        }
    }
}

impl View for MemberAccess {
    type V = MemberAccessView;

    open spec fn view(&self) -> MemberAccessView {
        self.model()
    }
}

impl If {
    /// The value this node stands for.
    pub open spec fn model(&self) -> IfView
        decreases self,
    {
        IfView {
            condition: match self.condition { Some(x) => Some(x.model()), None => None },
            then_body: self.then_body.model(),
            else_if: match self.else_if { Some(x) => Some(Box::new(x.model())), None => None },
        }
    }
}

impl View for If {
    type V = IfView;

    open spec fn view(&self) -> IfView {
        self.model()
    }
}

impl Match {
    /// The value this node stands for.
    pub open spec fn model(&self) -> MatchView
        decreases self,
    {
        MatchView {
            expression: self.expression.model(),
            branches: match_branch_models(self.branches@),
        }
    }
}

impl View for Match {
    type V = MatchView;

    open spec fn view(&self) -> MatchView {
        self.model()
    }
}

impl MatchBranch {
    /// The value this node stands for.
    pub open spec fn model(&self) -> MatchBranchView
        decreases self,
    {
        MatchBranchView {
            pattern: self.pattern.model(),
            value: self.value.model(),
        }
    }
}

impl View for MatchBranch {
    type V = MatchBranchView;

    open spec fn view(&self) -> MatchBranchView {
        self.model()
    }
}

impl While {
    /// The value this node stands for.
    pub open spec fn model(&self) -> WhileView
        decreases self,
    {
        WhileView {
            condition: self.condition.model(),
            body: self.body.model(),
        }
    }
}

impl View for While {
    type V = WhileView;

    open spec fn view(&self) -> WhileView {
        self.model()
    }
}

impl UnaryExpression {
    /// The value this node stands for.
    pub open spec fn model(&self) -> UnaryExpressionView
        decreases self,
    {
        UnaryExpressionView {
            operator: self.operator@,
            expression: self.expression.model(),
        }
    }
}

impl View for UnaryExpression {
    type V = UnaryExpressionView;

    open spec fn view(&self) -> UnaryExpressionView {
        self.model()
    }
}

impl BinaryExpression {
    /// The value this node stands for.
    pub open spec fn model(&self) -> BinaryExpressionView
        decreases self,
    {
        BinaryExpressionView {
            operator: self.operator@,
            lhs: self.lhs.model(),
            rhs: self.rhs.model(),
        }
    }
}

impl View for BinaryExpression {
    type V = BinaryExpressionView;

    open spec fn view(&self) -> BinaryExpressionView {
        self.model()
    }
}

impl Constructor {
    /// The value this node stands for.
    pub open spec fn model(&self) -> ConstructorView
        decreases self,
    {
        ConstructorView {
            ty: self.ty.model(),
            fields: constructor_field_models(self.fields@),
        }
    }
}

impl View for Constructor {
    type V = ConstructorView;

    open spec fn view(&self) -> ConstructorView {
        self.model()
    }
}

impl ConstructorField {
    /// The value this node stands for.
    pub open spec fn model(&self) -> ConstructorFieldView
        decreases self,
    {
        ConstructorFieldView {
            name: self.name@,
            value: self.value.model(),
        }
    }
}

impl View for ConstructorField {
    type V = ConstructorFieldView;

    open spec fn view(&self) -> ConstructorFieldView {
        self.model()
    }
}

impl AsmBlock {
    /// The value this node stands for.
    pub open spec fn model(&self) -> AsmBlockView
        decreases self,
    {
        AsmBlockView {
            registers: asm_register_models(self.registers@),
            instructions: asm_instruction_models(self.instructions@),
            final_expression: match self.final_expression { Some(x) => Some(x.model()), None => None },
        }
    }
}

impl View for AsmBlock {
    type V = AsmBlockView;

    open spec fn view(&self) -> AsmBlockView {
        self.model()
    }
}

impl AsmRegister {
    /// The value this node stands for.
    pub open spec fn model(&self) -> AsmRegisterView
        decreases self,
    {
        AsmRegisterView {
            name: self.name@,
            value: match self.value { Some(x) => Some(x.model()), None => None },
        }
    }
}

impl View for AsmRegister {
    type V = AsmRegisterView;

    open spec fn view(&self) -> AsmRegisterView {
        self.model()
    }
}

impl AsmInstruction {
    /// The value this node stands for.
    pub open spec fn model(&self) -> AsmInstructionView
        decreases self,
    {
        AsmInstructionView {
            op_code: self.op_code@,
            args: string_views(self.args@),
        }
    }
}

impl View for AsmInstruction {
    type V = AsmInstructionView;

    open spec fn view(&self) -> AsmInstructionView {
        self.model()
    }
}

impl AsmFinalExpression {
    /// The value this node stands for.
    pub open spec fn model(&self) -> AsmFinalExpressionView
        decreases self,
    {
        AsmFinalExpressionView {
            register: self.register@,
            ty: match self.ty { Some(x) => Some(x.model()), None => None },
        }
    }
}

impl View for AsmFinalExpression {
    type V = AsmFinalExpressionView;

    open spec fn view(&self) -> AsmFinalExpressionView {
        self.model()
    }
}

} // verus!
