

use vstd::prelude::*;
use crate::solidity::ContractTy;
use crate::sway::{Enum, Impl, TypeName};
use crate::sway::model::{
    abi_models, AbiView, BlockView, ConfigurableView, constant_models, ConstantView, EnumView,
    function_call_models, function_models, FunctionCallView, FunctionView, impl_models, ImplView,
    ParameterListView, StorageView, string_views, struct_models, StructView, type_definition_models,
    TypeDefinitionView, TypeNameView, use_models, UseView,
};
use crate::translate::{
    NameCount, NameMapping, TranslatedDefinition, TranslatedEnum, TranslatedFunction, TranslatedModifier,
    TranslatedUsingDirective, TranslatedVariable, TranslationScope, Warning,
};

verus! {

/// What a [`TranslatedUsingDirective`] holds, as a mathematical value.
pub ghost struct TranslatedUsingDirectiveView {
    pub library_name: Seq<char>,
    pub for_type: Option<TypeNameView>,
    pub functions: Seq<TranslatedFunctionView>,
}

/// What a [`TranslatedEnum`] holds, as a mathematical value.
pub ghost struct TranslatedEnumView {
    pub type_definition: TypeDefinitionView,
    pub variants_impl: ImplView,
}

/// What a [`TranslatedVariable`] holds, as a mathematical value.
pub ghost struct TranslatedVariableView {
    pub old_name: Seq<char>,
    pub new_name: Seq<char>,
    pub ty: TypeNameView,
    pub abi_type_name: Option<TypeNameView>,
    pub is_storage: bool,
    pub is_configurable: bool,
    pub is_constant: bool,
    pub statement_index: Option<usize>,
    pub read_count: usize,
    pub mutation_count: usize,
}

/// What a [`TranslatedFunction`] holds, as a mathematical value.
pub ghost struct TranslatedFunctionView {
    pub old_name: Seq<char>,
    pub new_name: Seq<char>,
    pub parameters: ParameterListView,
    pub constructor_calls: Seq<FunctionCallView>,
    pub modifiers: Seq<FunctionCallView>,
    pub return_type: Option<TypeNameView>,
}

/// What a [`TranslatedModifier`] holds, as a mathematical value.
pub ghost struct TranslatedModifierView {
    pub old_name: Seq<char>,
    pub new_name: Seq<char>,
    pub parameters: ParameterListView,
    pub has_underscore: bool,
    pub pre_body: Option<BlockView>,
    pub post_body: Option<BlockView>,
}

/// What a [`TranslationScope`] holds, as a mathematical value.
pub ghost struct TranslationScopeView {
    pub parent: Option<Box<TranslationScopeView>>,
    pub variables: Seq<TranslatedVariableView>,
    pub functions: Seq<TranslatedFunctionView>,
}

/// What a [`NameCount`] holds, as a mathematical value.
pub ghost struct NameCountView {
    pub name: Seq<char>,
    pub count: usize,
}

/// What a [`NameMapping`] holds, as a mathematical value.
pub ghost struct NameMappingView {
    pub old_name: Seq<char>,
    pub new_name: Seq<char>,
}

/// What a [`Warning`] holds, as a mathematical value.
pub ghost enum WarningView {
    UnsupportedBitWidth {
        bits: u16,
        used: u16,
    },
}

/// What a [`TranslatedDefinition`] holds, as a mathematical value.
pub ghost struct TranslatedDefinitionView {
    pub path: Seq<char>,
    pub toplevel_scope: TranslationScopeView,
    pub kind: Option<ContractTy>,
    pub dependencies: Seq<Seq<char>>,
    pub uses: Seq<UseView>,
    pub name: Seq<char>,
    pub inherits: Seq<Seq<char>>,
    pub using_directives: Seq<TranslatedUsingDirectiveView>,
    pub type_definitions: Seq<TypeDefinitionView>,
    pub structs: Seq<StructView>,
    pub enums: Seq<TranslatedEnumView>,
    pub events_enums: Seq<(EnumView, ImplView)>,
    pub errors_enums: Seq<(EnumView, ImplView)>,
    pub constants: Seq<ConstantView>,
    pub abis: Seq<AbiView>,
    pub abi: Option<AbiView>,
    pub configurable: Option<ConfigurableView>,
    pub storage: Option<StorageView>,
    pub modifiers: Seq<TranslatedModifierView>,
    pub functions: Seq<FunctionView>,
    pub impls: Seq<ImplView>,
    pub struct_names: Seq<Seq<char>>,
    pub contract_names: Seq<Seq<char>>,
    pub function_name_counts: Seq<NameCountView>,
    pub function_names: Seq<NameMappingView>,
    pub function_call_counts: Seq<NameCountView>,
    pub storage_fields_name_counts: Seq<NameCountView>,
    pub storage_fields_names: Seq<NameMappingView>,
    pub warnings: Seq<WarningView>,
}

/// The values of a sequence of [`TranslatedDefinition`], element by element.
pub open spec fn translated_definition_models(s: Seq<TranslatedDefinition>) -> Seq<TranslatedDefinitionView>
    decreases s,
{
    Seq::new(s.len(), |i: int| if 0 <= i < s.len() { s[i].model() } else { arbitrary() })
}

/// The values of a sequence of [`TranslatedFunction`], element by element.
pub open spec fn translated_function_models(s: Seq<TranslatedFunction>) -> Seq<TranslatedFunctionView>
    decreases s,
{
    Seq::new(s.len(), |i: int| if 0 <= i < s.len() { s[i].model() } else { arbitrary() })
}

/// The values of a sequence of [`TranslatedVariable`], element by element.
pub open spec fn translated_variable_models(s: Seq<TranslatedVariable>) -> Seq<TranslatedVariableView>
    decreases s,
{
    Seq::new(s.len(), |i: int| if 0 <= i < s.len() { s[i].model() } else { arbitrary() })
}

/// The values of a sequence of [`TranslatedUsingDirective`], element by element.
pub open spec fn translated_using_directive_models(s: Seq<TranslatedUsingDirective>) -> Seq<TranslatedUsingDirectiveView>
    decreases s,
{
    Seq::new(s.len(), |i: int| if 0 <= i < s.len() { s[i].model() } else { arbitrary() })
}

/// The values of a sequence of [`TranslatedEnum`], element by element.
pub open spec fn translated_enum_models(s: Seq<TranslatedEnum>) -> Seq<TranslatedEnumView>
    decreases s,
{
    Seq::new(s.len(), |i: int| if 0 <= i < s.len() { s[i].model() } else { arbitrary() })
}

/// The values of a sequence of [`TranslatedModifier`], element by element.
pub open spec fn translated_modifier_models(s: Seq<TranslatedModifier>) -> Seq<TranslatedModifierView>
    decreases s,
{
    Seq::new(s.len(), |i: int| if 0 <= i < s.len() { s[i].model() } else { arbitrary() })
}

/// The values of a sequence of [`NameCount`], element by element.
pub open spec fn name_count_models(s: Seq<NameCount>) -> Seq<NameCountView>
    decreases s,
{
    Seq::new(s.len(), |i: int| if 0 <= i < s.len() { s[i].model() } else { arbitrary() })
}

/// The values of a sequence of [`NameMapping`], element by element.
pub open spec fn name_mapping_models(s: Seq<NameMapping>) -> Seq<NameMappingView>
    decreases s,
{
    Seq::new(s.len(), |i: int| if 0 <= i < s.len() { s[i].model() } else { arbitrary() })
}

/// The values of a sequence of [`Warning`], element by element.
pub open spec fn warning_models(s: Seq<Warning>) -> Seq<WarningView>
    decreases s,
{
    Seq::new(s.len(), |i: int| if 0 <= i < s.len() { s[i].model() } else { arbitrary() })
}

/// The values of a sequence of pairs, element by element.
pub open spec fn enum_impl_models(s: Seq<(Enum, Impl)>) -> Seq<(EnumView, ImplView)> {
    Seq::new(s.len(), |i: int| (s[i].0.model(), s[i].1.model()))
}

impl TranslatedUsingDirective {
    /// The value this node stands for.
    pub open spec fn model(&self) -> TranslatedUsingDirectiveView
        decreases self,
    {
        TranslatedUsingDirectiveView {
            library_name: self.library_name@,
            for_type: match self.for_type { Some(x) => Some(x.model()), None => None },
            functions: translated_function_models(self.functions@),
        }
    }
}

impl View for TranslatedUsingDirective {
    type V = TranslatedUsingDirectiveView;

    open spec fn view(&self) -> TranslatedUsingDirectiveView {
        self.model()
    }
}

impl TranslatedEnum {
    /// The value this node stands for.
    pub open spec fn model(&self) -> TranslatedEnumView
        decreases self,
    {
        TranslatedEnumView {
            type_definition: self.type_definition.model(),
            variants_impl: self.variants_impl.model(),
        }
    }
}

impl View for TranslatedEnum {
    type V = TranslatedEnumView;

    open spec fn view(&self) -> TranslatedEnumView {
        self.model()
    }
}

impl TranslatedVariable {
    /// The value this node stands for.
    pub open spec fn model(&self) -> TranslatedVariableView
        decreases self,
    {
        TranslatedVariableView {
            old_name: self.old_name@,
            new_name: self.new_name@,
            ty: self.ty.model(),
            abi_type_name: match self.abi_type_name { Some(x) => Some(x.model()), None => None },
            is_storage: self.is_storage,
            is_configurable: self.is_configurable,
            is_constant: self.is_constant,
            statement_index: self.statement_index,
            read_count: self.read_count,
            mutation_count: self.mutation_count,
        }
    }
}

impl View for TranslatedVariable {
    type V = TranslatedVariableView;

    open spec fn view(&self) -> TranslatedVariableView {
        self.model()
    }
}

impl TranslatedFunction {
    /// The value this node stands for.
    pub open spec fn model(&self) -> TranslatedFunctionView
        decreases self,
    {
        TranslatedFunctionView {
            old_name: self.old_name@,
            new_name: self.new_name@,
            parameters: self.parameters.model(),
            constructor_calls: function_call_models(self.constructor_calls@),
            modifiers: function_call_models(self.modifiers@),
            return_type: match self.return_type { Some(x) => Some(x.model()), None => None },
        }
    }
}

impl View for TranslatedFunction {
    type V = TranslatedFunctionView;

    open spec fn view(&self) -> TranslatedFunctionView {
        self.model()
    }
}

impl TranslatedModifier {
    /// The value this node stands for.
    pub open spec fn model(&self) -> TranslatedModifierView
        decreases self,
    {
        TranslatedModifierView {
            old_name: self.old_name@,
            new_name: self.new_name@,
            parameters: self.parameters.model(),
            has_underscore: self.has_underscore,
            pre_body: match self.pre_body { Some(x) => Some(x.model()), None => None },
            post_body: match self.post_body { Some(x) => Some(x.model()), None => None },
        }
    }
}

impl View for TranslatedModifier {
    type V = TranslatedModifierView;

    open spec fn view(&self) -> TranslatedModifierView {
        self.model()
    }
}

impl TranslationScope {
    /// The value this node stands for.
    pub open spec fn model(&self) -> TranslationScopeView
        decreases self,
    {
        TranslationScopeView {
            parent: match self.parent { Some(x) => Some(Box::new(x.model())), None => None },
            variables: translated_variable_models(self.variables@),
            functions: translated_function_models(self.functions@),
        }
    }
}

impl View for TranslationScope {
    type V = TranslationScopeView;

    open spec fn view(&self) -> TranslationScopeView {
        self.model()
    }
}

impl NameCount {
    /// The value this node stands for.
    pub open spec fn model(&self) -> NameCountView
        decreases self,
    {
        NameCountView {
            name: self.name@,
            count: self.count,
        }
    }
}

impl View for NameCount {
    type V = NameCountView;

    open spec fn view(&self) -> NameCountView {
        self.model()
    }
}

impl NameMapping {
    /// The value this node stands for.
    pub open spec fn model(&self) -> NameMappingView
        decreases self,
    {
        NameMappingView {
            old_name: self.old_name@,
            new_name: self.new_name@,
        }
    }
}

impl View for NameMapping {
    type V = NameMappingView;

    open spec fn view(&self) -> NameMappingView {
        self.model()
    }
}

impl Warning {
    /// The value this node stands for.
    pub open spec fn model(&self) -> WarningView
        decreases self,
    {
        match self {
            Warning::UnsupportedBitWidth { bits, used } => WarningView::UnsupportedBitWidth { bits: *bits, used: *used },
        }
    }
}

impl View for Warning {
    type V = WarningView;

    open spec fn view(&self) -> WarningView {
        self.model()
    }
}

impl TranslatedDefinition {
    /// The value this node stands for.
    pub open spec fn model(&self) -> TranslatedDefinitionView
        decreases self,
    {
        TranslatedDefinitionView {
            path: self.path@,
            toplevel_scope: self.toplevel_scope.model(),
            kind: self.kind,
            dependencies: string_views(self.dependencies@),
            uses: use_models(self.uses@),
            name: self.name@,
            inherits: string_views(self.inherits@),
            using_directives: translated_using_directive_models(self.using_directives@),
            type_definitions: type_definition_models(self.type_definitions@),
            structs: struct_models(self.structs@),
            enums: translated_enum_models(self.enums@),
            events_enums: enum_impl_models(self.events_enums@),
            errors_enums: enum_impl_models(self.errors_enums@),
            constants: constant_models(self.constants@),
            abis: abi_models(self.abis@),
            abi: match self.abi { Some(x) => Some(x.model()), None => None },
            configurable: match self.configurable { Some(x) => Some(x.model()), None => None },
            storage: match self.storage { Some(x) => Some(x.model()), None => None },
            modifiers: translated_modifier_models(self.modifiers@),
            functions: function_models(self.functions@),
            impls: impl_models(self.impls@),
            struct_names: string_views(self.struct_names@),
            contract_names: string_views(self.contract_names@),
            function_name_counts: name_count_models(self.function_name_counts@),
            function_names: name_mapping_models(self.function_names@),
            function_call_counts: name_count_models(self.function_call_counts@),
            storage_fields_name_counts: name_count_models(self.storage_fields_name_counts@),
            storage_fields_names: name_mapping_models(self.storage_fields_names@),
            warnings: warning_models(self.warnings@),
        }
    }
}

impl View for TranslatedDefinition {
    type V = TranslatedDefinitionView;

    open spec fn view(&self) -> TranslatedDefinitionView {
        self.model()
    }
}


impl TranslatedVariableView {
    /// The value of a new, empty [`TranslatedVariable`].
    pub open spec fn empty() -> TranslatedVariableView {
        TranslatedVariableView {
            old_name: Seq::empty(),
            new_name: Seq::empty(),
            ty: TypeNameView::empty(),
            abi_type_name: None,
            is_storage: false,
            is_configurable: false,
            is_constant: false,
            statement_index: None,
            read_count: 0,
            mutation_count: 0,
        }
    }
}

impl Default for TranslatedVariable {
    fn default() -> (r: Self)
        ensures
            r@ == TranslatedVariableView::empty(),
    {
        let r = TranslatedVariable {
            old_name: String::new(),
            new_name: String::new(),
            ty: TypeName::default(),
            abi_type_name: None,
            is_storage: false,
            is_configurable: false,
            is_constant: false,
            statement_index: None,
            read_count: 0,
            mutation_count: 0,
        };
        assert(r@.old_name =~= Seq::empty());
        assert(r@.new_name =~= Seq::empty());
        r
    }
}

impl TranslationScopeView {
    /// The value of a new, empty [`TranslationScope`].
    pub open spec fn empty() -> TranslationScopeView {
        TranslationScopeView {
            parent: None,
            variables: Seq::empty(),
            functions: Seq::empty(),
        }
    }
}

impl Default for TranslationScope {
    fn default() -> (r: Self)
        ensures
            r@ == TranslationScopeView::empty(),
    {
        let r = TranslationScope {
            parent: None,
            variables: Vec::new(),
            functions: Vec::new(),
        };
        assert(r@.variables =~= Seq::empty());
        assert(r@.functions =~= Seq::empty());
        r
    }
}

impl TranslatedDefinitionView {
    /// The value of a new, empty [`TranslatedDefinition`].
    pub open spec fn empty() -> TranslatedDefinitionView {
        TranslatedDefinitionView {
            path: Seq::empty(),
            toplevel_scope: TranslationScopeView::empty(),
            kind: None,
            dependencies: Seq::empty(),
            uses: Seq::empty(),
            name: Seq::empty(),
            inherits: Seq::empty(),
            using_directives: Seq::empty(),
            type_definitions: Seq::empty(),
            structs: Seq::empty(),
            enums: Seq::empty(),
            events_enums: Seq::empty(),
            errors_enums: Seq::empty(),
            constants: Seq::empty(),
            abis: Seq::empty(),
            abi: None,
            configurable: None,
            storage: None,
            modifiers: Seq::empty(),
            functions: Seq::empty(),
            impls: Seq::empty(),
            struct_names: Seq::empty(),
            contract_names: Seq::empty(),
            function_name_counts: Seq::empty(),
            function_names: Seq::empty(),
            function_call_counts: Seq::empty(),
            storage_fields_name_counts: Seq::empty(),
            storage_fields_names: Seq::empty(),
            warnings: Seq::empty(),
        }
    }
}

impl Default for TranslatedDefinition {
    fn default() -> (r: Self)
        ensures
            r@ == TranslatedDefinitionView::empty(),
    {
        let r = TranslatedDefinition {
            path: String::new(),
            toplevel_scope: TranslationScope::default(),
            kind: None,
            dependencies: Vec::new(),
            uses: Vec::new(),
            name: String::new(),
            inherits: Vec::new(),
            using_directives: Vec::new(),
            type_definitions: Vec::new(),
            structs: Vec::new(),
            enums: Vec::new(),
            events_enums: Vec::new(),
            errors_enums: Vec::new(),
            constants: Vec::new(),
            abis: Vec::new(),
            abi: None,
            configurable: None,
            storage: None,
            modifiers: Vec::new(),
            functions: Vec::new(),
            impls: Vec::new(),
            struct_names: Vec::new(),
            contract_names: Vec::new(),
            function_name_counts: Vec::new(),
            function_names: Vec::new(),
            function_call_counts: Vec::new(),
            storage_fields_name_counts: Vec::new(),
            storage_fields_names: Vec::new(),
            warnings: Vec::new(),
        };
        assert(r@.path =~= Seq::empty());
        assert(r@.dependencies =~= Seq::empty());
        assert(r@.uses =~= Seq::empty());
        assert(r@.name =~= Seq::empty());
        assert(r@.inherits =~= Seq::empty());
        assert(r@.using_directives =~= Seq::empty());
        assert(r@.type_definitions =~= Seq::empty());
        assert(r@.structs =~= Seq::empty());
        assert(r@.enums =~= Seq::empty());
        assert(r@.events_enums =~= Seq::empty());
        assert(r@.errors_enums =~= Seq::empty());
        assert(r@.constants =~= Seq::empty());
        assert(r@.abis =~= Seq::empty());
        assert(r@.modifiers =~= Seq::empty());
        assert(r@.functions =~= Seq::empty());
        assert(r@.impls =~= Seq::empty());
        assert(r@.struct_names =~= Seq::empty());
        assert(r@.contract_names =~= Seq::empty());
        assert(r@.function_name_counts =~= Seq::empty());
        assert(r@.function_names =~= Seq::empty());
        assert(r@.function_call_counts =~= Seq::empty());
        assert(r@.storage_fields_name_counts =~= Seq::empty());
        assert(r@.storage_fields_names =~= Seq::empty());
        assert(r@.warnings =~= Seq::empty());
        r
    }
}

} // verus!
