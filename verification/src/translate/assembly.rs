//! The module that a translated definition is assembled into.

use vstd::prelude::*;
use crate::solidity::ContractTy;
use crate::sway::{
    Abi, Constant, Enum, Function, Impl, Module, ModuleItem, ModuleKind, Struct, TypeDefinition, TypeName,
    Use,
};
use crate::sway::model::{
    abi_models, AbiView, constant_models, ConstantView, EnumView, function_models, FunctionView, impl_models,
    ImplView, module_item_models, ModuleItemView, ModuleKindView, ModuleView, struct_models, StructView,
    type_definition_models, TypeDefinitionView, TypeNameView, use_models, UseView,
};
use crate::text::text_eq;
use crate::translate::{NameCount, TranslatedDefinition, TranslatedEnum};
use crate::translate::counters::counts;
use crate::translate::model::{
    enum_impl_models, name_count_models, NameCountView, translated_enum_models, TranslatedDefinitionView,
    TranslatedEnumView,
};
use crate::translate::scope::{first_match, first_where};

verus! {

/// The kind of module that a definition of the given kind becomes: a
/// library for a library, a contract for anything else.
pub open spec fn module_kind(kind: ContractTy) -> ModuleKindView {
    match kind {
        ContractTy::Library => ModuleKindView::Library,
        _ => ModuleKindView::Contract,
    }
}

/// The items that the elements of `s` become, in order, where `f` gives
/// the items of one element.
pub open spec fn items_of<T>(s: Seq<T>, f: spec_fn(T) -> Seq<ModuleItemView>) -> Seq<ModuleItemView>
    decreases s.len(),
{
    if s.len() == 0 {
        Seq::empty()
    } else {
        items_of(s.drop_last(), f) + f(s.last())
    }
}

/// Whether a function is left out of the module: its calls are counted,
/// and there are none.
pub open spec fn is_pruned(counters: Seq<NameCountView>, f: FunctionView) -> bool {
    match first_match(counters, counts(f.name)) {
        Some(c) => c.count == 0,
        None => false,
    }
}

/// The items of an optional element.
pub open spec fn optional_item(item: Option<ModuleItemView>) -> Seq<ModuleItemView> {
    match item {
        Some(i) => seq![i],
        None => Seq::empty(),
    }
}

/// The module that a definition is assembled into: its imports, its
/// constants, its type aliases, its enums, its structs, the enums of its
/// events and of its errors, the abis it imports, its own abi, its
/// storage and configurable blocks, its functions apart from those that
/// are never called, and its impls.
pub open spec fn module_of(d: TranslatedDefinitionView) -> ModuleView {
    ModuleView {
        kind: module_kind(d.kind->0),
        items: items_of(d.uses, |x: UseView| seq![ModuleItemView::Use(x)]) + items_of(
            d.constants,
            |x: ConstantView| seq![ModuleItemView::Constant(x)],
        ) + items_of(d.type_definitions, |x: TypeDefinitionView| seq![ModuleItemView::TypeDefinition(x)])
            + items_of(
            d.enums,
            |x: TranslatedEnumView|
                seq![ModuleItemView::TypeDefinition(x.type_definition), ModuleItemView::Impl(x.variants_impl)],
        ) + items_of(d.structs, |x: StructView| seq![ModuleItemView::Struct(x)]) + items_of(
            d.events_enums,
            |x: (EnumView, ImplView)| seq![ModuleItemView::Enum(x.0), ModuleItemView::Impl(x.1)],
        ) + items_of(
            d.errors_enums,
            |x: (EnumView, ImplView)| seq![ModuleItemView::Enum(x.0), ModuleItemView::Impl(x.1)],
        ) + items_of(d.abis, |x: AbiView| seq![ModuleItemView::Abi(x)]) + optional_item(
            match d.abi {
                Some(x) => Some(ModuleItemView::Abi(x)),
                None => None,
            },
        ) + optional_item(
            match d.storage {
                Some(x) => Some(ModuleItemView::Storage(x)),
                None => None,
            },
        ) + optional_item(
            match d.configurable {
                Some(x) => Some(ModuleItemView::Configurable(x)),
                None => None,
            },
        ) + items_of(
            d.functions,
            |x: FunctionView|
                if is_pruned(d.function_call_counts, x) {
                    Seq::empty()
                } else {
                    seq![ModuleItemView::Function(x)]
                },
        ) + items_of(d.impls, |x: ImplView| seq![ModuleItemView::Impl(x)]),
    }
}

/// The test "is the alias of `t`".
pub open spec fn is_alias_of(t: TypeNameView) -> spec_fn(TypeDefinitionView) -> bool {
    |x: TypeDefinitionView| x.name == t
}

/// The test "is the enum of the type `t`".
pub open spec fn is_enum_of(t: TypeNameView) -> spec_fn(TranslatedEnumView) -> bool {
    |x: TranslatedEnumView| x.type_definition.name == t
}

/// The type that `t` is an alias of: the underlying type of the first
/// type alias of that name, or else of the first enum of that name.
pub open spec fn aliased(d: TranslatedDefinitionView, t: TypeNameView) -> Option<TypeNameView> {
    match first_match(d.type_definitions, is_alias_of(t)) {
        Some(x) => x.underlying_type,
        None => match first_match(d.enums, is_enum_of(t)) {
            Some(x) => x.type_definition.underlying_type,
            None => None,
        },
    }
}

/// The type that a type name stands for once the aliases and enums of the
/// definition are followed, at most `steps` times.
pub open spec fn underlying_type(d: TranslatedDefinitionView, t: TypeNameView, steps: nat) -> TypeNameView
    decreases steps,
{
    if steps == 0 {
        t
    } else {
        match aliased(d, t) {
            Some(u) => underlying_type(d, u, (steps - 1) as nat),
            None => t,
        }
    }
}

fn append_items<T, V, F: Fn(&T) -> Vec<ModuleItem>>(
    items: &mut Vec<ModuleItem>,
    source: &Vec<T>,
    f: F,
    Ghost(views): Ghost<Seq<V>>,
    Ghost(g): Ghost<spec_fn(V) -> Seq<ModuleItemView>>,
)
    requires
        views.len() == source.len(),
        forall|i: int| 0 <= i < source.len() ==> f.requires((&#[trigger] source[i],)),
        forall|i: int, r: Vec<ModuleItem>|
            0 <= i < source.len() && f.ensures((&#[trigger] source[i],), r) ==> module_item_models(r@) == g(views[i]),
    ensures
        module_item_models(final(items)@) == module_item_models(old(items)@) + items_of(views, g),
{
    let ghost start = module_item_models(items@);
    let mut i: usize = 0;
    assert(views.subrange(0, 0) =~= Seq::empty());
    assert(module_item_models(items@) =~= start + items_of(views.subrange(0, 0), g));
    while i < source.len()
        invariant
            i <= source.len(),
            views.len() == source.len(),
            forall|i: int| 0 <= i < source.len() ==> f.requires((&#[trigger] source[i],)),
            forall|i: int, r: Vec<ModuleItem>|
                0 <= i < source.len() && f.ensures((&#[trigger] source[i],), r) ==> module_item_models(r@) == g(
                    views[i],
                ),
            module_item_models(items@) == start + items_of(views.subrange(0, i as int), g),
        decreases source.len() - i,
    {
        proof {
            let s = views.subrange(0, i + 1);
            assert(s.drop_last() =~= views.subrange(0, i as int));
            assert(s.last() == views[i as int]);
        }
        let ghost before = module_item_models(items@);
        let mut part = f(&source[i]);
        let ghost added = module_item_models(part@);
        items.append(&mut part);
        assert(module_item_models(items@) =~= before + added);
        assert(start + items_of(views.subrange(0, i as int), g) + g(views[i as int]) =~= start + (items_of(
            views.subrange(0, i as int),
            g,
        ) + g(views[i as int])));
        i += 1;
    }
    assert(views.subrange(0, i as int) =~= views);
}

fn one_item(item: ModuleItem) -> (r: Vec<ModuleItem>)
    ensures
        module_item_models(r@) == seq![item@],
{
    let mut r: Vec<ModuleItem> = Vec::new();
    r.push(item);
    assert(module_item_models(r@) =~= seq![item@]);
    r
}

fn two_items(a: ModuleItem, b: ModuleItem) -> (r: Vec<ModuleItem>)
    ensures
        module_item_models(r@) == seq![a@, b@],
{
    let mut r: Vec<ModuleItem> = Vec::new();
    r.push(a);
    r.push(b);
    assert(module_item_models(r@) =~= seq![a@, b@]);
    r
}

fn no_items() -> (r: Vec<ModuleItem>)
    ensures
        module_item_models(r@) == Seq::<ModuleItemView>::empty(),
{
    let r: Vec<ModuleItem> = Vec::new();
    assert(module_item_models(r@) =~= Seq::empty());
    r
}

fn optional(item: Option<ModuleItem>) -> (r: Vec<ModuleItem>)
    ensures
        module_item_models(r@) == optional_item(
            match item {
                Some(i) => Some(i@),
                None => None,
            },
        ),
{
    match item {
        Some(i) => one_item(i),
        None => no_items(),
    }
}

fn pruned(counters: &Vec<NameCount>, f: &Function) -> (r: bool)
    ensures
        r == is_pruned(name_count_models(counters@), f@),
{
    let found = first_where::<NameCount, NameCountView, _>(
        counters,
        (|c: &NameCount| -> (b: bool)
            ensures
                b == (c@.name == f@.name),
            {
                text_eq(c.name.as_str(), f.name.as_str())
            }),
        Ghost(name_count_models(counters@)),
        Ghost(counts(f@.name)),
    );
    match found {
        Some(i) => counters[i].count == 0,
        None => false,
    }
}

fn aliased_type(definition: &TranslatedDefinition, t: &TypeName) -> (r: Option<TypeName>)
    ensures
        crate::sway::shapes::optional_type(r) == aliased(definition@, t@),
{
    let alias = first_where::<TypeDefinition, TypeDefinitionView, _>(
        &definition.type_definitions,
        (|x: &TypeDefinition| -> (b: bool)
            ensures
                b == (x@.name == t@),
            {
                x.name.eq(t)
            }),
        Ghost(type_definition_models(definition.type_definitions@)),
        Ghost(is_alias_of(t@)),
    );
    match alias {
        Some(i) => {
            return match &definition.type_definitions[i].underlying_type {
                Some(u) => Some(u.clone()),
                None => None,
            };
        },
        None => {},
    }
    let enumeration = first_where::<TranslatedEnum, TranslatedEnumView, _>(
        &definition.enums,
        (|x: &TranslatedEnum| -> (b: bool)
            ensures
                b == (x@.type_definition.name == t@),
            {
                x.type_definition.name.eq(t)
            }),
        Ghost(translated_enum_models(definition.enums@)),
        Ghost(is_enum_of(t@)),
    );
    match enumeration {
        Some(i) => match &definition.enums[i].type_definition.underlying_type {
            Some(u) => Some(u.clone()),
            None => None,
        },
        None => None,
    }
}

proof fn lemma_underlying_settled(d: TranslatedDefinitionView, t: TypeNameView, steps: nat)
    requires
        aliased(d, t) is None,
    ensures
        underlying_type(d, t, steps) == t,
{
}

proof fn lemma_underlying_step(d: TranslatedDefinitionView, t: TypeNameView, steps: nat)
    requires
        steps > 0,
        aliased(d, t) is Some,
    ensures
        underlying_type(d, t, steps) == underlying_type(d, aliased(d, t)->0, (steps - 1) as nat),
{
}

impl TranslatedDefinition {
    /// Gets the base underlying type of the supplied type name: the type
    /// reached by following the type aliases and enums of the definition.
    /// No more steps are taken than there are aliases and enums, so that a
    /// cycle of aliases ends the search.
    pub fn get_underlying_type(&self, t: &TypeName) -> (r: TypeName)
        ensures
            r@ == underlying_type(self@, t@, (self.type_definitions.len() + self.enums.len()) as nat),
    {
        let mut steps: u128 = self.type_definitions.len() as u128 + self.enums.len() as u128;
        let mut current = t.clone();
        while steps > 0
            invariant
                steps <= self.type_definitions.len() + self.enums.len(),
                underlying_type(self@, t@, (self.type_definitions.len() + self.enums.len()) as nat) == underlying_type(
                    self@,
                    current@,
                    steps as nat,
                ),
            decreases steps,
        {
            match aliased_type(self, &current) {
                Some(u) => {
                    proof {
                        lemma_underlying_step(self@, current@, steps as nat);
                    }
                    current = u;
                },
                None => {
                    proof {
                        lemma_underlying_settled(self@, current@, steps as nat);
                    }
                    return current;
                },
            }
            steps -= 1;
        }
        current
    }

    /// Assembles the module of the definition.
    pub fn to_module(&self) -> (r: Module)
        requires
            self.kind is Some,
        ensures
            r@ == module_of(self@),
    {
        let kind = match self.kind {
            Some(ContractTy::Library) => ModuleKind::Library,
            _ => ModuleKind::Contract,
        };
        let mut items: Vec<ModuleItem> = Vec::new();
        assert(module_item_models(items@) =~= Seq::empty());
        append_items::<Use, UseView, _>(
            &mut items,
            &self.uses,
            (|x: &Use| -> (r: Vec<ModuleItem>)
                ensures
                    module_item_models(r@) == seq![ModuleItemView::Use(x@)],
                {
                    one_item(ModuleItem::Use(x.clone()))
                }),
            Ghost(use_models(self.uses@)),
            Ghost(|x: UseView| seq![ModuleItemView::Use(x)]),
        );
        append_items::<Constant, ConstantView, _>(
            &mut items,
            &self.constants,
            (|x: &Constant| -> (r: Vec<ModuleItem>)
                ensures
                    module_item_models(r@) == seq![ModuleItemView::Constant(x@)],
                {
                    one_item(ModuleItem::Constant(x.clone()))
                }),
            Ghost(constant_models(self.constants@)),
            Ghost(|x: ConstantView| seq![ModuleItemView::Constant(x)]),
        );
        append_items::<TypeDefinition, TypeDefinitionView, _>(
            &mut items,
            &self.type_definitions,
            (|x: &TypeDefinition| -> (r: Vec<ModuleItem>)
                ensures
                    module_item_models(r@) == seq![ModuleItemView::TypeDefinition(x@)],
                {
                    one_item(ModuleItem::TypeDefinition(x.clone()))
                }),
            Ghost(type_definition_models(self.type_definitions@)),
            Ghost(|x: TypeDefinitionView| seq![ModuleItemView::TypeDefinition(x)]),
        );
        append_items::<TranslatedEnum, TranslatedEnumView, _>(
            &mut items,
            &self.enums,
            (|x: &TranslatedEnum| -> (r: Vec<ModuleItem>)
                ensures
                    module_item_models(r@) == seq![
                        ModuleItemView::TypeDefinition(x@.type_definition),
                        ModuleItemView::Impl(x@.variants_impl),
                    ],
                {
                    two_items(
                        ModuleItem::TypeDefinition(x.type_definition.clone()),
                        ModuleItem::Impl(x.variants_impl.clone()),
                    )
                }),
            Ghost(translated_enum_models(self.enums@)),
            Ghost(
                |x: TranslatedEnumView|
                    seq![ModuleItemView::TypeDefinition(x.type_definition), ModuleItemView::Impl(x.variants_impl)],
            ),
        );
        append_items::<Struct, StructView, _>(
            &mut items,
            &self.structs,
            (|x: &Struct| -> (r: Vec<ModuleItem>)
                ensures
                    module_item_models(r@) == seq![ModuleItemView::Struct(x@)],
                {
                    one_item(ModuleItem::Struct(x.clone()))
                }),
            Ghost(struct_models(self.structs@)),
            Ghost(|x: StructView| seq![ModuleItemView::Struct(x)]),
        );
        append_items::<(Enum, Impl), (EnumView, ImplView), _>(
            &mut items,
            &self.events_enums,
            (|x: &(Enum, Impl)| -> (r: Vec<ModuleItem>)
                ensures
                    module_item_models(r@) == seq![ModuleItemView::Enum(x.0@), ModuleItemView::Impl(x.1@)],
                {
                    two_items(ModuleItem::Enum(x.0.clone()), ModuleItem::Impl(x.1.clone()))
                }),
            Ghost(enum_impl_models(self.events_enums@)),
            Ghost(|x: (EnumView, ImplView)| seq![ModuleItemView::Enum(x.0), ModuleItemView::Impl(x.1)]),
        );
        append_items::<(Enum, Impl), (EnumView, ImplView), _>(
            &mut items,
            &self.errors_enums,
            (|x: &(Enum, Impl)| -> (r: Vec<ModuleItem>)
                ensures
                    module_item_models(r@) == seq![ModuleItemView::Enum(x.0@), ModuleItemView::Impl(x.1@)],
                {
                    two_items(ModuleItem::Enum(x.0.clone()), ModuleItem::Impl(x.1.clone()))
                }),
            Ghost(enum_impl_models(self.errors_enums@)),
            Ghost(|x: (EnumView, ImplView)| seq![ModuleItemView::Enum(x.0), ModuleItemView::Impl(x.1)]),
        );
        append_items::<Abi, AbiView, _>(
            &mut items,
            &self.abis,
            (|x: &Abi| -> (r: Vec<ModuleItem>)
                ensures
                    module_item_models(r@) == seq![ModuleItemView::Abi(x@)],
                {
                    one_item(ModuleItem::Abi(x.clone()))
                }),
            Ghost(abi_models(self.abis@)),
            Ghost(|x: AbiView| seq![ModuleItemView::Abi(x)]),
        );
        let ghost before = module_item_models(items@);
        let mut own = optional(
            match &self.abi {
                Some(x) => Some(ModuleItem::Abi(x.clone())),
                None => None,
            },
        );
        let ghost added = module_item_models(own@);
        items.append(&mut own);
        assert(module_item_models(items@) =~= before + added);
        let ghost before = module_item_models(items@);
        let mut storage = optional(
            match &self.storage {
                Some(x) => Some(ModuleItem::Storage(x.clone())),
                None => None,
            },
        );
        let ghost added = module_item_models(storage@);
        items.append(&mut storage);
        assert(module_item_models(items@) =~= before + added);
        let ghost before = module_item_models(items@);
        let mut configurable = optional(
            match &self.configurable {
                Some(x) => Some(ModuleItem::Configurable(x.clone())),
                None => None,
            },
        );
        let ghost added = module_item_models(configurable@);
        items.append(&mut configurable);
        assert(module_item_models(items@) =~= before + added);
        append_items::<Function, FunctionView, _>(
            &mut items,
            &self.functions,
            (|x: &Function| -> (r: Vec<ModuleItem>)
                ensures
                    module_item_models(r@) == if is_pruned(name_count_models(self.function_call_counts@), x@) {
                        Seq::<ModuleItemView>::empty()
                    } else {
                        seq![ModuleItemView::Function(x@)]
                    },
                {
                    if pruned(&self.function_call_counts, x) {
                        no_items()
                    } else {
                        one_item(ModuleItem::Function(x.clone()))
                    }
                }),
            Ghost(function_models(self.functions@)),
            Ghost(
                |x: FunctionView|
                    if is_pruned(self@.function_call_counts, x) {
                        Seq::empty()
                    } else {
                        seq![ModuleItemView::Function(x)]
                    },
            ),
        );
        append_items::<Impl, ImplView, _>(
            &mut items,
            &self.impls,
            (|x: &Impl| -> (r: Vec<ModuleItem>)
                ensures
                    module_item_models(r@) == seq![ModuleItemView::Impl(x@)],
                {
                    one_item(ModuleItem::Impl(x.clone()))
                }),
            Ghost(impl_models(self.impls@)),
            Ghost(|x: ImplView| seq![ModuleItemView::Impl(x)]),
        );
        Module { kind, items }
    }
}

} // verus!
