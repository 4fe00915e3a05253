//! What a definition offers while it is translated: its imports, its enums
//! and its single `abi`, `storage` and `configurable` blocks.

use vstd::prelude::*;
use crate::solidity::ContractTy;
use crate::sway::{Abi, Configurable, Impl, ImplItem, Storage, TypeName, Use, UseTree};
use crate::sway::clone::clone_strings;
use crate::sway::model::{
    AbiView, ConfigurableView, impl_item_models, impl_models, ImplItemView, ImplView, StorageView,
    string_views, TypeNameView, use_models, UseTreeView, UseView,
};
use crate::sway::module::{empty_abi, impl_is_for, implements_for};
use crate::text::{join3, text, text_eq};
use crate::translate::{TranslatedDefinition, TranslatedEnum, TranslatedVariable};
use crate::translate::infer::local_variable;
use crate::translate::model::{
    TranslatedDefinitionView, TranslatedEnumView, TranslatedVariableView, TranslationScopeView,
};
use crate::translate::scope::{first_match, first_where};

verus! {

/// Where the first `::` at or after `from` starts, or the length of `s` if
/// there is none.
pub open spec fn next_separator(s: Seq<char>, from: int) -> int
    decreases s.len() - from,
{
    if from < 0 || from + 1 >= s.len() {
        s.len() as int
    } else if s[from] == ':' && s[from + 1] == ':' {
        from
    } else {
        next_separator(s, from + 1)
    }
}

/// The segments of a path: the texts between its `::` separators.
pub open spec fn path_segments(s: Seq<char>) -> Seq<Seq<char>>
    decreases s.len(),
{
    let i = next_separator(s, 0);
    if 0 <= i && i + 2 <= s.len() {
        seq![s.subrange(0, i)] + path_segments(s.subrange(i + 2, s.len() as int))
    } else {
        seq![s]
    }
}

/// The import that the segments of a path stand for: a `*` is a glob, the
/// last segment a name, and each segment before it a prefix of what follows.
pub open spec fn use_tree_of(segments: Seq<Seq<char>>) -> Option<UseTreeView>
    decreases segments.len(),
{
    if segments.len() == 0 {
        None
    } else if segments.first() == "*"@ {
        Some(UseTreeView::Glob)
    } else {
        Some(
            match use_tree_of(segments.drop_first()) {
                Some(suffix) => UseTreeView::Path { prefix: segments.first(), suffix: Box::new(suffix) },
                None => UseTreeView::Name { name: segments.first() },
            },
        )
    }
}

/// The test "imports this tree".
pub open spec fn imports(tree: UseTreeView) -> spec_fn(UseView) -> bool {
    |u: UseView| u.tree == tree
}

/// The test "is the impl of the contract `name` for `Contract`".
pub open spec fn is_contract_impl(name: Seq<char>) -> spec_fn(ImplView) -> bool {
    |x: ImplView| implements_for(x, name, "Contract"@)
}

/// The variables that importing an enum declares: one for each constant of
/// its impl, named `Enum::Constant`, of the enum's type.
pub open spec fn variant_variables(
    owner: Seq<char>,
    ty: TypeNameView,
    items: Seq<ImplItemView>,
) -> Seq<TranslatedVariableView>
    decreases items.len(),
{
    if items.len() == 0 {
        Seq::empty()
    } else {
        let before = variant_variables(owner, ty, items.drop_last());
        match items.last() {
            ImplItemView::Constant(c) => before.push(local_variable(owner + "::"@ + c.name, ty)),
            _ => before,
        }
    }
}

impl TranslatedDefinitionView {
    /// A definition that nothing has been generated for yet.
    pub open spec fn new(
        path: Seq<char>,
        kind: ContractTy,
        name: Seq<char>,
        inherits: Seq<Seq<char>>,
    ) -> TranslatedDefinitionView {
        TranslatedDefinitionView { path, kind: Some(kind), name, inherits, ..TranslatedDefinitionView::empty() }
    }

    /// This definition with the import of `path` declared, unless it is
    /// declared already.
    pub open spec fn with_use(self, path: Seq<char>) -> TranslatedDefinitionView {
        let tree = use_tree_of(path_segments(path))->0;
        if first_match(self.uses, imports(tree)) is Some {
            self
        } else {
            TranslatedDefinitionView { uses: self.uses.push(UseView { is_public: false, tree }), ..self }
        }
    }

    /// This definition with an enum imported: the enum is added, and its
    /// variants are declared in the top-level scope.
    pub open spec fn with_enum(self, e: TranslatedEnumView) -> TranslatedDefinitionView {
        TranslatedDefinitionView {
            toplevel_scope: TranslationScopeView {
                variables: self.toplevel_scope.variables + variant_variables(
                    e.type_definition.name->Identifier_name,
                    e.type_definition.name,
                    e.variants_impl.items,
                ),
                ..self.toplevel_scope
            },
            enums: self.enums.push(e),
            ..self
        }
    }

    /// The abi of the definition, or an empty one of its name.
    pub open spec fn abi_or_empty(self) -> AbiView {
        match self.abi {
            Some(a) => a,
            None => empty_abi(self.name),
        }
    }

    /// The impl of the contract for `Contract`, if the definition has one.
    pub open spec fn contract_impl(self) -> Option<ImplView> {
        first_match(self.impls, is_contract_impl(self.name))
    }
}

fn separator_from(s: &str, from: usize) -> (r: usize)
    requires
        from <= s@.len(),
    ensures
        r == next_separator(s@, from as int),
        from <= r <= s@.len(),
        r < s@.len() ==> r + 2 <= s@.len(),
{
    let n = s.unicode_len();
    if n < 2 || from >= n - 1 {
        return n;
    }
    let mut i: usize = from;
    while i < n - 1
        invariant
            from <= i <= n - 1,
            n == s@.len(),
            n >= 2,
            next_separator(s@, from as int) == next_separator(s@, i as int),
        decreases n - i,
    {
        if s.get_char(i) == ':' && s.get_char(i + 1) == ':' {
            return i;
        }
        i += 1;
    }
    n
}

/// The segments of a path: the texts between its `::` separators.
pub fn split_path(s: &str) -> (r: Vec<String>)
    ensures
        string_views(r@) == path_segments(s@),
        r.len() > 0,
    decreases s@.len(),
{
    let n = s.unicode_len();
    let i = separator_from(s, 0);
    if i >= n {
        let mut r: Vec<String> = Vec::new();
        r.push(text(s));
        assert(string_views(r@) =~= seq![s@]);
        r
    } else {
        let mut r = split_path(s.substring_char(i + 2, n));
        let ghost rest = string_views(r@);
        let head = String::from_str(s.substring_char(0, i));
        r.insert(0, head);
        assert(string_views(r@) =~= seq![s@.subrange(0, i as int)] + rest);
        r
    }
}

fn use_tree_from(segments: &Vec<String>, from: usize) -> (r: Option<UseTree>)
    requires
        from <= segments.len(),
    ensures
        crate::translate::definition::tree_view(r) == use_tree_of(
            string_views(segments@).subrange(from as int, segments.len() as int),
        ),
        from < segments.len() ==> r is Some,
    decreases segments.len() - from,
{
    let ghost s = string_views(segments@).subrange(from as int, segments.len() as int);
    if from >= segments.len() {
        None
    } else {
        proof {
            assert(s.first() == segments[from as int]@);
            assert(s.drop_first() =~= string_views(segments@).subrange(from + 1, segments.len() as int));
        }
        if text_eq(segments[from].as_str(), "*") {
            Some(UseTree::Glob)
        } else {
            match use_tree_from(segments, from + 1) {
                Some(suffix) => Some(UseTree::Path { prefix: segments[from].clone(), suffix: Box::new(suffix) }),
                None => Some(UseTree::Name { name: segments[from].clone() }),
            }
        }
    }
}

/// Whether `a` comes before `b` in the order of strings: at the first
/// place where they differ, `a` ends or has the character with the lower
/// code point.
pub open spec fn precedes(a: Seq<char>, b: Seq<char>) -> bool
    decreases a.len(),
{
    if b.len() == 0 {
        false
    } else if a.len() == 0 {
        true
    } else if a.first() != b.first() {
        (a.first() as u32) < (b.first() as u32)
    } else {
        precedes(a.drop_first(), b.drop_first())
    }
}

/// Whether no text comes before a text that stands before it.
pub open spec fn in_order(s: Seq<Seq<char>>) -> bool {
    forall|i: int, j: int| 0 <= i < j < s.len() ==> !precedes(#[trigger] s[j], #[trigger] s[i])
}

/// The test "is this text".
pub open spec fn is_text(t: Seq<char>) -> spec_fn(Seq<char>) -> bool {
    |x: Seq<char>| x == t
}

/// Sorts strings.
///
/// Trusted: calls `sort` of the standard library on a slice of strings,
/// which rearranges the strings so that they stand in the order of
/// strings, that is, by the code points of their characters from the
/// first character on. The contract claims that the same strings are
/// there afterwards and that they are in that order.
#[verifier::external_body]
fn sort_texts(v: &mut Vec<String>)
    ensures
        string_views(final(v)@).to_multiset() == string_views(old(v)@).to_multiset(),
        in_order(string_views(final(v)@)),
{
    v.sort();
}

/// The value of an optional import.
pub open spec fn tree_view(t: Option<UseTree>) -> Option<UseTreeView> {
    match t {
        Some(t) => Some(t@),
        None => None,
    }
}

impl TranslatedDefinitionView {
    /// This definition with the use counts of the variables of its
    /// top-level scope replaced by those that `counted` holds for them.
    pub open spec fn with_counts_of(self, counted: TranslationScopeView) -> TranslatedDefinitionView {
        TranslatedDefinitionView { toplevel_scope: self.toplevel_scope.with_counts_of(counted), ..self }
    }
}

impl TranslatedDefinition {
    /// A definition that nothing has been generated for yet.
    pub fn new(path: &str, kind: ContractTy, name: &str, inherits: &Vec<String>) -> (r: TranslatedDefinition)
        ensures
            r@ == TranslatedDefinitionView::new(path@, kind, name@, string_views(inherits@)),
            r@.names_kept_once(),
    {
        let mut r = TranslatedDefinition::default();
        r.path = text(path);
        r.kind = Some(kind);
        r.name = text(name);
        r.inherits = clone_strings(inherits);
        r
    }

    /// Declares a dependency of the definition, unless it is declared
    /// already, and puts the dependencies in order.
    pub fn ensure_dependency_declared(&mut self, dependency: &str)
        ensures
            first_match(old(self)@.dependencies, is_text(dependency@)) is Some ==> final(self)@ == old(self)@,
            first_match(old(self)@.dependencies, is_text(dependency@)) is None ==> {
                &&& final(self)@ == (TranslatedDefinitionView { dependencies: final(self)@.dependencies, ..old(self)@ })
                &&& final(self)@.dependencies.to_multiset() == old(self)@.dependencies.push(dependency@).to_multiset()
                &&& in_order(final(self)@.dependencies)
            },
    {
        let found = first_where::<String, Seq<char>, _>(
            &self.dependencies,
            (|d: &String| -> (b: bool)
                ensures
                    b == (d@ == dependency@),
                {
                    text_eq(d.as_str(), dependency)
                }),
            Ghost(string_views(self.dependencies@)),
            Ghost(is_text(dependency@)),
        );
        if found.is_some() {
            return ;
        }
        self.dependencies.push(text(dependency));
        assert(string_views(self.dependencies@) =~= old(self)@.dependencies.push(dependency@));
        sort_texts(&mut self.dependencies);
    }

    /// Declares the import of `name`, a path such as `std::bytes::Bytes`,
    /// unless it is declared already.
    pub fn ensure_use_declared(&mut self, name: &str)
        ensures
            final(self)@ == old(self)@.with_use(name@),
    {
        let segments = split_path(name);
        proof {
            assert(string_views(segments@).subrange(0, segments.len() as int) =~= string_views(segments@));
        }
        let tree = match use_tree_from(&segments, 0) {
            Some(tree) => tree,
            None => vstd::pervasive::unreached(),
        };
        let found = first_where::<Use, UseView, _>(
            &self.uses,
            (|u: &Use| -> (b: bool)
                ensures
                    b == (u@.tree == tree@),
                {
                    u.tree.eq(&tree)
                }),
            Ghost(use_models(self.uses@)),
            Ghost(imports(tree@)),
        );
        if found.is_none() {
            self.uses.push(Use { is_public: false, tree });
            assert(final(self)@.uses =~= old(self)@.uses.push(UseView { is_public: false, tree: tree@ }));
        }
    }

    /// Imports an enum of another definition: adds it to this definition
    /// and declares its variants in the top-level scope.
    pub fn import_enum(&mut self, translated_enum: &TranslatedEnum)
        requires
            translated_enum@.type_definition.name matches TypeNameView::Identifier { generic_parameters: None, .. },
        ensures
            final(self)@ == old(self)@.with_enum(translated_enum@),
    {
        match &translated_enum.type_definition.name {
            TypeName::Identifier { name, generic_parameters: _ } => {
                let items = &translated_enum.variants_impl.items;
                let ghost models = impl_item_models(items@);
                let ghost ty = translated_enum@.type_definition.name;
                let ghost before = self@.toplevel_scope.variables;
                let mut i: usize = 0;
                assert(models.subrange(0, 0) =~= Seq::empty());
                assert(self@.toplevel_scope.variables =~= before + variant_variables(
                    name@,
                    ty,
                    models.subrange(0, 0),
                ));
                while i < items.len()
                    invariant
                        i <= items.len(),
                        models == impl_item_models(items@),
                        ty == translated_enum@.type_definition.name,
                        self@.toplevel_scope.variables == before + variant_variables(
                            name@,
                            ty,
                            models.subrange(0, i as int),
                        ),
                        self@ == (TranslatedDefinitionView {
                            toplevel_scope: TranslationScopeView {
                                variables: self@.toplevel_scope.variables,
                                ..old(self)@.toplevel_scope
                            },
                            ..old(self)@
                        }),
                    decreases items.len() - i,
                {
                    proof {
                        let s = models.subrange(0, i + 1);
                        assert(s.last() == items[i as int]@);
                        assert(s.drop_last() =~= models.subrange(0, i as int));
                    }
                    let ghost so_far = self@.toplevel_scope.variables;
                    match &items[i] {
                        ImplItem::Constant(c) => {
                            let variable = TranslatedVariable {
                                old_name: String::new(),
                                new_name: join3(name.as_str(), "::", c.name.as_str()),
                                ty: translated_enum.type_definition.name.clone(),
                                abi_type_name: None,
                                is_storage: false,
                                is_configurable: false,
                                is_constant: false,
                                statement_index: None,
                                read_count: 0,
                                mutation_count: 0,
                            };
                            self.toplevel_scope.variables.push(variable);
                            assert(self@.toplevel_scope.variables =~= so_far.push(variable@));
                            assert(self@.toplevel_scope.variables =~= before + variant_variables(
                                name@,
                                ty,
                                models.subrange(0, i + 1),
                            ));
                        },
                        _ => {},
                    }
                    i += 1;
                }
                assert(models.subrange(0, i as int) =~= models);
                self.enums.push(translated_enum.clone());
                assert(final(self)@.enums =~= old(self)@.enums.push(translated_enum@));
            },
            _ => {},
        }
    }

    /// Gets the abi for the translated definition. If it doesn't exist, it gets created.
    pub fn get_abi(&mut self) -> (r: &mut Abi)
        ensures
            r@ == old(self)@.abi_or_empty(),
            final(self)@ == (TranslatedDefinitionView { abi: Some(final(r)@), ..old(self)@ }),
    {
        if self.abi.is_none() {
            let abi = Abi { name: self.name.clone(), inherits: Vec::new(), functions: Vec::new() };
            assert(abi@.inherits =~= Seq::empty());
            assert(abi@.functions =~= Seq::empty());
            self.abi = Some(abi);
        }
        match &mut self.abi {
            Some(abi) => abi,
            None => vstd::pervasive::unreached(),
        }
    }

    /// Gets the configurable block for the translated definition. If it doesn't exist, it gets created.
    pub fn get_configurable(&mut self) -> (r: &mut Configurable)
        ensures
            r@ == match old(self)@.configurable {
                Some(c) => c,
                None => ConfigurableView::empty(),
            },
            final(self)@ == (TranslatedDefinitionView { configurable: Some(final(r)@), ..old(self)@ }),
    {
        if self.configurable.is_none() {
            self.configurable = Some(Configurable::default());
        }
        match &mut self.configurable {
            Some(configurable) => configurable,
            None => vstd::pervasive::unreached(),
        }
    }

    /// Gets the storage block for the translated definition. If it doesn't exist, it gets created.
    pub fn get_storage(&mut self) -> (r: &mut Storage)
        ensures
            r@ == match old(self)@.storage {
                Some(s) => s,
                None => StorageView::empty(),
            },
            final(self)@ == (TranslatedDefinitionView { storage: Some(final(r)@), ..old(self)@ }),
    {
        if self.storage.is_none() {
            self.storage = Some(Storage::default());
        }
        match &mut self.storage {
            Some(storage) => storage,
            None => vstd::pervasive::unreached(),
        }
    }

    pub(crate) fn contract_impl_position(&self) -> (r: Option<usize>)
        ensures
            match r {
                Some(i) => {
                    &&& i < self.impls.len()
                    &&& self@.contract_impl() == Some(self.impls[i as int]@)
                    &&& is_contract_impl(self@.name)(self.impls[i as int]@)
                    &&& forall|j: int| 0 <= j < i ==> !is_contract_impl(self@.name)(#[trigger] self@.impls[j])
                },
                None => self@.contract_impl() is None,
            },
    {
        first_where::<Impl, ImplView, _>(
            &self.impls,
            (|x: &Impl| -> (b: bool)
                ensures
                    b == implements_for(x@, self.name@, "Contract"@),
                {
                    impl_is_for(x, self.name.as_str(), "Contract")
                }),
            Ghost(impl_models(self.impls@)),
            Ghost(is_contract_impl(self@.name)),
        )
    }

    /// The impl of the contract for `Contract`, if the definition has one.
    pub fn find_contract_impl(&self) -> (r: Option<&Impl>)
        ensures
            match r {
                Some(x) => self@.contract_impl() == Some(x@),
                None => self@.contract_impl() is None,
            },
    {
        match self.contract_impl_position() {
            Some(i) => Some(&self.impls[i]),
            None => None,
        }
    }
}

} // verus!
