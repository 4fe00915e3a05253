//! Scopes: which binding a name resolves to.
//!
//! A scope holds the variables and functions declared in one block, in the
//! order of their declaration, and owns the scope of the enclosing block as
//! its parent. A name resolves to the latest declaration in the innermost
//! scope that has one.

use vstd::prelude::*;
use vstd::string::StringExecFns;
use crate::sway::{Expression, TypeName};
use crate::sway::model::{type_name_models, TypeNameView};
use crate::sway::typing::compatible;
use crate::text::{join2, text_eq};
use crate::translate::{TranslatedFunction, TranslatedVariable, TranslationScope};
use crate::translate::model::{
    translated_function_models, translated_variable_models, TranslatedFunctionView, TranslatedVariableView,
    TranslationScopeView,
};

verus! {

/// The last element of `s` that satisfies `p`, if there is one.
pub open spec fn last_match<T>(s: Seq<T>, p: spec_fn(T) -> bool) -> Option<T>
    decreases s.len(),
{
    if s.len() == 0 {
        None
    } else if p(s.last()) {
        Some(s.last())
    } else {
        last_match(s.drop_last(), p)
    }
}

/// The first element of `s` that satisfies `p`, if there is one.
pub open spec fn first_match<T>(s: Seq<T>, p: spec_fn(T) -> bool) -> Option<T>
    decreases s.len(),
{
    if s.len() == 0 {
        None
    } else if p(s.first()) {
        Some(s.first())
    } else {
        first_match(s.drop_first(), p)
    }
}

/// The text `_..._name` with `k` underscores in front.
pub open spec fn underscored(k: nat, name: Seq<char>) -> Seq<char>
    decreases k,
{
    if k == 0 {
        name
    } else {
        seq!['_'] + underscored((k - 1) as nat, name)
    }
}

/// The value of an optional reference to a variable.
pub open spec fn variable_view(v: Option<&TranslatedVariable>) -> Option<TranslatedVariableView> {
    match v {
        Some(v) => Some(v@),
        None => None,
    }
}

/// The value of an optional reference to a function.
pub open spec fn function_view(f: Option<&TranslatedFunction>) -> Option<TranslatedFunctionView> {
    match f {
        Some(f) => Some(f@),
        None => None,
    }
}

/// The test "is named `name`", by the new name or by the old one.
pub open spec fn named(name: Seq<char>, new: bool) -> spec_fn(TranslatedVariableView) -> bool {
    |v: TranslatedVariableView| if new { v.new_name == name } else { v.old_name == name }
}

/// How many of the variables have a new name of at least `n` characters.
pub open spec fn names_at_least(s: Seq<TranslatedVariableView>, n: nat) -> nat
    decreases s.len(),
{
    if s.len() == 0 {
        0
    } else {
        names_at_least(s.drop_last(), n) + if s.last().new_name.len() >= n { 1nat } else { 0nat }
    }
}

impl TranslationScopeView {
    /// The variables that can be seen from this scope, outermost scope first
    /// and, within a scope, in the order of declaration.
    pub open spec fn visible_variables(self) -> Seq<TranslatedVariableView>
        decreases self,
    {
        match self.parent {
            Some(p) => p.visible_variables() + self.variables,
            None => self.variables,
        }
    }

    /// What a search for a variable with the test `p` finds: the latest
    /// declaration that passes it in the innermost scope that has one.
    pub open spec fn variable_where(self, p: spec_fn(TranslatedVariableView) -> bool) -> Option<
        TranslatedVariableView,
    >
        decreases self,
    {
        match last_match(self.variables, p) {
            Some(v) => Some(v),
            None => match self.parent {
                Some(outer) => outer.variable_where(p),
                None => None,
            },
        }
    }

    /// The functions in the order in which a search meets them: scope by
    /// scope from the innermost, each in the order of declaration.
    pub open spec fn function_search_order(self) -> Seq<TranslatedFunctionView>
        decreases self,
    {
        match self.parent {
            Some(p) => self.functions + p.function_search_order(),
            None => self.functions,
        }
    }

    /// The binding that a name resolves to: the latest declaration with that
    /// name in this scope or else what the parent resolves it to.
    pub open spec fn variable_named(self, name: Seq<char>, new: bool) -> Option<TranslatedVariableView>
        decreases self,
    {
        match last_match(self.variables, named(name, new)) {
            Some(v) => Some(v),
            None => match self.parent {
                Some(p) => p.variable_named(name, new),
                None => None,
            },
        }
    }

    /// The binding that a name of the source resolves to.
    pub open spec fn variable_from_old_name(self, name: Seq<char>) -> Option<TranslatedVariableView> {
        self.variable_named(name, false)
    }

    /// The binding that a name of the target resolves to.
    pub open spec fn variable_from_new_name(self, name: Seq<char>) -> Option<TranslatedVariableView> {
        self.variable_named(name, true)
    }

    /// The scope around this one; the scope itself if there is none.
    pub open spec fn outer(self) -> TranslationScopeView {
        match self.parent {
            Some(p) => *p,
            None => self,
        }
    }

    /// This scope with the use counts of its variables replaced by those
    /// that `counted` holds for them.
    pub open spec fn with_counts_of(self, counted: TranslationScopeView) -> TranslationScopeView {
        TranslationScopeView { variables: counts_taken(self.variables, counted.variables), ..self }
    }

    /// A new, empty scope inside this one.
    pub open spec fn child(self) -> TranslationScopeView {
        TranslationScopeView { parent: Some(Box::new(self)), variables: Seq::empty(), functions: Seq::empty() }
    }

    /// This scope with one more variable declared.
    pub open spec fn declare(self, v: TranslatedVariableView) -> TranslationScopeView {
        TranslationScopeView { variables: self.variables.push(v), ..self }
    }

    /// Whether `r` is `name` behind exactly `k` underscores, is free in this
    /// scope, and every shorter candidate is taken.
    pub open spec fn is_unique_name(self, name: Seq<char>, k: nat, r: Seq<char>) -> bool {
        &&& r == underscored(k, name)
        &&& self.variable_from_new_name(r) is None
        &&& forall|j: nat| j < k ==> (#[trigger] self.variable_from_new_name(underscored(j, name))) is Some
    }
}

/// The variables with their use counts replaced, position by position, by
/// those of `counted`; a variable without counterpart keeps its counts.
pub open spec fn counts_taken(
    variables: Seq<TranslatedVariableView>,
    counted: Seq<TranslatedVariableView>,
) -> Seq<TranslatedVariableView> {
    Seq::new(
        variables.len(),
        |i: int|
            if i < counted.len() {
                TranslatedVariableView {
                    read_count: counted[i].read_count,
                    mutation_count: counted[i].mutation_count,
                    ..variables[i]
                }
            } else {
                variables[i]
            },
    )
}

/// What `last_match` finds in a concatenation: what it finds in the second
/// part, or else what it finds in the first.
pub proof fn lemma_last_match_concat<T>(a: Seq<T>, b: Seq<T>, p: spec_fn(T) -> bool)
    ensures
        last_match(a + b, p) == match last_match(b, p) {
            Some(x) => Some(x),
            None => last_match(a, p),
        },
    decreases b.len(),
{
    if b.len() == 0 {
        assert(a + b =~= a);
    } else {
        assert((a + b).last() == b.last());
        assert((a + b).drop_last() =~= a + b.drop_last());
        if !p(b.last()) {
            lemma_last_match_concat(a, b.drop_last(), p);
        }
    }
}

/// What `last_match` finds is an element that satisfies the test, and no
/// later element does.
pub proof fn lemma_last_match_is_last<T>(s: Seq<T>, p: spec_fn(T) -> bool)
    ensures
        match last_match(s, p) {
            Some(x) => exists|i: int|
                0 <= i < s.len() && s[i] == x && p(x) && forall|j: int| i < j < s.len() ==> !p(#[trigger] s[j]),
            None => forall|j: int| 0 <= j < s.len() ==> !p(#[trigger] s[j]),
        },
    decreases s.len(),
{
    if s.len() == 0 {
    } else if p(s.last()) {
        let i = s.len() - 1;
        assert(s[i] == s.last());
    } else {
        lemma_last_match_is_last(s.drop_last(), p);
        match last_match(s.drop_last(), p) {
            Some(x) => {
                let i = choose|i: int|
                    0 <= i < s.drop_last().len() && s.drop_last()[i] == x && p(x) && forall|j: int|
                        i < j < s.drop_last().len() ==> !p(#[trigger] s.drop_last()[j]);
                assert(s[i] == x);
                assert forall|j: int| i < j < s.len() implies !p(#[trigger] s[j]) by {
                    if j < s.len() - 1 {
                        assert(s.drop_last()[j] == s[j]);
                    }
                }
            },
            None => {
                assert forall|j: int| 0 <= j < s.len() implies !p(#[trigger] s[j]) by {
                    if j < s.len() - 1 {
                        assert(s.drop_last()[j] == s[j]);
                    }
                }
            },
        }
    }
}

/// Shadowing: a name resolves to the innermost declaration that has it, that
/// is, to the last one among all visible variables taken from the outermost
/// scope inwards.
pub proof fn lemma_lookup_is_innermost(scope: TranslationScopeView, name: Seq<char>, new: bool)
    ensures
        scope.variable_named(name, new) == last_match(scope.visible_variables(), named(name, new)),
    decreases scope,
{
    match scope.parent {
        Some(p) => {
            lemma_lookup_is_innermost(*p, name, new);
            lemma_last_match_concat(p.visible_variables(), scope.variables, named(name, new));
        },
        None => {},
    }
}

/// Shadowing: a variable declared in a child scope is what its new name
/// resolves to there, whatever the parent declares; and once the child is
/// discarded, what is left is the parent, so that every name resolves as it
/// did before the child was entered.
pub proof fn lemma_child_declaration_shadows_and_is_discarded(
    scope: TranslationScopeView,
    v: TranslatedVariableView,
)
    ensures
        scope.child().declare(v).variable_from_new_name(v.new_name) == Some(v),
        scope.child().declare(v).outer() == scope,
        forall|name: Seq<char>|
            scope.child().declare(v).outer().variable_from_new_name(name) == #[trigger] scope.variable_from_new_name(
                name,
            ),
{
    let c = scope.child().declare(v);
    assert(c.variables.last() == v);
}

/// Uniqueness: the generated name is determined by the scope and the base
/// name. Two results that both meet the contract of
/// `generate_unique_variable_name` are the same text behind the same number
/// of underscores.
pub proof fn lemma_unique_name_is_determined(
    scope: TranslationScopeView,
    name: Seq<char>,
    k1: nat,
    r1: Seq<char>,
    k2: nat,
    r2: Seq<char>,
)
    requires
        scope.is_unique_name(name, k1, r1),
        scope.is_unique_name(name, k2, r2),
    ensures
        k1 == k2,
        r1 == r2,
{
    if k1 < k2 {
        assert(scope.variable_from_new_name(underscored(k1, name)) is Some);
    }
    if k2 < k1 {
        assert(scope.variable_from_new_name(underscored(k2, name)) is Some);
    }
}

proof fn lemma_indexed_at(s: Seq<TranslatedVariableView>, name: Seq<char>, index: usize, i: int)
    requires
        0 <= i < s.len(),
        forall|j: int| i < j < s.len() ==> !named(name, true)(#[trigger] s[j]),
        named(name, true)(s[i]),
    ensures
        indexed_at(s, name, index) =~= s.update(i, TranslatedVariableView { statement_index: Some(index), ..s[i] }),
    decreases s.len(),
{
    if i == s.len() - 1 {
    } else {
        assert(!named(name, true)(s[s.len() - 1]));
        let t = s.drop_last();
        assert(t[i] == s[i]);
        assert forall|j: int| i < j < t.len() implies !named(name, true)(#[trigger] t[j]) by {
            assert(t[j] == s[j]);
        }
        lemma_indexed_at(t, name, index, i);
    }
}

proof fn lemma_indexed_none(s: Seq<TranslatedVariableView>, name: Seq<char>, index: usize)
    requires
        forall|j: int| 0 <= j < s.len() ==> !named(name, true)(#[trigger] s[j]),
    ensures
        indexed_at(s, name, index) =~= s,
    decreases s.len(),
{
    if s.len() > 0 {
        assert(!named(name, true)(s[s.len() - 1]));
        let t = s.drop_last();
        assert forall|j: int| 0 <= j < t.len() implies !named(name, true)(#[trigger] t[j]) by {
            assert(t[j] == s[j]);
        }
        lemma_indexed_none(t, name, index);
    }
}

proof fn lemma_used_at(s: Seq<TranslatedVariableView>, name: Seq<char>, mutation: bool, i: int)
    requires
        0 <= i < s.len(),
        last_match(s, named(name, false)) == Some(s[i]),
        forall|j: int| i < j < s.len() ==> !named(name, false)(#[trigger] s[j]),
        named(name, false)(s[i]),
    ensures
        used_at(s, name, mutation) =~= s.update(i, used_once_more(s[i], mutation)),
    decreases s.len(),
{
    if i == s.len() - 1 {
    } else {
        assert(!named(name, false)(s[s.len() - 1]));
        let t = s.drop_last();
        assert(t[i] == s[i]);
        assert forall|j: int| i < j < t.len() implies !named(name, false)(#[trigger] t[j]) by {
            assert(t[j] == s[j]);
        }
        lemma_used_at(t, name, mutation, i);
    }
}

proof fn lemma_names_at_least_step(s: Seq<TranslatedVariableView>, n: nat)
    ensures
        names_at_least(s, n + 1) <= names_at_least(s, n),
        (exists|i: int| 0 <= i < s.len() && (#[trigger] s[i]).new_name.len() == n) ==> names_at_least(s, n + 1)
            < names_at_least(s, n),
    decreases s.len(),
{
    if s.len() > 0 {
        lemma_names_at_least_step(s.drop_last(), n);
        if exists|i: int| 0 <= i < s.len() && (#[trigger] s[i]).new_name.len() == n {
            let i = choose|i: int| 0 <= i < s.len() && (#[trigger] s[i]).new_name.len() == n;
            if i < s.len() - 1 {
                assert(s.drop_last()[i] == s[i]);
            }
        }
    }
}

proof fn lemma_underscored_len(k: nat, name: Seq<char>)
    ensures
        underscored(k, name).len() == name.len() + k,
    decreases k,
{
    if k > 0 {
        lemma_underscored_len((k - 1) as nat, name);
    }
}

proof fn lemma_underscored_push(k: nat, name: Seq<char>)
    ensures
        underscored(k + 1, name) == seq!['_'] + underscored(k, name),
{
}

/// The test "can be called by this name with arguments of these types":
/// the name (the new one or the old one) is the same, as many parameters are
/// declared as arguments are given, and each argument's type is compatible
/// with the type of the parameter in its place, where that parameter
/// declares one.
pub open spec fn accepts_call(name: Seq<char>, new: bool, arguments: nat, types: Seq<TypeNameView>) -> spec_fn(
    TranslatedFunctionView,
) -> bool {
    |f: TranslatedFunctionView|
        {
            &&& if new {
                f.new_name == name
            } else {
                f.old_name == name
            }
            &&& f.parameters.entries.len() == arguments
            &&& types.len() == arguments
            &&& forall|i: int|
                0 <= i < arguments ==> match (#[trigger] f.parameters.entries[i]).ty {
                    Some(t) => compatible(types[i], t),
                    None => true,
                }
        }
}

/// `v` is the `i`-th of `items`, `f` accepts it and rejects all after it.
pub open spec fn is_last_accepted<T, F: Fn(&T) -> bool>(items: Seq<T>, f: F, i: int, v: T) -> bool {
    &&& 0 <= i < items.len()
    &&& items[i] == v
    &&& f.ensures((&v,), true)
    &&& forall|j: int| i < j < items.len() ==> f.ensures((&#[trigger] items[j],), false)
}

/// `v` is what a search for a variable with `f` finds: the latest
/// declaration that `f` accepts in the innermost scope that has one.
pub open spec fn is_found_variable<F: Fn(&TranslatedVariable) -> bool>(
    scope: TranslationScope,
    f: F,
    v: TranslatedVariable,
) -> bool
    decreases scope,
{
    ||| exists|i: int| is_last_accepted(scope.variables@, f, i, v)
    ||| all_rejected(scope.variables@, f) && match scope.parent {
        Some(p) => is_found_variable(*p, f, v),
        None => false,
    }
}

/// `f` rejects every variable of the scope and of its ancestors.
pub open spec fn no_variable_accepted<F: Fn(&TranslatedVariable) -> bool>(scope: TranslationScope, f: F) -> bool
    decreases scope,
{
    all_rejected(scope.variables@, f) && match scope.parent {
        Some(p) => no_variable_accepted(*p, f),
        None => true,
    }
}

/// The functions of a scope and of its ancestors in the order in which a
/// search meets them.
pub open spec fn functions_in_search_order(scope: TranslationScope) -> Seq<TranslatedFunction>
    decreases scope,
{
    match scope.parent {
        Some(p) => scope.functions@ + functions_in_search_order(*p),
        None => scope.functions@,
    }
}

/// `v` is the `i`-th of `order`, `f` accepts it and rejects all before it.
pub open spec fn is_first_accepted<T, F: Fn(&T) -> bool>(order: Seq<T>, f: F, i: int, v: T) -> bool {
    &&& 0 <= i < order.len()
    &&& order[i] == v
    &&& f.ensures((&v,), true)
    &&& forall|j: int| 0 <= j < i ==> f.ensures((&#[trigger] order[j],), false)
}

/// `f` rejects every element of `order`.
pub open spec fn all_rejected<T, F: Fn(&T) -> bool>(order: Seq<T>, f: F) -> bool {
    forall|j: int| 0 <= j < order.len() ==> f.ensures((&#[trigger] order[j],), false)
}

/// The scope with the statement index of the last variable of the
/// innermost scope that has the new name `name` set to `index`; the same
/// scope if there is none.
pub open spec fn indexed(scope: TranslationScopeView, name: Seq<char>, index: usize) -> TranslationScopeView {
    TranslationScopeView { variables: indexed_at(scope.variables, name, index), ..scope }
}

/// The variables with the statement index of the last that has the new
/// name `name` set to `index`.
pub open spec fn indexed_at(
    s: Seq<TranslatedVariableView>,
    name: Seq<char>,
    index: usize,
) -> Seq<TranslatedVariableView>
    decreases s.len(),
{
    if s.len() == 0 {
        s
    } else if s.last().new_name == name {
        s.drop_last().push(TranslatedVariableView { statement_index: Some(index), ..s.last() })
    } else {
        indexed_at(s.drop_last(), name, index).push(s.last())
    }
}

/// The count one larger, or the largest count there is.
pub open spec fn counted_once_more(count: usize) -> usize {
    if count < usize::MAX {
        (count + 1) as usize
    } else {
        count
    }
}

/// The variable after one more use: a mutation or a read.
pub open spec fn used_once_more(v: TranslatedVariableView, mutation: bool) -> TranslatedVariableView {
    if mutation {
        TranslatedVariableView { mutation_count: counted_once_more(v.mutation_count), ..v }
    } else {
        TranslatedVariableView { read_count: counted_once_more(v.read_count), ..v }
    }
}

/// The variables after one more use of the last that has the old name
/// `name`.
pub open spec fn used_at(
    s: Seq<TranslatedVariableView>,
    name: Seq<char>,
    mutation: bool,
) -> Seq<TranslatedVariableView>
    decreases s.len(),
{
    if s.len() == 0 {
        s
    } else if s.last().old_name == name {
        s.drop_last().push(used_once_more(s.last(), mutation))
    } else {
        used_at(s.drop_last(), name, mutation).push(s.last())
    }
}

impl TranslationScopeView {
    /// This scope after one more use, a mutation or a read, of the variable
    /// that the source name `name` resolves to; the same scope if it
    /// resolves to none.
    pub open spec fn with_use(self, name: Seq<char>, mutation: bool) -> TranslationScopeView
        decreases self,
    {
        if last_match(self.variables, named(name, false)) is Some {
            TranslationScopeView { variables: used_at(self.variables, name, mutation), ..self }
        } else {
            match self.parent {
                Some(p) => TranslationScopeView { parent: Some(Box::new(p.with_use(name, mutation))), ..self },
                None => self,
            }
        }
    }

    /// This scope after one more mutation of the variable that the source
    /// name `name` resolves to.
    pub open spec fn with_mutation(self, name: Seq<char>) -> TranslationScopeView {
        self.with_use(name, true)
    }

    /// This scope after one more read of the variable that the source name
    /// `name` resolves to.
    pub open spec fn with_read(self, name: Seq<char>) -> TranslationScopeView {
        self.with_use(name, false)
    }

    /// The function that a call by name resolves to: the first in search
    /// order that accepts the call.
    pub open spec fn function_accepting(
        self,
        name: Seq<char>,
        new: bool,
        arguments: nat,
        types: Seq<TypeNameView>,
    ) -> Option<TranslatedFunctionView> {
        first_match(self.function_search_order(), accepts_call(name, new, arguments, types))
    }

    /// The function that a call by the name of the source resolves to.
    pub open spec fn function_matching_types(
        self,
        old_name: Seq<char>,
        arguments: nat,
        types: Seq<TypeNameView>,
    ) -> Option<TranslatedFunctionView> {
        self.function_accepting(old_name, false, arguments, types)
    }
}

/// What `first_match` finds is the first element that satisfies the test;
/// it finds none only if no element satisfies it.
pub proof fn lemma_first_match_is_first<T>(s: Seq<T>, p: spec_fn(T) -> bool)
    ensures
        match first_match(s, p) {
            Some(x) => exists|i: int|
                0 <= i < s.len() && s[i] == x && p(x) && forall|j: int| 0 <= j < i ==> !p(#[trigger] s[j]),
            None => forall|j: int| 0 <= j < s.len() ==> !p(#[trigger] s[j]),
        },
    decreases s.len(),
{
    if s.len() == 0 {
    } else if p(s.first()) {
        assert(s[0] == s.first());
    } else {
        let t = s.drop_first();
        lemma_first_match_is_first(t, p);
        match first_match(t, p) {
            Some(x) => {
                let i = choose|i: int|
                    0 <= i < t.len() && t[i] == x && p(x) && forall|j: int| 0 <= j < i ==> !p(#[trigger] t[j]);
                assert(s[i + 1] == x);
                assert forall|j: int| 0 <= j < i + 1 implies !p(#[trigger] s[j]) by {
                    if j > 0 {
                        assert(t[j - 1] == s[j]);
                    }
                }
            },
            None => {
                assert forall|j: int| 0 <= j < s.len() implies !p(#[trigger] s[j]) by {
                    if j > 0 {
                        assert(t[j - 1] == s[j]);
                    }
                }
            },
        }
    }
}

/// What `first_match` finds in a concatenation: what it finds in the first
/// part, or else what it finds in the second.
pub proof fn lemma_first_match_concat<T>(a: Seq<T>, b: Seq<T>, p: spec_fn(T) -> bool)
    ensures
        first_match(a + b, p) == match first_match(a, p) {
            Some(x) => Some(x),
            None => first_match(b, p),
        },
    decreases a.len(),
{
    if a.len() == 0 {
        assert(a + b =~= b);
    } else {
        assert((a + b).first() == a.first());
        assert((a + b).drop_first() =~= a.drop_first() + b);
        if !p(a.first()) {
            lemma_first_match_concat(a.drop_first(), b, p);
        }
    }
}

fn first_accepting(
    functions: &Vec<TranslatedFunction>,
    old_name: &str,
    new: bool,
    arguments: usize,
    types: &[TypeName],
) -> (r: Option<usize>)
    ensures
        match r {
            Some(i) => i < functions.len() && first_match(
                translated_function_models(functions@),
                accepts_call(old_name@, new, arguments as nat, type_name_models(types@)),
            ) == Some(functions[i as int]@),
            None => first_match(
                translated_function_models(functions@),
                accepts_call(old_name@, new, arguments as nat, type_name_models(types@)),
            ) is None,
        },
{
    let ghost models = translated_function_models(functions@);
    let ghost p = accepts_call(old_name@, new, arguments as nat, type_name_models(types@));
    let mut i: usize = 0;
    assert(models.subrange(0, models.len() as int) =~= models);
    while i < functions.len()
        invariant
            i <= functions.len(),
            models == translated_function_models(functions@),
            p == accepts_call(old_name@, new, arguments as nat, type_name_models(types@)),
            first_match(models, p) == first_match(models.subrange(i as int, models.len() as int), p),
        decreases functions.len() - i,
    {
        let f = &functions[i];
        let hit = accepts(f, old_name, new, arguments, types);
        proof {
            let s = models.subrange(i as int, models.len() as int);
            assert(s.first() == models[i as int]);
            assert(s.drop_first() =~= models.subrange(i + 1, models.len() as int));
        }
        if hit {
            return Some(i);
        }
        i += 1;
    }
    None
}

fn accepts(f: &TranslatedFunction, old_name: &str, new: bool, arguments: usize, types: &[TypeName]) -> (r: bool)
    ensures
        r == accepts_call(old_name@, new, arguments as nat, type_name_models(types@))(f@),
{
    let same = if new {
        text_eq(f.new_name.as_str(), old_name)
    } else {
        text_eq(f.old_name.as_str(), old_name)
    };
    if !same {
        return false;
    }
    if f.parameters.entries.len() != arguments || types.len() != arguments {
        return false;
    }
    let ghost entries = f@.parameters.entries;
    let ghost type_models = type_name_models(types@);
    let mut i: usize = 0;
    while i < arguments
        invariant
            i <= arguments,
            f.parameters.entries.len() == arguments,
            types.len() == arguments,
            entries == f@.parameters.entries,
            type_models == type_name_models(types@),
            forall|j: int|
                0 <= j < i ==> match (#[trigger] entries[j]).ty {
                    Some(t) => compatible(type_models[j], t),
                    None => true,
                },
        decreases arguments - i,
    {
        assert(entries[i as int] == f.parameters.entries[i as int]@);
        match &f.parameters.entries[i].ty {
            Some(t) => {
                if !types[i].is_compatible_with(t) {
                    return false;
                }
            },
            None => {},
        }
        i += 1;
    }
    true
}

/// The position of the first item that `f` accepts, where `f` decides the
/// test `p` on the items' values.
pub(crate) fn first_where<T, V, F: Fn(&T) -> bool>(
    items: &Vec<T>,
    f: F,
    Ghost(views): Ghost<Seq<V>>,
    Ghost(p): Ghost<spec_fn(V) -> bool>,
) -> (r: Option<usize>)
    requires
        views.len() == items.len(),
        forall|i: int| 0 <= i < items.len() ==> f.requires((&#[trigger] items[i],)),
        forall|i: int, b: bool| 0 <= i < items.len() && f.ensures((&#[trigger] items[i],), b) ==> b == p(views[i]),
    ensures
        match r {
            Some(i) => {
                &&& i < items.len()
                &&& first_match(views, p) == Some(views[i as int])
                &&& p(views[i as int])
                &&& forall|j: int| 0 <= j < i ==> !p(#[trigger] views[j])
            },
            None => first_match(views, p) is None && forall|j: int| 0 <= j < views.len() ==> !p(#[trigger] views[j]),
        },
{
    let mut i: usize = 0;
    assert(views.subrange(0, views.len() as int) =~= views);
    while i < items.len()
        invariant
            i <= items.len(),
            views.len() == items.len(),
            forall|i: int| 0 <= i < items.len() ==> f.requires((&#[trigger] items[i],)),
            forall|i: int, b: bool|
                0 <= i < items.len() && f.ensures((&#[trigger] items[i],), b) ==> b == p(views[i]),
            first_match(views, p) == first_match(views.subrange(i as int, views.len() as int), p),
            forall|j: int| 0 <= j < i ==> !p(#[trigger] views[j]),
        decreases items.len() - i,
    {
        let hit = f(&items[i]);
        proof {
            let s = views.subrange(i as int, views.len() as int);
            assert(s.first() == views[i as int]);
            assert(s.drop_first() =~= views.subrange(i + 1, views.len() as int));
        }
        if hit {
            return Some(i);
        }
        i += 1;
    }
    None
}

fn first_accepted<T, F: Fn(&T) -> bool>(items: &Vec<T>, f: &F) -> (r: Option<usize>)
    requires
        forall|v: &T| f.requires((v,)),
    ensures
        match r {
            Some(i) => i < items.len() && is_first_accepted(items@, *f, i as int, items[i as int]),
            None => all_rejected(items@, *f),
        },
{
    let mut i: usize = 0;
    while i < items.len()
        invariant
            i <= items.len(),
            forall|v: &T| f.requires((v,)),
            forall|j: int| 0 <= j < i ==> f.ensures((&#[trigger] items[j],), false),
        decreases items.len() - i,
    {
        if f(&items[i]) {
            return Some(i);
        }
        i += 1;
    }
    None
}

fn last_accepted<T, F: Fn(&T) -> bool>(items: &Vec<T>, f: &F) -> (r: Option<usize>)
    requires
        forall|v: &T| f.requires((v,)),
    ensures
        match r {
            Some(i) => i < items.len() && is_last_accepted(items@, *f, i as int, items[i as int]),
            None => all_rejected(items@, *f),
        },
{
    let mut i: usize = items.len();
    while i > 0
        invariant
            i <= items.len(),
            forall|v: &T| f.requires((v,)),
            forall|j: int| i <= j < items.len() ==> f.ensures((&#[trigger] items[j],), false),
        decreases i,
    {
        i -= 1;
        if f(&items[i]) {
            return Some(i);
        }
    }
    None
}

/// The position of the last item that `f` accepts, where `f` decides the
/// test `p` on the items' values.
pub(crate) fn last_where<T, V, F: Fn(&T) -> bool>(
    items: &Vec<T>,
    f: F,
    Ghost(views): Ghost<Seq<V>>,
    Ghost(p): Ghost<spec_fn(V) -> bool>,
) -> (r: Option<usize>)
    requires
        views.len() == items.len(),
        forall|i: int| 0 <= i < items.len() ==> f.requires((&#[trigger] items[i],)),
        forall|i: int, b: bool| 0 <= i < items.len() && f.ensures((&#[trigger] items[i],), b) ==> b == p(views[i]),
    ensures
        match r {
            Some(i) => i < items.len() && last_match(views, p) == Some(views[i as int]),
            None => last_match(views, p) is None,
        },
{
    let mut i: usize = items.len();
    assert(views.subrange(0, views.len() as int) =~= views);
    while i > 0
        invariant
            i <= items.len(),
            views.len() == items.len(),
            forall|i: int| 0 <= i < items.len() ==> f.requires((&#[trigger] items[i],)),
            forall|i: int, b: bool|
                0 <= i < items.len() && f.ensures((&#[trigger] items[i],), b) ==> b == p(views[i]),
            last_match(views, p) == last_match(views.subrange(0, i as int), p),
        decreases i,
    {
        i -= 1;
        let hit = f(&items[i]);
        proof {
            let s = views.subrange(0, i + 1);
            assert(s.last() == views[i as int]);
            assert(s.drop_last() =~= views.subrange(0, i as int));
        }
        if hit {
            return Some(i);
        }
    }
    None
}

fn last_named(vars: &Vec<TranslatedVariable>, name: &str, new: bool) -> (r: Option<usize>)
    ensures
        match r {
            Some(i) => {
                &&& i < vars.len()
                &&& last_match(translated_variable_models(vars@), named(name@, new)) == Some(vars[i as int]@)
                &&& named(name@, new)(vars[i as int]@)
                &&& forall|j: int|
                    i < j < vars.len() ==> !named(name@, new)(#[trigger] translated_variable_models(vars@)[j])
            },
            None => last_match(translated_variable_models(vars@), named(name@, new)) is None,
        },
{
    let ghost models = translated_variable_models(vars@);
    let ghost p = named(name@, new);
    let mut i: usize = vars.len();
    assert(models.subrange(0, i as int) =~= models);
    while i > 0
        invariant
            i <= vars.len(),
            models == translated_variable_models(vars@),
            p == named(name@, new),
            last_match(models, p) == last_match(models.subrange(0, i as int), p),
            forall|j: int| i <= j < vars.len() ==> !p(#[trigger] models[j]),
        decreases i,
    {
        i -= 1;
        let v = &vars[i];
        let hit = if new {
            text_eq(v.new_name.as_str(), name)
        } else {
            text_eq(v.old_name.as_str(), name)
        };
        proof {
            let s = models.subrange(0, i + 1);
            assert(s.last() == models[i as int]);
            assert(s.drop_last() =~= models.subrange(0, i as int));
        }
        if hit {
            return Some(i);
        }
    }
    None
}

fn take_counts_of(variables: &mut Vec<TranslatedVariable>, counted: &Vec<TranslatedVariable>)
    ensures
        translated_variable_models(final(variables)@) == counts_taken(
            translated_variable_models(old(variables)@),
            translated_variable_models(counted@),
        ),
{
    let ghost before = translated_variable_models(variables@);
    let ghost source = translated_variable_models(counted@);
    let mut i: usize = 0;
    while i < variables.len() && i < counted.len()
        invariant
            variables.len() == before.len(),
            source == translated_variable_models(counted@),
            forall|j: int| 0 <= j < i && j < before.len() ==> (#[trigger] variables[j])@ == counts_taken(before, source)[j],
            forall|j: int| i <= j < before.len() ==> (#[trigger] variables[j])@ == before[j],
        decreases variables.len() - i,
    {
        let reads = counted[i].read_count;
        let mutations = counted[i].mutation_count;
        variables[i].read_count = reads;
        variables[i].mutation_count = mutations;
        i += 1;
    }
    assert(translated_variable_models(variables@) =~= counts_taken(before, source));
}

impl TranslationScope {
    /// A scope without parent and without declarations.
    pub fn new() -> (r: TranslationScope)
        ensures
            r@ == TranslationScopeView::empty(),
    {
        TranslationScope::default()
    }

    /// Turns this scope into a new, empty scope whose parent is the scope as
    /// it was.
    pub fn enter(&mut self)
        ensures
            final(self)@ == old(self)@.child(),
    {
        let mut outer = TranslationScope::default();
        core::mem::swap(self, &mut outer);
        self.parent = Some(Box::new(outer));
        assert(final(self)@.variables =~= Seq::empty());
        assert(final(self)@.functions =~= Seq::empty());
    }

    /// Discards this scope and puts its parent in its place; a scope
    /// without parent stays as it is.
    pub fn leave(&mut self)
        ensures
            final(self)@ == old(self)@.outer(),
    {
        let mut inner = TranslationScope::default();
        core::mem::swap(self, &mut inner);
        match inner.parent {
            Some(p) => {
                *self = *p;
            },
            None => {
                *self = inner;
            },
        }
    }

    /// Takes over the use counts that `counted` holds for the variables
    /// of this scope.
    pub fn take_counts(&mut self, counted: &TranslationScope)
        ensures
            final(self)@ == old(self)@.with_counts_of(counted@),
    {
        take_counts_of(&mut self.variables, &counted.variables);
    }

    /// Declares a variable in this scope.
    pub fn declare(&mut self, variable: TranslatedVariable)
        ensures
            final(self)@ == old(self)@.declare(variable@),
    {
        self.variables.push(variable);
        assert(final(self)@.variables =~= old(self)@.variables.push(variable@));
    }

    fn variable_named(&self, name: &str, new: bool) -> (r: Option<&TranslatedVariable>)
        ensures
            variable_view(r) == self@.variable_named(name@, new),
        decreases self,
    {
        match last_named(&self.variables, name, new) {
            Some(i) => Some(&self.variables[i]),
            None => match &self.parent {
                Some(p) => p.variable_named(name, new),
                None => None,
            },
        }
    }

    /// The binding that a name of the source resolves to, if any.
    pub fn get_variable_from_old_name(&self, old_name: &str) -> (r: Option<&TranslatedVariable>)
        ensures
            variable_view(r) == self@.variable_from_old_name(old_name@),
    {
        self.variable_named(old_name, false)
    }

    /// The binding that a name of the target resolves to, if any.
    pub fn get_variable_from_new_name(&self, new_name: &str) -> (r: Option<&TranslatedVariable>)
        ensures
            variable_view(r) == self@.variable_from_new_name(new_name@),
    {
        self.variable_named(new_name, true)
    }

    fn find_variable_with<F: Fn(&TranslatedVariable) -> bool>(&self, f: &F) -> (r: Option<&TranslatedVariable>)
        requires
            forall|v: &TranslatedVariable| f.requires((v,)),
        ensures
            match r {
                Some(v) => is_found_variable(*self, *f, *v),
                None => no_variable_accepted(*self, *f),
            },
        decreases self,
    {
        match last_accepted(&self.variables, f) {
            Some(i) => {
                let v = &self.variables[i];
                assert(is_last_accepted(self.variables@, *f, i as int, *v));
                Some(v)
            },
            None => match &self.parent {
                Some(p) => p.find_variable_with(f),
                None => None,
            },
        }
    }

    fn find_function_with<F: Fn(&TranslatedFunction) -> bool>(&self, f: &F) -> (r: Option<&TranslatedFunction>)
        requires
            forall|v: &TranslatedFunction| f.requires((v,)),
        ensures
            match r {
                Some(v) => exists|i: int| is_first_accepted(functions_in_search_order(*self), *f, i, *v),
                None => all_rejected(functions_in_search_order(*self), *f),
            },
        decreases self,
    {
        match first_accepted(&self.functions, f) {
            Some(i) => {
                let v = &self.functions[i];
                assert(is_first_accepted(functions_in_search_order(*self), *f, i as int, *v));
                Some(v)
            },
            None => match &self.parent {
                Some(p) => {
                    let r = p.find_function_with(f);
                    proof {
                        let here = self.functions@;
                        let above = functions_in_search_order(**p);
                        assert(functions_in_search_order(*self) == here + above);
                        match r {
                            Some(v) => {
                                let i = choose|i: int| is_first_accepted(above, *f, i, *v);
                                assert(is_first_accepted(here + above, *f, here.len() + i, *v)) by {
                                    assert forall|j: int| 0 <= j < here.len() + i implies f.ensures(
                                        (&#[trigger] (here + above)[j],),
                                        false,
                                    ) by {
                                        if j >= here.len() {
                                            assert((here + above)[j] == above[j - here.len()]);
                                        }
                                    }
                                }
                            },
                            None => {
                                assert forall|j: int| 0 <= j < (here + above).len() implies f.ensures(
                                    (&#[trigger] (here + above)[j],),
                                    false,
                                ) by {
                                    if j >= here.len() {
                                        assert((here + above)[j] == above[j - here.len()]);
                                    }
                                }
                            },
                        }
                    }
                    r
                },
                None => {
                    assert(self.parent is None);
                    None
                },
            },
        }
    }

    /// Attempts to find a translated variable using a custom function: the
    /// latest declaration that the function accepts in the innermost scope
    /// that has one, as a lookup by name does.
    pub fn find_variable<F: Fn(&TranslatedVariable) -> bool>(&self, f: F) -> (r: Option<&TranslatedVariable>)
        requires
            forall|v: &TranslatedVariable| f.requires((v,)),
        ensures
            match r {
                Some(v) => is_found_variable(*self, f, *v),
                None => no_variable_accepted(*self, f),
            },
    {
        self.find_variable_with(&f)
    }

    /// Attempts to find a translated function using a custom function: the
    /// first that the function accepts, searching each scope in the order of
    /// declaration, from this scope outwards.
    pub fn find_function<F: Fn(&TranslatedFunction) -> bool>(&self, f: F) -> (r: Option<&TranslatedFunction>)
        requires
            forall|v: &TranslatedFunction| f.requires((v,)),
        ensures
            match r {
                Some(v) => exists|i: int| is_first_accepted(functions_in_search_order(*self), f, i, *v),
                None => all_rejected(functions_in_search_order(*self), f),
            },
    {
        self.find_function_with(&f)
    }

    /// Resolves a call by name, the new one or the old one: the first
    /// function in search order that accepts the call.
    pub fn find_function_accepting(&self, name: &str, new: bool, arguments: usize, types: &[TypeName]) -> (r: Option<
        &TranslatedFunction,
    >)
        ensures
            function_view(r) == self@.function_accepting(name@, new, arguments as nat, type_name_models(types@)),
        decreases self,
    {
        match first_accepting(&self.functions, name, new, arguments, types) {
            Some(i) => {
                proof {
                    if let Some(p) = self@.parent {
                        lemma_first_match_concat(
                            self@.functions,
                            p.function_search_order(),
                            accepts_call(name@, new, arguments as nat, type_name_models(types@)),
                        );
                    }
                }
                Some(&self.functions[i])
            },
            None => match &self.parent {
                Some(p) => {
                    proof {
                        lemma_first_match_concat(
                            self@.functions,
                            p@.function_search_order(),
                            accepts_call(name@, new, arguments as nat, type_name_models(types@)),
                        );
                    }
                    p.find_function_accepting(name, new, arguments, types)
                },
                None => None,
            },
        }
    }

    /// Resolves a call: the first function in search order that has the old
    /// name `old_name`, declares as many parameters as there are arguments,
    /// and whose declared parameter types the argument types are compatible
    /// with, place by place.
    pub fn find_function_matching_types(
        &self,
        old_name: &str,
        parameters: &[Expression],
        parameter_types: &[TypeName],
    ) -> (r: Option<&TranslatedFunction>)
        ensures
            function_view(r) == self@.function_matching_types(
                old_name@,
                parameters@.len(),
                type_name_models(parameter_types@),
            ),
    {
        self.find_function_accepting(old_name, false, parameters.len(), parameter_types)
    }

    fn record_use(&mut self, old_name: &str, mutation: bool)
        ensures
            final(self)@ == old(self)@.with_use(old_name@, mutation),
        decreases old(self)@,
    {
        match last_named(&self.variables, old_name, false) {
            Some(i) => {
                if mutation {
                    let count = self.variables[i].mutation_count;
                    let next = if count < usize::MAX { count + 1 } else { count };
                    self.variables[i].mutation_count = next;
                } else {
                    let count = self.variables[i].read_count;
                    let next = if count < usize::MAX { count + 1 } else { count };
                    self.variables[i].read_count = next;
                }
                proof {
                    lemma_used_at(old(self)@.variables, old_name@, mutation, i as int);
                    assert(final(self)@.variables =~= used_at(old(self)@.variables, old_name@, mutation));
                }
            },
            None => match &mut self.parent {
                Some(p) => {
                    p.record_use(old_name, mutation);
                },
                None => {},
            },
        }
    }

    /// Counts one more mutation of the variable that the source name
    /// `old_name` resolves to, if it resolves to one.
    pub fn record_mutation(&mut self, old_name: &str)
        ensures
            final(self)@ == old(self)@.with_mutation(old_name@),
    {
        self.record_use(old_name, true)
    }

    /// Counts one more read of the variable that the source name `old_name`
    /// resolves to, if it resolves to one.
    pub fn record_read(&mut self, old_name: &str)
        ensures
            final(self)@ == old(self)@.with_read(old_name@),
    {
        self.record_use(old_name, false)
    }

    /// Records that the last variable of this scope with the new name
    /// `new_name` is declared by the statement at `index` of its block.
    pub fn set_statement_index(&mut self, new_name: &str, index: usize)
        ensures
            final(self)@ == indexed(old(self)@, new_name@, index),
    {
        match last_named(&self.variables, new_name, true) {
            Some(i) => {
                self.variables[i].statement_index = Some(index);
                proof {
                    lemma_indexed_at(old(self)@.variables, new_name@, index, i as int);
                    assert(final(self)@.variables =~= indexed_at(old(self)@.variables, new_name@, index));
                }
            },
            None => {
                proof {
                    lemma_last_match_is_last(old(self)@.variables, named(new_name@, true));
                    lemma_indexed_none(old(self)@.variables, new_name@, index);
                }
            },
        }
    }

    /// A name that no visible variable has: `name` itself if it is free, else
    /// `name` behind as few underscores as it takes.
    pub fn generate_unique_variable_name(&self, name: &str) -> (r: String)
        ensures
            exists|k: nat| self@.is_unique_name(name@, k, r@),
    {
        let mut result = String::from_str(name);
        let ghost mut k: nat = 0;
        loop
            invariant
                result@ == underscored(k, name@),
                forall|j: nat| j < k ==> (#[trigger] self@.variable_from_new_name(underscored(j, name@))) is Some,
            decreases names_at_least(self@.visible_variables(), result@.len()),
        {
            if self.get_variable_from_new_name(result.as_str()).is_none() {
                assert(self@.is_unique_name(name@, k, result@));
                return result;
            }
            proof {
                let vis = self@.visible_variables();
                lemma_lookup_is_innermost(self@, result@, true);
                lemma_last_match_is_last(vis, named(result@, true));
                lemma_names_at_least_step(vis, result@.len());
                lemma_underscored_push(k, name@);
                let taken = result@;
                assert forall|j: nat| j < k + 1 implies (#[trigger] self@.variable_from_new_name(
                    underscored(j, name@),
                )) is Some by {
                    if j == k {
                        assert(underscored(j, name@) == taken);
                    }
                }
                k = k + 1;
            }
            result = join2("_", result.as_str());
            proof {
                reveal_strlit("_");
                assert("_"@ =~= seq!['_']);
            }
        }
    }
}

} // verus!
