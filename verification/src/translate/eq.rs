

use vstd::prelude::*;
use vstd::std_specs::cmp::PartialEqSpecImpl;
use crate::sway::eq::eq_function_calls;
use crate::translate::{
    NameCount, NameMapping, TranslatedEnum, TranslatedFunction, TranslatedModifier, TranslatedUsingDirective,
    TranslatedVariable, TranslationScope, Warning,
};
use crate::translate::model::{translated_function_models, translated_variable_models};

verus! {

/// Whether two vectors of [`TranslatedFunction`] hold the same values in the same order.
pub fn eq_translated_functions(a: &Vec<TranslatedFunction>, b: &Vec<TranslatedFunction>) -> (r: bool)
    ensures
        r == (translated_function_models(a@) == translated_function_models(b@)),
    decreases a,
{
    if a.len() != b.len() {
        assert(translated_function_models(a@).len() != translated_function_models(b@).len());
        return false;
    }
    let mut i: usize = 0;
    while i < a.len()
        invariant
            i <= a.len(),
            a.len() == b.len(),
            forall|j: int| 0 <= j < i ==> a[j].model() == b[j].model(),
        decreases a.len() - i,
    {
        if !a[i].eq(&b[i]) {
            assert(translated_function_models(a@)[i as int] != translated_function_models(b@)[i as int]);
            return false;
        }
        i += 1;
    }
    assert(translated_function_models(a@) =~= translated_function_models(b@));
    true
}

/// Whether two vectors of [`TranslatedVariable`] hold the same values in the same order.
pub fn eq_translated_variables(a: &Vec<TranslatedVariable>, b: &Vec<TranslatedVariable>) -> (r: bool)
    ensures
        r == (translated_variable_models(a@) == translated_variable_models(b@)),
    decreases a,
{
    if a.len() != b.len() {
        assert(translated_variable_models(a@).len() != translated_variable_models(b@).len());
        return false;
    }
    let mut i: usize = 0;
    while i < a.len()
        invariant
            i <= a.len(),
            a.len() == b.len(),
            forall|j: int| 0 <= j < i ==> a[j].model() == b[j].model(),
        decreases a.len() - i,
    {
        if !a[i].eq(&b[i]) {
            assert(translated_variable_models(a@)[i as int] != translated_variable_models(b@)[i as int]);
            return false;
        }
        i += 1;
    }
    assert(translated_variable_models(a@) =~= translated_variable_models(b@));
    true
}

impl PartialEq for TranslatedUsingDirective {
    fn eq(&self, other: &Self) -> (r: bool)
        decreases self,
    {
        ((&self.library_name).eq((&other.library_name)))
            && (match ((&self.for_type), (&other.for_type)) { (Some(x), Some(y)) => x.eq(y), (None, None) => true, _ => false })
            && (eq_translated_functions((&self.functions), (&other.functions)))
    }
}

impl PartialEqSpecImpl for TranslatedUsingDirective {
    open spec fn obeys_eq_spec() -> bool {
        true
    }

    open spec fn eq_spec(&self, other: &Self) -> bool {
        self@ == other@
    }
}

impl PartialEq for TranslatedEnum {
    fn eq(&self, other: &Self) -> (r: bool)
        decreases self,
    {
        ((&self.type_definition).eq((&other.type_definition)))
            && ((&self.variants_impl).eq((&other.variants_impl)))
    }
}

impl PartialEqSpecImpl for TranslatedEnum {
    open spec fn obeys_eq_spec() -> bool {
        true
    }

    open spec fn eq_spec(&self, other: &Self) -> bool {
        self@ == other@
    }
}

impl PartialEq for TranslatedVariable {
    fn eq(&self, other: &Self) -> (r: bool)
        decreases self,
    {
        ((&self.old_name).eq((&other.old_name)))
            && ((&self.new_name).eq((&other.new_name)))
            && ((&self.ty).eq((&other.ty)))
            && (match ((&self.abi_type_name), (&other.abi_type_name)) { (Some(x), Some(y)) => x.eq(y), (None, None) => true, _ => false })
            && (*(&self.is_storage) == *(&other.is_storage))
            && (*(&self.is_configurable) == *(&other.is_configurable))
            && (*(&self.is_constant) == *(&other.is_constant))
            && (match ((&self.statement_index), (&other.statement_index)) { (Some(x), Some(y)) => *x == *y, (None, None) => true, _ => false })
            && (*(&self.read_count) == *(&other.read_count))
            && (*(&self.mutation_count) == *(&other.mutation_count))
    }
}

impl PartialEqSpecImpl for TranslatedVariable {
    open spec fn obeys_eq_spec() -> bool {
        true
    }

    open spec fn eq_spec(&self, other: &Self) -> bool {
        self@ == other@
    }
}

impl PartialEq for TranslatedFunction {
    fn eq(&self, other: &Self) -> (r: bool)
        decreases self,
    {
        ((&self.old_name).eq((&other.old_name)))
            && ((&self.new_name).eq((&other.new_name)))
            && ((&self.parameters).eq((&other.parameters)))
            && (eq_function_calls((&self.constructor_calls), (&other.constructor_calls)))
            && (eq_function_calls((&self.modifiers), (&other.modifiers)))
            && (match ((&self.return_type), (&other.return_type)) { (Some(x), Some(y)) => x.eq(y), (None, None) => true, _ => false })
    }
}

impl PartialEqSpecImpl for TranslatedFunction {
    open spec fn obeys_eq_spec() -> bool {
        true
    }

    open spec fn eq_spec(&self, other: &Self) -> bool {
        self@ == other@
    }
}

impl PartialEq for TranslatedModifier {
    fn eq(&self, other: &Self) -> (r: bool)
        decreases self,
    {
        ((&self.old_name).eq((&other.old_name)))
            && ((&self.new_name).eq((&other.new_name)))
            && ((&self.parameters).eq((&other.parameters)))
            && (*(&self.has_underscore) == *(&other.has_underscore))
            && (match ((&self.pre_body), (&other.pre_body)) { (Some(x), Some(y)) => x.eq(y), (None, None) => true, _ => false })
            && (match ((&self.post_body), (&other.post_body)) { (Some(x), Some(y)) => x.eq(y), (None, None) => true, _ => false })
    }
}

impl PartialEqSpecImpl for TranslatedModifier {
    open spec fn obeys_eq_spec() -> bool {
        true
    }

    open spec fn eq_spec(&self, other: &Self) -> bool {
        self@ == other@
    }
}

impl PartialEq for TranslationScope {
    fn eq(&self, other: &Self) -> (r: bool)
        decreases self,
    {
        (match ((&self.parent), (&other.parent)) { (Some(x), Some(y)) => (&**x).eq((&**y)), (None, None) => true, _ => false })
            && (eq_translated_variables((&self.variables), (&other.variables)))
            && (eq_translated_functions((&self.functions), (&other.functions)))
    }
}

impl PartialEqSpecImpl for TranslationScope {
    open spec fn obeys_eq_spec() -> bool {
        true
    }

    open spec fn eq_spec(&self, other: &Self) -> bool {
        self@ == other@
    }
}

impl PartialEq for NameCount {
    fn eq(&self, other: &Self) -> (r: bool)
        decreases self,
    {
        ((&self.name).eq((&other.name)))
            && (*(&self.count) == *(&other.count))
    }
}

impl PartialEqSpecImpl for NameCount {
    open spec fn obeys_eq_spec() -> bool {
        true
    }

    open spec fn eq_spec(&self, other: &Self) -> bool {
        self@ == other@
    }
}

impl PartialEq for NameMapping {
    fn eq(&self, other: &Self) -> (r: bool)
        decreases self,
    {
        ((&self.old_name).eq((&other.old_name)))
            && ((&self.new_name).eq((&other.new_name)))
    }
}

impl PartialEqSpecImpl for NameMapping {
    open spec fn obeys_eq_spec() -> bool {
        true
    }

    open spec fn eq_spec(&self, other: &Self) -> bool {
        self@ == other@
    }
}

impl PartialEq for Warning {
    fn eq(&self, other: &Self) -> (r: bool)
        decreases self,
    {
        match self {
            Warning::UnsupportedBitWidth { bits, used } => match other {
                Warning::UnsupportedBitWidth { bits: bits_o, used: used_o } => (*bits == *bits_o) && (*used == *used_o),
            },
        }
    }
}

impl PartialEqSpecImpl for Warning {
    open spec fn obeys_eq_spec() -> bool {
        true
    }

    open spec fn eq_spec(&self, other: &Self) -> bool {
        self@ == other@
    }
}

} // verus!
