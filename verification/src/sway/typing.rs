//! What can be told of a type from its name alone.

use vstd::prelude::*;
use vstd::string::StrSliceExecFns;
use vstd::string::StringExecFns;
use crate::sway::{GenericParameter, GenericParameterList, Parameter, TypeName};
use crate::sway::model::{GenericParameterListView, GenericParameterView, ParameterView, TypeNameView};
use crate::text::{text, text_eq};

verus! {

/// Whether a value of type `value` may be passed where `parameter` is
/// declared: the two are the same type, or both are unsigned integer types,
/// or they are built alike from compatible parts.
pub open spec fn compatible(value: TypeNameView, parameter: TypeNameView) -> bool
    decreases value,
{
    match (value, parameter) {
        (TypeNameView::Undefined, TypeNameView::Undefined) => true,
        (
            TypeNameView::Identifier { name: n1, generic_parameters: g1 },
            TypeNameView::Identifier { name: n2, generic_parameters: g2 },
        ) => match (g1, g2) {
            (None, None) => n1 == n2 || (is_uint_name(n1) && is_uint_name(n2)),
            (Some(g1), Some(g2)) => n1 == n2 && compatible_parameters(g1.entries, g2.entries),
            _ => false,
        },
        (TypeNameView::Array { ty: t1, length: l1 }, TypeNameView::Array { ty: t2, length: l2 }) => l1
            == l2 && compatible(*t1, *t2),
        (TypeNameView::Tuple { type_names: t1 }, TypeNameView::Tuple { type_names: t2 }) => compatible_all(
            t1,
            t2,
        ),
        (TypeNameView::StringSlice, TypeNameView::StringSlice) => true,
        (TypeNameView::StringArray { length: l1 }, TypeNameView::StringArray { length: l2 }) => l1 == l2,
        _ => false,
    }
}

/// Whether two sequences of types are compatible element by element.
pub open spec fn compatible_all(values: Seq<TypeNameView>, parameters: Seq<TypeNameView>) -> bool
    decreases values,
{
    values.len() == parameters.len() && forall|i: int|
        0 <= i < values.len() ==> compatible(#[trigger] values[i], parameters[i])
}

/// Whether two sequences of generic arguments are compatible element by element.
pub open spec fn compatible_parameters(
    values: Seq<GenericParameterView>,
    parameters: Seq<GenericParameterView>,
) -> bool
    decreases values,
{
    values.len() == parameters.len() && forall|i: int|
        0 <= i < values.len() ==> compatible((#[trigger] values[i]).ty, parameters[i].ty)
}

/// Whether `name` is the name of one of the unsigned integer types.
pub open spec fn is_uint_name(name: Seq<char>) -> bool {
    name == "u8"@ || name == "u16"@ || name == "u32"@ || name == "u64"@ || name == "u256"@
}



/// The type with the given name and no type arguments.
pub open spec fn named_type(name: Seq<char>) -> TypeNameView {
    TypeNameView::Identifier { name, generic_parameters: None }
}

/// The type with the given name and the given type arguments.
pub open spec fn generic_type(name: Seq<char>, arguments: Seq<TypeNameView>) -> TypeNameView {
    TypeNameView::Identifier {
        name,
        generic_parameters: Some(
            GenericParameterListView {
                entries: Seq::new(
                    arguments.len(),
                    |i: int| GenericParameterView { ty: arguments[i], implements: None },
                ),
            },
        ),
    }
}

/// The empty tuple type.
pub open spec fn unit_type() -> TypeNameView {
    TypeNameView::Tuple { type_names: Seq::empty() }
}

/// The tuple type of two types.
pub open spec fn pair_type(a: TypeNameView, b: TypeNameView) -> TypeNameView {
    TypeNameView::Tuple { type_names: seq![a, b] }
}

/// Whether `t` is an unsigned integer type.
pub open spec fn is_uint_type(t: TypeNameView) -> bool {
    match t {
        TypeNameView::Identifier { name, generic_parameters: None } => is_uint_name(name),
        _ => false,
    }
}

/// The name of the `i`-th parameter of a synthesized getter, counted from
/// zero: the letters `a` to `z` in turn, then `aa`, `ab` and so on, so that
/// no two parameters have the same name.
pub open spec fn getter_parameter_name(i: int) -> Seq<char>
    decreases i,
{
    if i < 26 {
        let k = if i < 0 { 0 } else { i };
        "abcdefghijklmnopqrstuvwxyz"@.subrange(k, k + 1)
    } else {
        getter_parameter_name(i / 26 - 1) + "abcdefghijklmnopqrstuvwxyz"@.subrange(i % 26, i % 26 + 1)
    }
}

/// One layer of a storage container, seen from a getter: the type of the
/// key or index that selects an element, and whether the selection yields
/// an option that has to be unwrapped.
pub type GetterLayer = (TypeNameView, bool);

/// The layers of containers around the value that a getter returns,
/// outermost first, and the type of that value. A storage map adds a layer
/// keyed by its key type; a storage vector adds a layer indexed by `u64`
/// whose selection is unwrapped. `None` for a type that is no container.
pub open spec fn getter_layers(t: TypeNameView) -> Option<(Seq<GetterLayer>, TypeNameView)>
    decreases t,
{
    match t {
        TypeNameView::Identifier { name, generic_parameters: Some(g) } => {
            if name == "StorageMap"@ {
                if g.entries.len() >= 2 {
                    Some(getter_layers_under((g.entries[0].ty, false), g.entries[1].ty, getter_layers(g.entries[1].ty)))
                } else {
                    None
                }
            } else if name == "StorageVec"@ {
                if g.entries.len() >= 1 {
                    Some(getter_layers_under((named_type("u64"@), true), g.entries[0].ty, getter_layers(g.entries[0].ty)))
                } else {
                    None
                }
            } else {
                None
            }
        },
        _ => None,
    }
}

/// The layers of a container, given its own layer, the type of its elements
/// and the layers of that type.
pub open spec fn getter_layers_under(
    layer: GetterLayer,
    element: TypeNameView,
    inner: Option<(Seq<GetterLayer>, TypeNameView)>,
) -> (Seq<GetterLayer>, TypeNameView) {
    match inner {
        Some((layers, value)) => (seq![layer] + layers, value),
        None => (seq![layer], element),
    }
}

/// The parameter that a getter takes for its `i`-th layer.
pub open spec fn getter_parameter(i: int, layer: GetterLayer) -> (ParameterView, bool) {
    (ParameterView { is_ref: false, is_mut: false, name: getter_parameter_name(i), ty: Some(layer.0) }, layer.1)
}

/// The parameters that a getter takes for the given layers.
pub open spec fn getter_parameters(layers: Seq<GetterLayer>) -> Seq<(ParameterView, bool)> {
    Seq::new(layers.len(), |i: int| getter_parameter(i, layers[i]))
}

/// The parameters and the return type of the getter of a storage field of
/// type `t`: one parameter for each layer of containers, named `a`, `b`,
/// `c` and so on from the outermost layer inwards.
pub open spec fn getter_signature(t: TypeNameView) -> Option<(Seq<(ParameterView, bool)>, TypeNameView)> {
    match getter_layers(t) {
        Some((layers, value)) => Some((getter_parameters(layers), value)),
        None => None,
    }
}

/// The values of a sequence of layers, element by element.
pub open spec fn layer_models(s: Seq<(TypeName, bool)>) -> Seq<GetterLayer> {
    Seq::new(s.len(), |i: int| (s[i].0@, s[i].1))
}

/// The values of a sequence of getter parameters, element by element.
pub open spec fn getter_parameter_models(s: Seq<(Parameter, bool)>) -> Seq<(ParameterView, bool)> {
    Seq::new(s.len(), |i: int| (s[i].0@, s[i].1))
}

/// The type with the given name and no type arguments.
pub fn type_named(name: &str) -> (r: TypeName)
    ensures
        r@ == named_type(name@),
{
    TypeName::Identifier { name: text(name), generic_parameters: None }
}

/// The type with the given name and one type argument.
pub fn generic_type1(name: &str, argument: TypeName) -> (r: TypeName)
    ensures
        r@ == generic_type(name@, seq![argument@]),
{
    let mut entries: Vec<GenericParameter> = Vec::new();
    entries.push(GenericParameter { ty: argument, implements: None });
    let r = TypeName::Identifier { name: text(name), generic_parameters: Some(GenericParameterList { entries }) };
    proof {
        reveal_with_fuel(TypeName::model, 4);
        assert(r@->Identifier_generic_parameters->0.entries =~= generic_type(
            name@,
            seq![argument@],
        )->Identifier_generic_parameters->0.entries);
    }
    r
}

/// The type with the given name and two type arguments.
pub fn generic_type2(name: &str, first: TypeName, second: TypeName) -> (r: TypeName)
    ensures
        r@ == generic_type(name@, seq![first@, second@]),
{
    let mut entries: Vec<GenericParameter> = Vec::new();
    entries.push(GenericParameter { ty: first, implements: None });
    entries.push(GenericParameter { ty: second, implements: None });
    let r = TypeName::Identifier { name: text(name), generic_parameters: Some(GenericParameterList { entries }) };
    proof {
        reveal_with_fuel(TypeName::model, 4);
        assert(r@->Identifier_generic_parameters->0.entries =~= generic_type(
            name@,
            seq![first@, second@],
        )->Identifier_generic_parameters->0.entries);
    }
    r
}

/// The empty tuple type.
pub fn unit_type_name() -> (r: TypeName)
    ensures
        r@ == unit_type(),
{
    let r = TypeName::Tuple { type_names: Vec::new() };
    proof {
        reveal_with_fuel(TypeName::model, 3);
    }
    assert(r@->Tuple_type_names =~= Seq::empty());
    r
}

/// The tuple type of two types.
pub fn pair_type_name(a: TypeName, b: TypeName) -> (r: TypeName)
    ensures
        r@ == pair_type(a@, b@),
{
    let mut type_names: Vec<TypeName> = Vec::new();
    type_names.push(a);
    type_names.push(b);
    let r = TypeName::Tuple { type_names };
    proof {
        reveal_with_fuel(TypeName::model, 3);
    }
    assert(r@->Tuple_type_names =~= seq![a@, b@]);
    r
}

fn compatible_generics(a: &Vec<GenericParameter>, b: &Vec<GenericParameter>) -> (r: bool)
    ensures
        r == compatible_parameters(
            crate::sway::model::generic_parameter_models(a@),
            crate::sway::model::generic_parameter_models(b@),
        ),
    decreases a,
{
    if a.len() != b.len() {
        return false;
    }
    let mut i: usize = 0;
    while i < a.len()
        invariant
            i <= a.len(),
            a.len() == b.len(),
            forall|j: int| 0 <= j < i ==> compatible(a[j]@.ty, b[j]@.ty),
        decreases a.len() - i,
    {
        if !a[i].ty.is_compatible_with(&b[i].ty) {
            assert(crate::sway::model::generic_parameter_models(a@)[i as int].ty == a[i as int]@.ty);
            assert(crate::sway::model::generic_parameter_models(b@)[i as int].ty == b[i as int]@.ty);
            return false;
        }
        i += 1;
    }
    true
}

fn compatible_types(a: &Vec<TypeName>, b: &Vec<TypeName>) -> (r: bool)
    ensures
        r == compatible_all(crate::sway::model::type_name_models(a@), crate::sway::model::type_name_models(b@)),
    decreases a,
{
    if a.len() != b.len() {
        return false;
    }
    let mut i: usize = 0;
    while i < a.len()
        invariant
            i <= a.len(),
            a.len() == b.len(),
            forall|j: int| 0 <= j < i ==> compatible(a[j]@, b[j]@),
        decreases a.len() - i,
    {
        if !a[i].is_compatible_with(&b[i]) {
            assert(crate::sway::model::type_name_models(a@)[i as int] == a[i as int]@);
            assert(crate::sway::model::type_name_models(b@)[i as int] == b[i as int]@);
            return false;
        }
        i += 1;
    }
    true
}

fn getter_name(i: usize) -> (r: String)
    ensures
        r@ == getter_parameter_name(i as int),
    decreases i,
{
    let letters = "abcdefghijklmnopqrstuvwxyz";
    proof {
        reveal_strlit("abcdefghijklmnopqrstuvwxyz");
    }
    if i < 26 {
        String::from_str(letters.substring_char(i, i + 1))
    } else {
        let last: usize = i % 26;
        let mut r = getter_name(i / 26 - 1);
        r.append(letters.substring_char(last, last + 1));
        r
    }
}

fn is_uint_text(name: &str) -> (r: bool)
    ensures
        r == is_uint_name(name@),
{
    text_eq(name, "u8") || text_eq(name, "u16") || text_eq(name, "u32") || text_eq(name, "u64") || text_eq(
        name,
        "u256",
    )
}

impl TypeName {
    /// Checks if the type name is an unsigned integer type.
    pub fn is_uint(&self) -> (r: bool)
        ensures
            r == is_uint_type(self@),
    {
        match self {
            TypeName::Identifier { name, generic_parameters: None } => is_uint_text(name.as_str()),
            _ => false,
        }
    }

    /// Checks if a value of this type may be passed where `other` is declared.
    pub fn is_compatible_with(&self, other: &TypeName) -> (r: bool)
        ensures
            r == compatible(self@, other@),
        decreases self,
    {
        proof {
            reveal_with_fuel(compatible, 2);
            reveal_with_fuel(TypeName::model, 2);
        }
        match self {
            TypeName::Undefined => match other {
                TypeName::Undefined => true,
                _ => false,
            },
            TypeName::Identifier { name: n1, generic_parameters: g1 } => match other {
                TypeName::Identifier { name: n2, generic_parameters: g2 } => match g1 {
                    None => match g2 {
                        None => text_eq(n1.as_str(), n2.as_str()) || (is_uint_text(n1.as_str()) && is_uint_text(
                            n2.as_str(),
                        )),
                        Some(_) => false,
                    },
                    Some(g1) => match g2 {
                        Some(g2) => text_eq(n1.as_str(), n2.as_str()) && compatible_generics(
                            &g1.entries,
                            &g2.entries,
                        ),
                        None => false,
                    },
                },
                _ => false,
            },
            TypeName::Array { ty: t1, length: l1 } => match other {
                TypeName::Array { ty: t2, length: l2 } => *l1 == *l2 && (&**t1).is_compatible_with(&**t2),
                _ => false,
            },
            TypeName::Tuple { type_names: t1 } => match other {
                TypeName::Tuple { type_names: t2 } => compatible_types(t1, t2),
                _ => false,
            },
            TypeName::StringSlice => match other {
                TypeName::StringSlice => true,
                _ => false,
            },
            TypeName::StringArray { length: l1 } => match other {
                TypeName::StringArray { length: l2 } => *l1 == *l2,
                _ => false,
            },
        }
    }

    fn getter_layer_types(&self) -> (r: Option<(Vec<(TypeName, bool)>, TypeName)>)
        ensures
            match r {
                Some((layers, value)) => getter_layers(self@) == Some(
                    (layer_models(layers@), value@),
                ),
                None => getter_layers(self@) is None,
            },
        decreases self,
    {
        proof {
            reveal_with_fuel(TypeName::model, 5);
        }
        match self {
            TypeName::Identifier { name, generic_parameters: Some(g) } => {
                let is_map = text_eq(name.as_str(), "StorageMap");
                let is_vec = text_eq(name.as_str(), "StorageVec");
                if is_map && g.entries.len() >= 2 {
                    let element = &g.entries[1].ty;
                    Some(layers_under((g.entries[0].ty.clone(), false), element, element.getter_layer_types()))
                } else if !is_map && is_vec && g.entries.len() >= 1 {
                    let element = &g.entries[0].ty;
                    Some(layers_under((type_named("u64"), true), element, element.getter_layer_types()))
                } else {
                    None
                }
            },
            _ => None,
        }
    }

    /// Gets the parameters and return type name for the getter function of
    /// the type name: `None` unless it is a storage map or a storage vector
    /// with its type arguments.
    pub fn getter_function_parameters_and_return_type(&self) -> (r: Option<(Vec<(Parameter, bool)>, TypeName)>)
        ensures
            match r {
                Some((parameters, value)) => getter_signature(self@) == Some(
                    (getter_parameter_models(parameters@), value@),
                ),
                None => getter_signature(self@) is None,
            },
    {
        match self.getter_layer_types() {
            Some((layers, value)) => {
                let ghost spec_layers = layer_models(layers@);
                let mut parameters: Vec<(Parameter, bool)> = Vec::new();
                let mut i: usize = 0;
                while i < layers.len()
                    invariant
                        i <= layers.len(),
                        parameters.len() == i,
                        spec_layers == layer_models(layers@),
                        forall|j: int|
                            0 <= j < i ==> (#[trigger] parameters[j].0@, parameters[j].1) == getter_parameter(
                                j,
                                spec_layers[j],
                            ),
                    decreases layers.len() - i,
                {
                    parameters.push(
                        (
                            Parameter {
                                is_ref: false,
                                is_mut: false,
                                name: getter_name(i),
                                ty: Some(layers[i].0.clone()),
                            },
                            layers[i].1,
                        ),
                    );
                    i += 1;
                }
                assert(getter_parameter_models(parameters@) =~= getter_parameters(spec_layers));
                Some((parameters, value))
            },
            None => None,
        }
    }
}

fn layers_under(layer: (TypeName, bool), element: &TypeName, inner: Option<(Vec<(TypeName, bool)>, TypeName)>) -> (r: (
    Vec<(TypeName, bool)>,
    TypeName,
))
    ensures
        (layer_models(r.0@), r.1@) == getter_layers_under(
            (layer.0@, layer.1),
            element@,
            match inner {
                Some((layers, value)) => Some((layer_models(layers@), value@)),
                None => None,
            },
        ),
{
    match inner {
        Some((mut layers, value)) => {
            let ghost before = layers@;
            layers.insert(0, layer);
            assert(layer_models(layers@) =~= seq![(layer.0@, layer.1)]
                + layer_models(before));
            (layers, value)
        },
        None => {
            let mut layers: Vec<(TypeName, bool)> = Vec::new();
            layers.push(layer);
            assert(layer_models(layers@) =~= seq![(layer.0@, layer.1)]);
            (layers, element.clone())
        },
    }
}

} // verus!
