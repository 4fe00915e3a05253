//! The value that a variable has when the source gives it none.

use vstd::prelude::*;
use crate::sway::{Array, Constructor, Expression, Literal, TypeName};
use crate::sway::model::{
    ArrayView, ConstructorView, expression_models, ExpressionView, LiteralView, TypeNameView,
};
use crate::sway::module::macro_call;
use crate::sway::shapes::{
    call_named, decimal, make_call_named, no_expressions, one_expression, string_literal,
};
use crate::sway::typing::is_uint_name;
use crate::text::text_eq;

verus! {

/// The struct literal of type `t` without fields.
pub open spec fn empty_constructor(t: TypeNameView) -> ExpressionView {
    ExpressionView::Constructor(Box::new(ConstructorView { ty: t, fields: Seq::empty() }))
}

/// The zero value of the 256-bit hash type.
pub open spec fn zero_hash() -> ExpressionView {
    call_named("b256::zero"@, Seq::empty())
}

/// The canonical default value of a type: `false`, zero, the zero address,
/// an empty container, or arrays and tuples of default values. For a type
/// without one, a call of `todo!`.
pub open spec fn default_value(t: TypeNameView) -> ExpressionView
    decreases t,
{
    match t {
        TypeNameView::Identifier { name, generic_parameters: None } => {
            if name == "bool"@ {
                ExpressionView::Literal(LiteralView::Bool(false))
            } else if is_uint_name(name) {
                decimal(0)
            } else if name == "b256"@ {
                zero_hash()
            } else if name == "Identity"@ {
                call_named("Identity::Address"@, seq![call_named("Address::from"@, seq![zero_hash()])])
            } else if name == "Bytes"@ {
                call_named("Bytes::new"@, Seq::empty())
            } else if name == "String"@ {
                call_named("String::new"@, Seq::empty())
            } else if name == "StorageString"@ {
                empty_constructor(t)
            } else {
                macro_call("todo!"@, None)
            }
        },
        TypeNameView::Identifier { name, generic_parameters: Some(_) } => {
            if name == "StorageMap"@ || name == "StorageVec"@ {
                empty_constructor(t)
            } else if name == "Vec"@ {
                call_named("Vec::new"@, Seq::empty())
            } else {
                macro_call("todo!"@, None)
            }
        },
        TypeNameView::Array { ty, length } => ExpressionView::Array(
            ArrayView { elements: Seq::new(length as nat, |i: int| default_value(*ty)) },
        ),
        TypeNameView::Tuple { type_names } => ExpressionView::Tuple(default_values(type_names)),
        TypeNameView::StringSlice => string_literal(Seq::empty()),
        _ => macro_call("todo!"@, None),
    }
}

/// The default values of a sequence of types, element by element.
pub open spec fn default_values(types: Seq<TypeNameView>) -> Seq<ExpressionView>
    decreases types,
{
    Seq::new(types.len(), |i: int| if 0 <= i < types.len() { default_value(types[i]) } else { arbitrary() })
}

/// The value of a variable of type `t`: the initializer if there is one,
/// and the default value of the type otherwise.
pub open spec fn value_expression(t: TypeNameView, value: Option<ExpressionView>) -> ExpressionView {
    match value {
        Some(v) => v,
        None => default_value(t),
    }
}

fn todo_call() -> (r: Expression)
    ensures
        r@ == macro_call("todo!"@, None),
{
    Expression::create_todo(None)
}

fn construct_empty(t: &TypeName) -> (r: Expression)
    ensures
        r@ == empty_constructor(t@),
{
    let r = Expression::Constructor(Box::new(Constructor { ty: t.clone(), fields: Vec::new() }));
    proof {
        reveal_with_fuel(Expression::model, 3);
        assert(r@->Constructor_0.fields =~= Seq::empty());
    }
    r
}

fn zero_hash_call() -> (r: Expression)
    ensures
        r@ == zero_hash(),
{
    make_call_named("b256::zero", no_expressions())
}

/// The canonical default value of a type.
pub fn create_default_value(t: &TypeName) -> (r: Expression)
    ensures
        r@ == default_value(t@),
    decreases t,
{
    proof {
        reveal_with_fuel(TypeName::model, 3);
        reveal_with_fuel(Expression::model, 3);
    }
    match t {
        TypeName::Identifier { name, generic_parameters: None } => {
            let name = name.as_str();
            if text_eq(name, "bool") {
                Expression::Literal(Literal::Bool(false))
            } else if text_eq(name, "u8") || text_eq(name, "u16") || text_eq(name, "u32") || text_eq(name, "u64")
                || text_eq(name, "u256") {
                Expression::Literal(Literal::DecInt(0))
            } else if text_eq(name, "b256") {
                zero_hash_call()
            } else if text_eq(name, "Identity") {
                make_call_named(
                    "Identity::Address",
                    one_expression(make_call_named("Address::from", one_expression(zero_hash_call()))),
                )
            } else if text_eq(name, "Bytes") {
                make_call_named("Bytes::new", no_expressions())
            } else if text_eq(name, "String") {
                make_call_named("String::new", no_expressions())
            } else if text_eq(name, "StorageString") {
                construct_empty(t)
            } else {
                todo_call()
            }
        },
        TypeName::Identifier { name, generic_parameters: Some(_) } => {
            let name = name.as_str();
            if text_eq(name, "StorageMap") || text_eq(name, "StorageVec") {
                construct_empty(t)
            } else if text_eq(name, "Vec") {
                make_call_named("Vec::new", no_expressions())
            } else {
                todo_call()
            }
        },
        TypeName::Array { ty, length } => {
            let element = create_default_value(&**ty);
            let mut elements: Vec<Expression> = Vec::new();
            let mut i: usize = 0;
            while i < *length
                invariant
                    i <= *length,
                    elements.len() == i,
                    element@ == default_value(ty@),
                    forall|j: int| 0 <= j < i ==> elements[j]@ == default_value(ty@),
                decreases *length - i,
            {
                elements.push(element.clone());
                i += 1;
            }
            let r = Expression::Array(Array { elements });
            assert(r@->Array_0.elements =~= Seq::new(*length as nat, |i: int| default_value(ty@)));
            r
        },
        TypeName::Tuple { type_names } => Expression::Tuple(create_default_values(type_names)),
        TypeName::StringSlice => {
            let r = Expression::Literal(Literal::String(String::new()));
            assert(r@->Literal_0->String_0 =~= Seq::empty());
            r
        },
        _ => todo_call(),
    }
}

fn create_default_values(types: &Vec<TypeName>) -> (r: Vec<Expression>)
    ensures
        expression_models(r@) == default_values(crate::sway::model::type_name_models(types@)),
    decreases types,
{
    let mut elements: Vec<Expression> = Vec::new();
    let mut i: usize = 0;
    while i < types.len()
        invariant
            i <= types.len(),
            elements.len() == i,
            forall|j: int| 0 <= j < i ==> elements[j]@ == default_value(types[j]@),
        decreases types.len() - i,
    {
        elements.push(create_default_value(&types[i]));
        i += 1;
    }
    assert(expression_models(elements@) =~= default_values(crate::sway::model::type_name_models(types@)));
    elements
}

/// The value of a variable of type `t`: the initializer if there is one,
/// and the default value of the type otherwise.
pub fn create_value_expression(t: &TypeName, value: Option<Expression>) -> (r: Expression)
    ensures
        r@ == value_expression(
            t@,
            match value {
                Some(v) => Some(v@),
                None => None,
            },
        ),
{
    match value {
        Some(v) => v,
        None => create_default_value(t),
    }
}

} // verus!
