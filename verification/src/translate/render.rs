//! The text of a translated definition.

use vstd::prelude::*;
use vstd::string::StringExecFns;
use crate::sway::{Abi, Constant, Enum, Function, Impl, Struct, TypeDefinition, Use};
use crate::sway::model::{
    abi_models, AbiView, constant_models, ConstantView, EnumView, function_models, FunctionView, impl_models,
    ImplView, struct_models, StructView, type_definition_models, TypeDefinitionView, use_models, UseView,
};
use crate::sway::render::{
    render_abi, render_configurable, render_constant, render_enum, render_function, render_impl,
    render_storage, render_struct, rendered_abi, rendered_configurable, rendered_constant, rendered_enum,
    rendered_function, rendered_impl, rendered_storage, rendered_struct, show_type_definition, show_use,
    shown_type_definition, shown_use,
};
use crate::text::text;
use crate::translate::{TranslatedDefinition, TranslatedEnum};
use crate::translate::model::{
    enum_impl_models, translated_enum_models, TranslatedDefinitionView, TranslatedEnumView,
};

verus! {

/// The texts of the elements, each ending its line; with a blank line
/// between them if `blank`.
pub open spec fn lines_of<T>(s: Seq<T>, f: spec_fn(T) -> Seq<char>, blank: bool) -> Seq<char>
    decreases s.len(),
{
    if s.len() == 0 {
        Seq::empty()
    } else {
        lines_of(s.drop_last(), f, blank) + (if blank && s.len() > 1 {
                "\n"@
            } else {
                Seq::<char>::empty()
        }) + f(s.last()) + "\n"@
    }
}

/// The text with one more section, after a blank line if neither the text
/// nor the section is empty.
pub open spec fn with_section(text: Seq<char>, section: Seq<char>) -> Seq<char> {
    text + (if text.len() > 0 && section.len() > 0 {
            "\n"@
        } else {
            Seq::<char>::empty()
    }) + section
}

/// The text of an enum of the source: its type alias, a blank line, and
/// the impl with its constants.
pub open spec fn rendered_translated_enum(e: TranslatedEnumView) -> Seq<char> {
    shown_type_definition(e.type_definition) + "\n\n"@ + rendered_impl(e.variants_impl, 0)
}

/// The text of an enum of events or errors: the enum, a blank line, and
/// the impl that encodes it.
pub open spec fn rendered_payload_enum(e: (EnumView, ImplView)) -> Seq<char> {
    rendered_enum(e.0, 0) + "\n\n"@ + rendered_impl(e.1, 0)
}

/// The text of an optional block, ending its line.
pub open spec fn optional_line(text: Option<Seq<char>>) -> Seq<char> {
    match text {
        Some(t) => t + "\n"@,
        None => Seq::empty(),
    }
}

/// The imports, one on each line.
pub open spec fn uses_text(d: TranslatedDefinitionView) -> Seq<char> {
    lines_of(d.uses, |x: UseView| shown_use(x), false)
}

/// The constants, one on each line.
pub open spec fn constants_text(d: TranslatedDefinitionView) -> Seq<char> {
    lines_of(d.constants, |x: ConstantView| rendered_constant(x, 0), false)
}

/// The type aliases, one on each line.
pub open spec fn type_definitions_text(d: TranslatedDefinitionView) -> Seq<char> {
    lines_of(d.type_definitions, |x: TypeDefinitionView| shown_type_definition(x), false)
}

/// The enums of the source, with a blank line between them.
pub open spec fn enums_text(d: TranslatedDefinitionView) -> Seq<char> {
    lines_of(d.enums, |x: TranslatedEnumView| rendered_translated_enum(x), true)
}

/// The structs, with a blank line between them.
pub open spec fn structs_text(d: TranslatedDefinitionView) -> Seq<char> {
    lines_of(d.structs, |x: StructView| rendered_struct(x, 0), true)
}

/// The enums of events, with a blank line between them.
pub open spec fn events_enums_text(d: TranslatedDefinitionView) -> Seq<char> {
    lines_of(d.events_enums, |x: (EnumView, ImplView)| rendered_payload_enum(x), true)
}

/// The enums of errors, with a blank line between them.
pub open spec fn errors_enums_text(d: TranslatedDefinitionView) -> Seq<char> {
    lines_of(d.errors_enums, |x: (EnumView, ImplView)| rendered_payload_enum(x), true)
}

/// The imported abis, with a blank line between them.
pub open spec fn abis_text(d: TranslatedDefinitionView) -> Seq<char> {
    lines_of(d.abis, |x: AbiView| rendered_abi(x, 0), true)
}

/// The abi of the definition.
pub open spec fn abi_text(d: TranslatedDefinitionView) -> Seq<char> {
    optional_line(
        match d.abi {
            Some(x) => Some(rendered_abi(x, 0)),
            None => None,
        },
    )
}

/// The storage block.
pub open spec fn storage_text(d: TranslatedDefinitionView) -> Seq<char> {
    optional_line(
        match d.storage {
            Some(x) => Some(rendered_storage(x, 0)),
            None => None,
        },
    )
}

/// The configurable block.
pub open spec fn configurable_text(d: TranslatedDefinitionView) -> Seq<char> {
    optional_line(
        match d.configurable {
            Some(x) => Some(rendered_configurable(x, 0)),
            None => None,
        },
    )
}

/// The functions, with a blank line between them.
pub open spec fn functions_text(d: TranslatedDefinitionView) -> Seq<char> {
    lines_of(d.functions, |x: FunctionView| rendered_function(x, 0), true)
}

/// The impls, with a blank line between them.
pub open spec fn impls_text(d: TranslatedDefinitionView) -> Seq<char> {
    lines_of(d.impls, |x: ImplView| rendered_impl(x, 0), true)
}

/// The text of a definition: its imports, constants, type aliases, enums,
/// structs, enums of events, enums of errors, imported abis, abi, storage
/// block, configurable block, functions and impls, in this order, with a
/// blank line between the sections that are not empty.
pub open spec fn rendered_definition(d: TranslatedDefinitionView) -> Seq<char> {
    let text = Seq::<char>::empty();
    let text = with_section(text, uses_text(d));
    let text = with_section(text, constants_text(d));
    let text = with_section(text, type_definitions_text(d));
    let text = with_section(text, enums_text(d));
    let text = with_section(text, structs_text(d));
    let text = with_section(text, events_enums_text(d));
    let text = with_section(text, errors_enums_text(d));
    let text = with_section(text, abis_text(d));
    let text = with_section(text, abi_text(d));
    let text = with_section(text, storage_text(d));
    let text = with_section(text, configurable_text(d));
    let text = with_section(text, functions_text(d));
    let text = with_section(text, impls_text(d));
    text
}

fn lines<T, V, F: Fn(&T) -> String>(
    items: &Vec<T>,
    f: F,
    blank: bool,
    Ghost(views): Ghost<Seq<V>>,
    Ghost(g): Ghost<spec_fn(V) -> Seq<char>>,
) -> (r: String)
    requires
        views.len() == items.len(),
        forall|i: int| 0 <= i < items.len() ==> f.requires((&#[trigger] items[i],)),
        forall|i: int, t: String| 0 <= i < items.len() && f.ensures((&#[trigger] items[i],), t) ==> t@ == g(views[i]),
    ensures
        r@ == lines_of(views, g, blank),
{
    let mut out = String::new();
    let mut i: usize = 0;
    assert(views.subrange(0, 0) =~= Seq::empty());
    while i < items.len()
        invariant
            i <= items.len(),
            views.len() == items.len(),
            forall|i: int| 0 <= i < items.len() ==> f.requires((&#[trigger] items[i],)),
            forall|i: int, t: String|
            0 <= i < items.len() && f.ensures((&#[trigger] items[i],), t) ==> t@ == g(views[i]),
            out@ == lines_of(views.subrange(0, i as int), g, blank),
        decreases items.len() - i,
    {
        proof {
            let s = views.subrange(0, i + 1);
            assert(s.drop_last() =~= views.subrange(0, i as int));
            assert(s.last() == views[i as int]);
        }
        let separator = if blank && i > 0 {
            text("\n")
        } else {
            String::new()
        };
        let line = f(&items[i]);
        out.append(separator.as_str());
        out.append(line.as_str());
        out.append("\n");
        i += 1;
    }
    assert(views.subrange(0, i as int) =~= views);
    out
}

fn line_of(t: Option<String>) -> (r: String)
    ensures
        r@ == optional_line(
            match t {
                Some(t) => Some(t@),
                None => None,
            },
        ),
{
    match t {
        Some(t) => {
            let mut out = t;
            out.append("\n");
            out
        },
        None => String::new(),
    }
}

fn append_section(text: String, section: String) -> (r: String)
    ensures
        r@ == with_section(text@, section@),
{
    let mut out = text;
    let separator = if !out.as_str().is_empty() && !section.as_str().is_empty() {
        crate::text::text("\n")
    } else {
        String::new()
    };
    out.append(separator.as_str());
    out.append(section.as_str());
    out
}

fn render_translated_enum(e: &TranslatedEnum) -> (r: String)
    ensures
        r@ == rendered_translated_enum(e@),
{
    let mut out = show_type_definition(&e.type_definition);
    out.append("\n\n");
    let piece = render_impl(&e.variants_impl, 0);
    out.append(piece.as_str());
    out
}

fn render_payload_enum(e: &(Enum, Impl)) -> (r: String)
    ensures
        r@ == rendered_payload_enum((e.0@, e.1@)),
{
    let mut out = render_enum(&e.0, 0);
    out.append("\n\n");
    let piece = render_impl(&e.1, 0);
    out.append(piece.as_str());
    out
}

fn uses_section(d: &TranslatedDefinition) -> (r: String)
    ensures
        r@ == uses_text(d@),
{
    lines::<Use, UseView, _>(
        &d.uses,
        (|x: &Use| -> (t: String)
                ensures
                    t@ == shown_use(x@),
            {
                show_use(x)
        }),
        false,
        Ghost(use_models(d.uses@)),
        Ghost(|x: UseView| shown_use(x)),
    )
}

fn constants_section(d: &TranslatedDefinition) -> (r: String)
    ensures
        r@ == constants_text(d@),
{
    lines::<Constant, ConstantView, _>(
        &d.constants,
        (|x: &Constant| -> (t: String)
                ensures
                    t@ == rendered_constant(x@, 0),
            {
                render_constant(x, 0)
        }),
        false,
        Ghost(constant_models(d.constants@)),
        Ghost(|x: ConstantView| rendered_constant(x, 0)),
    )
}

fn type_definitions_section(d: &TranslatedDefinition) -> (r: String)
    ensures
        r@ == type_definitions_text(d@),
{
    lines::<TypeDefinition, TypeDefinitionView, _>(
        &d.type_definitions,
        (|x: &TypeDefinition| -> (t: String)
                ensures
                    t@ == shown_type_definition(x@),
            {
                show_type_definition(x)
        }),
        false,
        Ghost(type_definition_models(d.type_definitions@)),
        Ghost(|x: TypeDefinitionView| shown_type_definition(x)),
    )
}

fn enums_section(d: &TranslatedDefinition) -> (r: String)
    ensures
        r@ == enums_text(d@),
{
    lines::<TranslatedEnum, TranslatedEnumView, _>(
        &d.enums,
        (|x: &TranslatedEnum| -> (t: String)
                ensures
                    t@ == rendered_translated_enum(x@),
            {
                render_translated_enum(x)
        }),
        true,
        Ghost(translated_enum_models(d.enums@)),
        Ghost(|x: TranslatedEnumView| rendered_translated_enum(x)),
    )
}

fn structs_section(d: &TranslatedDefinition) -> (r: String)
    ensures
        r@ == structs_text(d@),
{
    lines::<Struct, StructView, _>(
        &d.structs,
        (|x: &Struct| -> (t: String)
                ensures
                    t@ == rendered_struct(x@, 0),
            {
                render_struct(x, 0)
        }),
        true,
        Ghost(struct_models(d.structs@)),
        Ghost(|x: StructView| rendered_struct(x, 0)),
    )
}

fn events_enums_section(d: &TranslatedDefinition) -> (r: String)
    ensures
        r@ == events_enums_text(d@),
{
    lines::<(Enum, Impl), (EnumView, ImplView), _>(
        &d.events_enums,
        (|x: &(Enum, Impl)| -> (t: String)
                ensures
                    t@ == rendered_payload_enum((x.0@, x.1@)),
            {
                render_payload_enum(x)
        }),
        true,
        Ghost(enum_impl_models(d.events_enums@)),
        Ghost(|x: (EnumView, ImplView)| rendered_payload_enum(x)),
    )
}

fn errors_enums_section(d: &TranslatedDefinition) -> (r: String)
    ensures
        r@ == errors_enums_text(d@),
{
    lines::<(Enum, Impl), (EnumView, ImplView), _>(
        &d.errors_enums,
        (|x: &(Enum, Impl)| -> (t: String)
                ensures
                    t@ == rendered_payload_enum((x.0@, x.1@)),
            {
                render_payload_enum(x)
        }),
        true,
        Ghost(enum_impl_models(d.errors_enums@)),
        Ghost(|x: (EnumView, ImplView)| rendered_payload_enum(x)),
    )
}

fn abis_section(d: &TranslatedDefinition) -> (r: String)
    ensures
        r@ == abis_text(d@),
{
    lines::<Abi, AbiView, _>(
        &d.abis,
        (|x: &Abi| -> (t: String)
                ensures
                    t@ == rendered_abi(x@, 0),
            {
                render_abi(x, 0)
        }),
        true,
        Ghost(abi_models(d.abis@)),
        Ghost(|x: AbiView| rendered_abi(x, 0)),
    )
}

fn functions_section(d: &TranslatedDefinition) -> (r: String)
    ensures
        r@ == functions_text(d@),
{
    lines::<Function, FunctionView, _>(
        &d.functions,
        (|x: &Function| -> (t: String)
                ensures
                    t@ == rendered_function(x@, 0),
            {
                render_function(x, 0)
        }),
        true,
        Ghost(function_models(d.functions@)),
        Ghost(|x: FunctionView| rendered_function(x, 0)),
    )
}

fn impls_section(d: &TranslatedDefinition) -> (r: String)
    ensures
        r@ == impls_text(d@),
{
    lines::<Impl, ImplView, _>(
        &d.impls,
        (|x: &Impl| -> (t: String)
                ensures
                    t@ == rendered_impl(x@, 0),
            {
                render_impl(x, 0)
        }),
        true,
        Ghost(impl_models(d.impls@)),
        Ghost(|x: ImplView| rendered_impl(x, 0)),
    )
}

fn abi_section(d: &TranslatedDefinition) -> (r: String)
    ensures
        r@ == abi_text(d@),
{
    line_of(
        match &d.abi {
            Some(x) => Some(render_abi(x, 0)),
            None => None,
        },
    )
}

fn storage_section(d: &TranslatedDefinition) -> (r: String)
    ensures
        r@ == storage_text(d@),
{
    line_of(
        match &d.storage {
            Some(x) => Some(render_storage(x, 0)),
            None => None,
        },
    )
}

fn configurable_section(d: &TranslatedDefinition) -> (r: String)
    ensures
        r@ == configurable_text(d@),
{
    line_of(
        match &d.configurable {
            Some(x) => Some(render_configurable(x, 0)),
            None => None,
        },
    )
}

impl TranslatedDefinition {
    /// Writes the definition out.
    pub fn render(&self) -> (r: String)
        ensures
            r@ == rendered_definition(self@),
    {
        let out = String::new();
        let out = append_section(out, uses_section(self));
        let out = append_section(out, constants_section(self));
        let out = append_section(out, type_definitions_section(self));
        let out = append_section(out, enums_section(self));
        let out = append_section(out, structs_section(self));
        let out = append_section(out, events_enums_section(self));
        let out = append_section(out, errors_enums_section(self));
        let out = append_section(out, abis_section(self));
        let out = append_section(out, abi_section(self));
        let out = append_section(out, storage_section(self));
        let out = append_section(out, configurable_section(self));
        let out = append_section(out, functions_section(self));
        let out = append_section(out, impls_section(self));
        out
    }
}

} // verus!
