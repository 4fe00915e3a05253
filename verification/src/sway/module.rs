//! Finding and creating the items of a module.

use vstd::prelude::*;
use crate::sway::{
    Abi, Configurable, Expression, FunctionCall, Impl, Literal, Module, ModuleItem, ModuleKind, Storage,
    TypeName,
};
use crate::sway::model::{
    AbiView, ConfigurableView, expression_models, ExpressionView, FunctionCallView, ImplView, LiteralView,
    module_item_models, ModuleItemView, ModuleView, StorageView, TypeNameView,
};
use crate::sway::typing::{named_type, type_named};
use crate::text::{text, text_eq};

verus! {

/// The position of the first item of `items` that satisfies `p`, or the
/// length of `items` if none does.
pub open spec fn first_position(items: Seq<ModuleItemView>, p: spec_fn(ModuleItemView) -> bool) -> int
    decreases items.len(),
{
    if items.len() == 0 {
        0
    } else if p(items.first()) {
        0
    } else {
        1 + first_position(items.drop_first(), p)
    }
}

/// The test "is the storage block".
pub open spec fn is_storage_item() -> spec_fn(ModuleItemView) -> bool {
    |item: ModuleItemView| item is Storage
}

/// The test "is the configurable block".
pub open spec fn is_configurable_item() -> spec_fn(ModuleItemView) -> bool {
    |item: ModuleItemView| item is Configurable
}

/// The test "is the abi with this name".
pub open spec fn is_abi_named(name: Seq<char>) -> spec_fn(ModuleItemView) -> bool {
    |item: ModuleItemView|
        match item {
            ModuleItemView::Abi(abi) => abi.name == name,
            _ => false,
        }
}

/// Whether an impl block implements the type named `impl_name` for the
/// type named `for_name`, whatever the type arguments.
pub open spec fn implements_for(x: ImplView, impl_name: Seq<char>, for_name: Seq<char>) -> bool {
    match x.ty {
        TypeNameView::Identifier { name: n1, .. } => match x.for_type_name {
            Some(TypeNameView::Identifier { name: n2, .. }) => n1 == impl_name && n2 == for_name,
            _ => false,
        },
        _ => false,
    }
}

/// The test "is the impl of `impl_name` for `for_name`".
pub open spec fn is_impl_for(impl_name: Seq<char>, for_name: Seq<char>) -> spec_fn(ModuleItemView) -> bool {
    |item: ModuleItemView|
        match item {
            ModuleItemView::Impl(x) => implements_for(x, impl_name, for_name),
            _ => false,
        }
}

/// An abi with the given name that inherits nothing and declares nothing.
pub open spec fn empty_abi(name: Seq<char>) -> AbiView {
    AbiView { name, inherits: Seq::empty(), functions: Seq::empty() }
}

/// An impl of the type named `impl_name` for the type named `for_name`,
/// without items.
pub open spec fn empty_impl_for(impl_name: Seq<char>, for_name: Seq<char>) -> ImplView {
    ImplView {
        generic_parameters: None,
        ty: named_type(impl_name),
        for_type_name: Some(named_type(for_name)),
        items: Seq::empty(),
    }
}

/// The text with a backslash put before each backslash and each double quote.
pub open spec fn escaped(s: Seq<char>) -> Seq<char>
    decreases s.len(),
{
    if s.len() == 0 {
        Seq::empty()
    } else {
        escaped(s.drop_last()) + if s.last() == '\\' {
            "\\\\"@
        } else if s.last() == '"' {
            "\\\""@
        } else {
            seq![s.last()]
        }
    }
}

/// A call of the macro `name`, with the message as its argument if there is one.
pub open spec fn macro_call(name: Seq<char>, msg: Option<Seq<char>>) -> ExpressionView {
    ExpressionView::FunctionCall(
        Box::new(
            FunctionCallView {
                function: ExpressionView::Identifier(name),
                generic_parameters: None,
                parameters: match msg {
                    Some(m) => seq![ExpressionView::Literal(LiteralView::String(m))],
                    None => Seq::empty(),
                },
            },
        ),
    )
}

/// The items with `item` appended unless some item satisfies `p`.
pub open spec fn with_item_unless(
    items: Seq<ModuleItemView>,
    p: spec_fn(ModuleItemView) -> bool,
    item: ModuleItemView,
) -> Seq<ModuleItemView> {
    if first_position(items, p) < items.len() {
        items
    } else {
        items.push(item)
    }
}

proof fn lemma_first_position(items: Seq<ModuleItemView>, p: spec_fn(ModuleItemView) -> bool, i: int)
    requires
        0 <= i <= items.len(),
        forall|j: int| 0 <= j < i ==> !p(#[trigger] items[j]),
        i < items.len() ==> p(items[i]),
    ensures
        first_position(items, p) == i,
    decreases items.len(),
{
    if items.len() == 0 {
    } else if i == 0 {
    } else {
        assert(!p(items[0]));
        let t = items.drop_first();
        assert forall|j: int| 0 <= j < i - 1 implies !p(#[trigger] t[j]) by {
            assert(t[j] == items[j + 1]);
        }
        if i < items.len() {
            assert(t[i - 1] == items[i]);
        }
        lemma_first_position(t, p, i - 1);
    }
}

proof fn lemma_update_models(items: Seq<ModuleItem>, i: int)
    requires
        0 <= i < items.len(),
    ensures
        forall|x: ModuleItem| #[trigger]
            module_item_models(items.update(i, x)) == module_item_models(items).update(i, x.model()),
{
    assert forall|x: ModuleItem| #[trigger]
        module_item_models(items.update(i, x)) == module_item_models(items).update(i, x.model()) by {
        assert(module_item_models(items.update(i, x)) =~= module_item_models(items).update(i, x.model()));
    }
}

/// Whether an impl block implements the type named `impl_name` for the type
/// named `for_name`.
pub fn impl_is_for(x: &Impl, impl_name: &str, for_name: &str) -> (r: bool)
    ensures
        r == implements_for(x@, impl_name@, for_name@),
{
    match &x.ty {
        TypeName::Identifier { name: n1, generic_parameters: _ } => match &x.for_type_name {
            Some(TypeName::Identifier { name: n2, generic_parameters: _ }) => text_eq(n1.as_str(), impl_name)
                && text_eq(n2.as_str(), for_name),
            _ => false,
        },
        _ => false,
    }
}

fn escape(msg: &str) -> (r: String)
    ensures
        r@ == escaped(msg@),
{
    let n = msg.unicode_len();
    let mut out = String::new();
    let mut i: usize = 0;
    assert(msg@.subrange(0, 0) =~= Seq::empty());
    assert(out@ =~= escaped(msg@.subrange(0, 0)));
    while i < n
        invariant
            i <= n,
            n == msg@.len(),
            out@ == escaped(msg@.subrange(0, i as int)),
        decreases n - i,
    {
        let c = msg.get_char(i);
        proof {
            let s = msg@.subrange(0, i + 1);
            assert(s.last() == msg@[i as int]);
            assert(s.drop_last() =~= msg@.subrange(0, i as int));
            assert(msg@.subrange(i as int, i + 1) =~= seq![msg@[i as int]]);
        }
        if c == '\\' {
            out.append("\\\\");
        } else if c == '"' {
            out.append("\\\"");
        } else {
            out.append(msg.substring_char(i, i + 1));
        }
        i += 1;
    }
    assert(msg@.subrange(0, n as int) =~= msg@);
    out
}

fn call_macro(name: &str, msg: Option<String>) -> (r: Expression)
    ensures
        r@ == macro_call(
            name@,
            match msg {
                Some(m) => Some(m@),
                None => None,
            },
        ),
{
    let mut parameters: Vec<Expression> = Vec::new();
    match msg {
        Some(m) => {
            parameters.push(Expression::Literal(Literal::String(m)));
            assert(expression_models(parameters@) =~= seq![ExpressionView::Literal(LiteralView::String(m@))]);
        },
        None => {
            assert(expression_models(parameters@) =~= Seq::empty());
        },
    }
    let r = Expression::FunctionCall(
        Box::new(FunctionCall { function: Expression::Identifier(text(name)), generic_parameters: None, parameters }),
    );
    proof {
        reveal_with_fuel(Expression::model, 3);
    }
    r
}

impl Expression {
    /// A call of `todo!`, with the message as its argument if there is one;
    /// backslashes and double quotes in the message are escaped.
    pub fn create_todo(msg: Option<String>) -> (r: Expression)
        ensures
            r@ == macro_call(
                "todo!"@,
                match msg {
                    Some(m) => Some(escaped(m@)),
                    None => None,
                },
            ),
    {
        call_macro(
            "todo!",
            match msg {
                Some(m) => Some(escape(m.as_str())),
                None => None,
            },
        )
    }

    /// A call of `unimplemented!`, with the message as its argument if
    /// there is one.
    pub fn create_unimplemented(msg: Option<String>) -> (r: Expression)
        ensures
            r@ == macro_call(
                "unimplemented!"@,
                match msg {
                    Some(m) => Some(m@),
                    None => None,
                },
            ),
    {
        call_macro("unimplemented!", msg)
    }
}

fn position_of(items: &Vec<ModuleItem>, which: u8, name: &str, for_name: &str) -> (i: usize)
    requires
        which < 4,
    ensures
        i == first_position(module_item_models(items@), item_test(which, name@, for_name@)),
        i <= items.len(),
        i < items.len() ==> item_test(which, name@, for_name@)(items[i as int]@),
{
    let ghost p = item_test(which, name@, for_name@);
    let mut i: usize = 0;
    let mut found = false;
    while i < items.len() && !found
        invariant
            i <= items.len(),
            which < 4,
            p == item_test(which, name@, for_name@),
            forall|j: int| 0 <= j < i ==> !p(#[trigger] items[j]@),
            found ==> i < items.len() && p(items[i as int]@),
        decreases items.len() - i + if found { 0int } else { 1int },
    {
        let hit = match &items[i] {
            ModuleItem::Storage(_) => which == 0,
            ModuleItem::Configurable(_) => which == 1,
            ModuleItem::Abi(abi) => which == 2 && text_eq(abi.name.as_str(), name),
            ModuleItem::Impl(x) => which == 3 && impl_is_for(x, name, for_name),
            _ => false,
        };
        if hit {
            found = true;
        } else {
            i += 1;
        }
    }
    proof {
        let models = module_item_models(items@);
        assert forall|j: int| 0 <= j < i implies !p(#[trigger] models[j]) by {
            assert(models[j] == items[j]@);
        }
        lemma_first_position(models, p, i as int);
    }
    i
}

/// The four tests by which an item of a module is found again.
pub open spec fn item_test(which: u8, name: Seq<char>, for_name: Seq<char>) -> spec_fn(ModuleItemView) -> bool {
    if which == 0 {
        is_storage_item()
    } else if which == 1 {
        is_configurable_item()
    } else if which == 2 {
        is_abi_named(name)
    } else {
        is_impl_for(name, for_name)
    }
}

impl Module {
    /// A module of the given kind without items.
    pub fn new(kind: ModuleKind) -> (r: Module)
        ensures
            r@ == (ModuleView { kind: kind@, items: Seq::empty() }),
    {
        let r = Module { kind, items: Vec::new() };
        assert(r@.items =~= Seq::empty());
        r
    }

    /// Retrieves the `abi` item with the specified name from the module, creating it if it doesn't exist.
    pub fn get_or_create_abi(&mut self, abi_name: &str) -> (r: &mut Abi)
        ensures
            ({
                let items = with_item_unless(old(self)@.items, is_abi_named(abi_name@), ModuleItemView::Abi(empty_abi(abi_name@)));
                let i = first_position(old(self)@.items, is_abi_named(abi_name@));
                &&& ModuleItemView::Abi(r@) == items[i]
                &&& final(self)@ == (ModuleView {
                    kind: old(self)@.kind,
                    items: items.update(i, ModuleItemView::Abi(final(r)@)),
                })
            }),
    {
        let i = position_of(&self.items, 2, abi_name, "");
        if i == self.items.len() {
            let item = Abi { name: text(abi_name), inherits: Vec::new(), functions: Vec::new() };
            proof {
                reveal_with_fuel(TypeName::model, 2);
                assert(item@.inherits =~= Seq::empty());
                assert(item@.functions =~= Seq::empty());
            }
            self.items.push(ModuleItem::Abi(item));
        }
        proof {
            assert(self@.items =~= with_item_unless(old(self)@.items, is_abi_named(abi_name@), ModuleItemView::Abi(empty_abi(abi_name@))));
            lemma_update_models(self.items@, i as int);
        }
        match &mut self.items[i] {
            ModuleItem::Abi(x) => x,
            _ => vstd::pervasive::unreached(),
        }
    }

    /// Retrieves the `impl _ for _` with the specified types from the module, creating it if it doesn't exist.
    pub fn get_or_create_impl_for(&mut self, impl_name: &str, for_name: &str) -> (r: &mut Impl)
        ensures
            ({
                let items = with_item_unless(old(self)@.items, is_impl_for(impl_name@, for_name@), ModuleItemView::Impl(empty_impl_for(impl_name@, for_name@)));
                let i = first_position(old(self)@.items, is_impl_for(impl_name@, for_name@));
                &&& ModuleItemView::Impl(r@) == items[i]
                &&& final(self)@ == (ModuleView {
                    kind: old(self)@.kind,
                    items: items.update(i, ModuleItemView::Impl(final(r)@)),
                })
            }),
    {
        let i = position_of(&self.items, 3, impl_name, for_name);
        if i == self.items.len() {
            let item = Impl { generic_parameters: None, ty: type_named(impl_name), for_type_name: Some(type_named(for_name)), items: Vec::new() };
            proof {
                reveal_with_fuel(TypeName::model, 2);
                assert(item@.items =~= Seq::empty());
            }
            self.items.push(ModuleItem::Impl(item));
        }
        proof {
            assert(self@.items =~= with_item_unless(old(self)@.items, is_impl_for(impl_name@, for_name@), ModuleItemView::Impl(empty_impl_for(impl_name@, for_name@))));
            lemma_update_models(self.items@, i as int);
        }
        match &mut self.items[i] {
            ModuleItem::Impl(x) => x,
            _ => vstd::pervasive::unreached(),
        }
    }

    /// Retrieves the `storage` item from the module, creating it if it doesn't exist.
    pub fn get_or_create_storage(&mut self) -> (r: &mut Storage)
        ensures
            ({
                let items = with_item_unless(old(self)@.items, is_storage_item(), ModuleItemView::Storage(StorageView::empty()));
                let i = first_position(old(self)@.items, is_storage_item());
                &&& ModuleItemView::Storage(r@) == items[i]
                &&& final(self)@ == (ModuleView {
                    kind: old(self)@.kind,
                    items: items.update(i, ModuleItemView::Storage(final(r)@)),
                })
            }),
    {
        let i = position_of(&self.items, 0, "", "");
        if i == self.items.len() {
            let item = Storage::default();
            proof {
                reveal_with_fuel(TypeName::model, 2);
            }
            self.items.push(ModuleItem::Storage(item));
        }
        proof {
            assert(self@.items =~= with_item_unless(old(self)@.items, is_storage_item(), ModuleItemView::Storage(StorageView::empty())));
            lemma_update_models(self.items@, i as int);
        }
        match &mut self.items[i] {
            ModuleItem::Storage(x) => x,
            _ => vstd::pervasive::unreached(),
        }
    }

    /// Retrieves the `configurable` item from the module, creating it if it doesn't exist.
    pub fn get_or_create_configurable(&mut self) -> (r: &mut Configurable)
        ensures
            ({
                let items = with_item_unless(old(self)@.items, is_configurable_item(), ModuleItemView::Configurable(ConfigurableView::empty()));
                let i = first_position(old(self)@.items, is_configurable_item());
                &&& ModuleItemView::Configurable(r@) == items[i]
                &&& final(self)@ == (ModuleView {
                    kind: old(self)@.kind,
                    items: items.update(i, ModuleItemView::Configurable(final(r)@)),
                })
            }),
    {
        let i = position_of(&self.items, 1, "", "");
        if i == self.items.len() {
            let item = Configurable::default();
            proof {
                reveal_with_fuel(TypeName::model, 2);
            }
            self.items.push(ModuleItem::Configurable(item));
        }
        proof {
            assert(self@.items =~= with_item_unless(old(self)@.items, is_configurable_item(), ModuleItemView::Configurable(ConfigurableView::empty())));
            lemma_update_models(self.items@, i as int);
        }
        match &mut self.items[i] {
            ModuleItem::Configurable(x) => x,
            _ => vstd::pervasive::unreached(),
        }
    }
}

} // verus!
