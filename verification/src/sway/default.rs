

use vstd::prelude::*;
use crate::sway::{
    Array, AsmBlock, AttributeList, Block, Configurable, Enum, GenericParameterList, Impl, Parameter,
    ParameterList, Storage, TypeName,
};
use crate::sway::model::{
    ArrayView, AsmBlockView, AttributeListView, BlockView, ConfigurableView, EnumView,
    GenericParameterListView, ImplView, ParameterListView, ParameterView, StorageView, TypeNameView,
};

verus! {

impl GenericParameterListView {
    /// The value of a new, empty [`GenericParameterList`].
    pub open spec fn empty() -> GenericParameterListView {
        GenericParameterListView {
            entries: Seq::empty(),
        }
    }
}

impl Default for GenericParameterList {
    fn default() -> (r: Self)
        ensures
            r@ == GenericParameterListView::empty(),
    {
        let r = GenericParameterList {
            entries: Vec::new(),
        };
        assert(r@.entries =~= Seq::empty());
        r
    }
}

impl AttributeListView {
    /// The value of a new, empty [`AttributeList`].
    pub open spec fn empty() -> AttributeListView {
        AttributeListView {
            attributes: Seq::empty(),
        }
    }
}

impl Default for AttributeList {
    fn default() -> (r: Self)
        ensures
            r@ == AttributeListView::empty(),
    {
        let r = AttributeList {
            attributes: Vec::new(),
        };
        assert(r@.attributes =~= Seq::empty());
        r
    }
}

impl TypeNameView {
    /// The value of a new, empty [`TypeName`].
    pub open spec fn empty() -> TypeNameView {
        TypeNameView::Undefined
    }
}

impl Default for TypeName {
    fn default() -> (r: Self)
        ensures
            r@ == TypeNameView::empty(),
    {
        TypeName::Undefined
    }
}

impl EnumView {
    /// The value of a new, empty [`Enum`].
    pub open spec fn empty() -> EnumView {
        EnumView {
            attributes: None,
            is_public: false,
            name: Seq::empty(),
            generic_parameters: None,
            variants: Seq::empty(),
        }
    }
}

impl Default for Enum {
    fn default() -> (r: Self)
        ensures
            r@ == EnumView::empty(),
    {
        let r = Enum {
            attributes: None,
            is_public: false,
            name: String::new(),
            generic_parameters: None,
            variants: Vec::new(),
        };
        assert(r@.name =~= Seq::empty());
        assert(r@.variants =~= Seq::empty());
        r
    }
}

impl StorageView {
    /// The value of a new, empty [`Storage`].
    pub open spec fn empty() -> StorageView {
        StorageView {
            fields: Seq::empty(),
        }
    }
}

impl Default for Storage {
    fn default() -> (r: Self)
        ensures
            r@ == StorageView::empty(),
    {
        let r = Storage {
            fields: Vec::new(),
        };
        assert(r@.fields =~= Seq::empty());
        r
    }
}

impl ConfigurableView {
    /// The value of a new, empty [`Configurable`].
    pub open spec fn empty() -> ConfigurableView {
        ConfigurableView {
            fields: Seq::empty(),
        }
    }
}

impl Default for Configurable {
    fn default() -> (r: Self)
        ensures
            r@ == ConfigurableView::empty(),
    {
        let r = Configurable {
            fields: Vec::new(),
        };
        assert(r@.fields =~= Seq::empty());
        r
    }
}

impl ParameterView {
    /// The value of a new, empty [`Parameter`].
    pub open spec fn empty() -> ParameterView {
        ParameterView {
            is_ref: false,
            is_mut: false,
            name: Seq::empty(),
            ty: None,
        }
    }
}

impl Default for Parameter {
    fn default() -> (r: Self)
        ensures
            r@ == ParameterView::empty(),
    {
        let r = Parameter {
            is_ref: false,
            is_mut: false,
            name: String::new(),
            ty: None,
        };
        assert(r@.name =~= Seq::empty());
        r
    }
}

impl ParameterListView {
    /// The value of a new, empty [`ParameterList`].
    pub open spec fn empty() -> ParameterListView {
        ParameterListView {
            entries: Seq::empty(),
        }
    }
}

impl Default for ParameterList {
    fn default() -> (r: Self)
        ensures
            r@ == ParameterListView::empty(),
    {
        let r = ParameterList {
            entries: Vec::new(),
        };
        assert(r@.entries =~= Seq::empty());
        r
    }
}

impl ImplView {
    /// The value of a new, empty [`Impl`].
    pub open spec fn empty() -> ImplView {
        ImplView {
            generic_parameters: None,
            ty: TypeNameView::empty(),
            for_type_name: None,
            items: Seq::empty(),
        }
    }
}

impl Default for Impl {
    fn default() -> (r: Self)
        ensures
            r@ == ImplView::empty(),
    {
        let r = Impl {
            generic_parameters: None,
            ty: TypeName::default(),
            for_type_name: None,
            items: Vec::new(),
        };
        assert(r@.items =~= Seq::empty());
        r
    }
}

impl BlockView {
    /// The value of a new, empty [`Block`].
    pub open spec fn empty() -> BlockView {
        BlockView {
            statements: Seq::empty(),
            final_expr: None,
        }
    }
}

impl Default for Block {
    fn default() -> (r: Self)
        ensures
            r@ == BlockView::empty(),
    {
        let r = Block {
            statements: Vec::new(),
            final_expr: None,
        };
        assert(r@.statements =~= Seq::empty());
        r
    }
}

impl ArrayView {
    /// The value of a new, empty [`Array`].
    pub open spec fn empty() -> ArrayView {
        ArrayView {
            elements: Seq::empty(),
        }
    }
}

impl Default for Array {
    fn default() -> (r: Self)
        ensures
            r@ == ArrayView::empty(),
    {
        let r = Array {
            elements: Vec::new(),
        };
        assert(r@.elements =~= Seq::empty());
        r
    }
}

impl AsmBlockView {
    /// The value of a new, empty [`AsmBlock`].
    pub open spec fn empty() -> AsmBlockView {
        AsmBlockView {
            registers: Seq::empty(),
            instructions: Seq::empty(),
            final_expression: None,
        }
    }
}

impl Default for AsmBlock {
    fn default() -> (r: Self)
        ensures
            r@ == AsmBlockView::empty(),
    {
        let r = AsmBlock {
            registers: Vec::new(),
            instructions: Vec::new(),
            final_expression: None,
        };
        assert(r@.registers =~= Seq::empty());
        assert(r@.instructions =~= Seq::empty());
        r
    }
}

} // verus!
