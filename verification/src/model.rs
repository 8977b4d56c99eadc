//! The plain model of the syntax that the rewrites work on.
//!
//! Each piece of a definition is held as token text: the model carries no
//! parser state, so rewrites and rendering are ordinary verified code over
//! strings.

use vstd::prelude::*;

verus! {

/// Why an implementation block was rejected.
#[derive(Clone, Copy, PartialEq, Eq, Debug)]
pub enum ImplRejection {
    /// The text does not parse as an implementation block.
    NotAnImplBlock,
    /// The implemented type is not a plain single-name path.
    SelfTypeNotPlainName,
    /// An item of the block does not parse as a function definition.
    ItemNotAFunction,
}

/// Spec-level value of a function definition.
#[verifier::ext_equal]
pub ghost struct FnDefV {
    /// One attribute per entry, e.g. `# [inline]`, in source order.
    pub attrs: Seq<Seq<char>>,
    /// Visibility token text, empty for inherited visibility.
    pub vis: Seq<char>,
    /// The function's name.
    pub name: Seq<char>,
    /// Generic parameter list token text (without any `where` clause), empty
    /// when the function has none.
    pub generics: Seq<char>,
    /// The parameter list token text, without the surrounding parentheses.
    pub params: Seq<char>,
    /// Return type token text including the arrow, empty for the unit default.
    pub output: Seq<char>,
    /// The body block token text, braces included.
    pub body: Seq<char>,
}

/// A function definition, split into the pieces that the rewrites move around.
pub struct FnDef {
    /// One attribute per entry, in source order.
    pub attrs: Vec<String>,
    /// Visibility token text, empty for inherited visibility.
    pub vis: String,
    /// The function's name.
    pub name: String,
    /// Generic parameter list token text, empty when the function has none.
    pub generics: String,
    /// The parameter list token text, without the surrounding parentheses.
    pub params: String,
    /// Return type token text including the arrow, empty for the unit default.
    pub output: String,
    /// The body block token text, braces included.
    pub body: String,
}

impl View for FnDef {
    type V = FnDefV;

    open spec fn view(&self) -> FnDefV {
        FnDefV {
            attrs: self.attrs.deep_view(),
            vis: self.vis@,
            name: self.name@,
            generics: self.generics@,
            params: self.params@,
            output: self.output@,
            body: self.body@,
        }
    }
}

impl DeepView for FnDef {
    type V = FnDefV;

    open spec fn deep_view(&self) -> FnDefV {
        self.view()
    }
}

/// Spec-level value of an implementation block.
#[verifier::ext_equal]
pub ghost struct ImplDefV {
    /// One attribute per entry, in source order.
    pub attrs: Seq<Seq<char>>,
    /// Generic parameter list token text, empty when the block has none.
    pub generics: Seq<char>,
    /// The name of the type the block implements.
    pub ty_name: Seq<char>,
    /// The function definitions of the block, in source order.
    pub methods: Seq<FnDefV>,
}

/// An implementation block, split into its header pieces and its methods.
pub struct ImplDef {
    /// One attribute per entry, in source order.
    pub attrs: Vec<String>,
    /// Generic parameter list token text, empty when the block has none.
    pub generics: String,
    /// The name of the type the block implements.
    pub ty_name: String,
    /// The function definitions of the block, in source order.
    pub methods: Vec<FnDef>,
}

impl View for ImplDef {
    type V = ImplDefV;

    open spec fn view(&self) -> ImplDefV {
        ImplDefV {
            attrs: self.attrs.deep_view(),
            generics: self.generics@,
            ty_name: self.ty_name@,
            methods: self.methods.deep_view(),
        }
    }
}

/// Spec-level value of a parsed implementation block whose items are still
/// unsplit token text.
#[verifier::ext_equal]
pub ghost struct ImplSrcV {
    /// One attribute per entry, in source order.
    pub attrs: Seq<Seq<char>>,
    /// Generic parameter list token text, empty when the block has none.
    pub generics: Seq<char>,
    /// The name of the type the block implements.
    pub ty_name: Seq<char>,
    /// The token text of each item of the block, in source order.
    pub items: Seq<Seq<char>>,
}

/// A parsed implementation block whose items are still unsplit token text.
pub struct ImplSrc {
    /// One attribute per entry, in source order.
    pub attrs: Vec<String>,
    /// Generic parameter list token text, empty when the block has none.
    pub generics: String,
    /// The name of the type the block implements.
    pub ty_name: String,
    /// The token text of each item of the block, in source order.
    pub items: Vec<String>,
}

impl View for ImplSrc {
    type V = ImplSrcV;

    open spec fn view(&self) -> ImplSrcV {
        ImplSrcV {
            attrs: self.attrs.deep_view(),
            generics: self.generics@,
            ty_name: self.ty_name@,
            items: self.items.deep_view(),
        }
    }
}

} // verus!
