//! The description of a function definition that the engine works on.
//!
//! Token text is kept as strings: a pattern, a type, a return type, a body
//! block and the whole definition are held exactly as they were written.
//! Beside the text of a parameter's type stands its shape, which is what
//! classification reads.

use vstd::prelude::*;

verus! {

/// What classification reads of a parameter's declared type.
#[derive(Clone, Debug, PartialEq, Eq)]
pub enum TypeShape {
    /// A path type such as `Dep<i32>` or `std::sync::Arc<T>`: the identifier
    /// of each path segment, in order, without generic arguments.
    Path(Vec<String>),
    /// Any other type: a reference, a tuple, a slice, a function pointer.
    Other,
}

/// A parameter written as `pat: ty`.
#[derive(Clone, Debug, PartialEq, Eq)]
pub struct TypedParam {
    /// The pattern, as written.
    pub pat: String,
    /// The declared type, as written.
    pub ty: String,
    /// The shape of the declared type.
    pub shape: TypeShape,
}

/// One parameter of a function definition.
#[derive(Clone, Debug, PartialEq, Eq)]
pub enum FnArg {
    /// A `self` parameter in any form.
    Receiver,
    /// A parameter with a pattern and a type.
    Typed(TypedParam),
}

/// A function definition.
#[derive(Clone, Debug, PartialEq, Eq)]
pub struct FnItem {
    /// The whole definition, as written.
    pub source: String,
    /// The function's identifier.
    pub name: String,
    /// Whether the function is declared `async`.
    pub is_async: bool,
    /// The parameters, in declaration order.
    pub inputs: Vec<FnArg>,
    /// The declared return type, as written; `None` where none is declared.
    pub output: Option<String>,
    /// The body block, braces included, as written.
    pub block: String,
}

/// The mathematical value of a [`TypeShape`].
pub enum ShapeView {
    Path(Seq<Seq<char>>),
    Other,
}

/// The mathematical value of a [`TypedParam`].
pub struct ParamView {
    pub pat: Seq<char>,
    pub ty: Seq<char>,
    pub shape: ShapeView,
}

/// The mathematical value of a [`FnArg`].
pub enum ArgView {
    Receiver,
    Typed(ParamView),
}

/// The mathematical value of a [`FnItem`].
pub struct ItemView {
    pub source: Seq<char>,
    pub name: Seq<char>,
    pub is_async: bool,
    pub inputs: Seq<ArgView>,
    pub output: Option<Seq<char>>,
    pub block: Seq<char>,
}

/// The character sequences that a list of strings holds, in order.
pub open spec fn texts(items: Seq<String>) -> Seq<Seq<char>> {
    Seq::new(items.len(), |i: int| items[i]@)
}

impl View for TypeShape {
    type V = ShapeView;

    open spec fn view(&self) -> ShapeView {
        match *self {
            TypeShape::Path(segments) => ShapeView::Path(texts(segments@)),
            TypeShape::Other => ShapeView::Other,
        }
    }
}

impl View for TypedParam {
    type V = ParamView;

    open spec fn view(&self) -> ParamView {
        ParamView { pat: self.pat@, ty: self.ty@, shape: self.shape@ }
    }
}

impl View for FnArg {
    type V = ArgView;

    open spec fn view(&self) -> ArgView {
        match *self {
            FnArg::Receiver => ArgView::Receiver,
            FnArg::Typed(param) => ArgView::Typed(param@),
        }
    }
}

/// The values of a list of parameters, in order.
pub open spec fn arg_views(inputs: Seq<FnArg>) -> Seq<ArgView> {
    Seq::new(inputs.len(), |i: int| inputs[i]@)
}

impl View for FnItem {
    type V = ItemView;

    open spec fn view(&self) -> ItemView {
        ItemView {
            source: self.source@,
            name: self.name@,
            is_async: self.is_async,
            inputs: arg_views(self.inputs@),
            output: match self.output {
                Some(ty) => Some(ty@),
                None => None,
            },
            block: self.block@,
        }
    }
}

} // verus!
