//! The description of a native function, as its attribute macro has read it.
//!
//! Pieces of Rust syntax (types, expressions, attributes, names) are held as the
//! tokens they are written with.

use proc_macro2::{Span, TokenStream};
use vstd::prelude::*;

verus! {

/// A parameter of the Rust function that is not passed by the Starlark caller.
pub struct SpecialParam {
    pub ident: TokenStream,
    pub ty: TokenStream,
}

/// How a Starlark caller may pass an argument.
#[derive(Clone, Copy, Debug, PartialEq, Eq, Structural)]
pub enum StarArgPassStyle {
    PosOnly,
    PosOrNamed,
    NamedOnly,
}

/// Where the generated code finds the value of an argument.
#[derive(Clone, Copy, Debug, PartialEq, Eq, Structural)]
pub enum StarArgSource {
    Unknown,
    /// The receiver of a method.
    This,
    /// The given slot of the arguments collected by the signature.
    Argument(usize),
    /// The given required positional argument.
    Required(usize),
    /// The given optional positional argument.
    Optional(usize),
}

/// How the generated code collects its arguments.
#[derive(Clone, Copy, Debug, PartialEq, Eq, Structural)]
pub enum StarFunSource {
    Unknown,
    /// The function takes the raw arguments as they are.
    Parameters,
    /// The function takes the receiver and the raw arguments.
    ThisParameters,
    /// By a signature with that many slots.
    Argument(usize),
    /// By position: the number of required and of optional arguments.
    Positional(usize, usize),
}

/// One argument of a native function.
pub struct StarArg {
    pub span: Span,
    pub attrs: Vec<TokenStream>,
    pub mutable: bool,
    /// Whether this is the receiver of a method.
    pub this: bool,
    pub pass_style: StarArgPassStyle,
    /// The name, as the Rust code writes it.
    pub name: TokenStream,
    /// The name, as a string.
    pub name_str: String,
    pub ty: TokenStream,
    pub default: Option<TokenStream>,
    pub source: StarArgSource,
    /// Whether this is the `*args` argument.
    pub is_args: bool,
    /// Whether this is the `**kwargs` argument.
    pub is_kwargs: bool,
    /// Whether the type is an `Option`.
    pub is_option: bool,
    /// Whether the type is `Value`.
    pub is_value: bool,
}

/// A native function.
pub struct StarFun {
    pub span: Span,
    /// The span of the arguments.
    pub args_span: Span,
    /// The name, as the Rust code writes it.
    pub name: TokenStream,
    /// The name, as a string.
    pub name_str: String,
    pub type_attribute: Option<TokenStream>,
    pub attrs: Vec<TokenStream>,
    pub args: Vec<StarArg>,
    /// The parameter that takes the heap, if there is one.
    pub heap: Option<SpecialParam>,
    /// The parameter that takes the evaluator, if there is one.
    pub eval: Option<SpecialParam>,
    pub return_type: TokenStream,
    /// The type that a successful call returns.
    pub return_type_arg: TokenStream,
    pub speculative_exec_safe: bool,
    pub body: TokenStream,
    pub source: StarFunSource,
    pub docstring: Option<String>,
    pub is_method: bool,
}

} // verus!
