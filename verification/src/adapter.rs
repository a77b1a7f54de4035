//! The handler adapter: from an ordinary function of one argument to the
//! description of a server procedure.
//!
//! A door's server procedure has a fixed signature in the C calling
//! convention. A handler is written as `fn(A) -> R`. [`door`] checks that a
//! function has that shape and says what the server procedure is made of: it
//! reads its argument as an `A` from the request bytes under the handler's own
//! parameter name, runs the handler's body, and returns the `R` to the
//! kernel. The function is read from a syntax tree of `syn`; [`adapt`] is the
//! same check on plain values.

use vstd::prelude::*;

verus! {

/// A parsed function item.
#[verifier::external_type_specification]
#[verifier::external_body]
pub struct ExItemFn(syn::ItemFn);

/// One parameter of a function, as far as the adapter looks at it.
#[derive(Clone, Debug, PartialEq, Eq)]
pub enum Param {
    /// A receiver: `self`, `&self`, `self: Box<Self>`.
    Receiver,
    /// A name with a type: `x: u64`.
    Ident { name: String, ty: String },
    /// Any other pattern with a type: `(a, b): (u8, u8)`.
    Pattern,
}

pub enum ParamView {
    Receiver,
    Ident { name: Seq<char>, ty: Seq<char> },
    Pattern,
}

impl View for Param {
    type V = ParamView;

    open spec fn view(&self) -> ParamView {
        match self {
            Param::Receiver => ParamView::Receiver,
            Param::Ident { name, ty } => ParamView::Ident { name: name@, ty: ty@ },
            Param::Pattern => ParamView::Pattern,
        }
    }
}

/// A function, as far as the adapter looks at it.
#[derive(Clone, Debug, PartialEq, Eq)]
pub struct HandlerFn {
    /// The function's name.
    pub name: String,
    /// Its parameters, in order.
    pub inputs: Vec<Param>,
    /// Its return type, where it declares one.
    pub output: Option<String>,
    /// Its body, braces included.
    pub body: String,
}

pub struct HandlerFnView {
    pub name: Seq<char>,
    pub inputs: Seq<ParamView>,
    pub output: Option<Seq<char>>,
    pub body: Seq<char>,
}

impl View for HandlerFn {
    type V = HandlerFnView;

    open spec fn view(&self) -> HandlerFnView {
        HandlerFnView {
            name: self.name@,
            inputs: self.inputs@.map_values(|p: Param| p@),
            output: match self.output {
                Some(ty) => Some(ty@),
                None => None,
            },
            body: self.body@,
        }
    }
}

/// What a server procedure is made of. The procedure is named `name`. It
/// reads a value of type `arg_type` from the request bytes, binds it to
/// `arg`, runs `body`, and returns the result, of type `return_type`, to the
/// kernel.
#[derive(Clone, Debug, PartialEq, Eq)]
pub struct ServerProc {
    pub name: String,
    pub arg: String,
    pub arg_type: String,
    /// Empty where the handler declares no return type.
    pub return_type: String,
    pub body: String,
}

pub struct ServerProcView {
    pub name: Seq<char>,
    pub arg: Seq<char>,
    pub arg_type: Seq<char>,
    pub return_type: Seq<char>,
    pub body: Seq<char>,
}

impl View for ServerProc {
    type V = ServerProcView;

    open spec fn view(&self) -> ServerProcView {
        ServerProcView {
            name: self.name@,
            arg: self.arg@,
            arg_type: self.arg_type@,
            return_type: self.return_type@,
            body: self.body@,
        }
    }
}

/// Why a function cannot serve as a handler.
#[derive(Clone, Copy, Debug, PartialEq, Eq, Structural)]
pub enum ShapeError {
    /// It has no parameter, or more than one.
    ArgumentCount,
    /// Its parameter is a receiver.
    Receiver,
    /// Its parameter is a pattern other than a name.
    Pattern,
}

/// The part of a function's signature that a diagnostic points at.
#[derive(Clone, Copy, Debug, PartialEq, Eq, Structural)]
pub enum Site {
    /// The whole list of parameters.
    Parameters,
    /// The first parameter.
    FirstParameter,
}

impl ShapeError {
    /// The text of the diagnostic.
    pub open spec fn message_spec(self) -> Seq<char> {
        match self {
            ShapeError::ArgumentCount => "only single argument doors supported"@,
            ShapeError::Receiver => "only standalone functions supported"@,
            ShapeError::Pattern => "only identifier arguments supported"@,
        }
    }

    /// Where the diagnostic points: at the list of parameters where their
    /// number is wrong, else at the parameter.
    pub open spec fn site_spec(self) -> Site {
        match self {
            ShapeError::ArgumentCount => Site::Parameters,
            ShapeError::Receiver => Site::FirstParameter,
            ShapeError::Pattern => Site::FirstParameter,
        }
    }

    pub fn message(&self) -> (text: &'static str)
        ensures
            text@ == self.message_spec(),
    {
        match self {
            ShapeError::ArgumentCount => "only single argument doors supported",
            ShapeError::Receiver => "only standalone functions supported",
            ShapeError::Pattern => "only identifier arguments supported",
        }
    }

    pub fn site(&self) -> (site: Site)
        ensures
            site == self.site_spec(),
    {
        match self {
            ShapeError::ArgumentCount => Site::Parameters,
            _ => Site::FirstParameter,
        }
    }
}

/// The server procedure for `handler`, or the reason why there is none.
pub open spec fn adapt_spec(handler: HandlerFnView) -> Result<ServerProcView, ShapeError> {
    if handler.inputs.len() != 1 {
        Err(ShapeError::ArgumentCount)
    } else {
        match handler.inputs[0] {
            ParamView::Receiver => Err(ShapeError::Receiver),
            ParamView::Pattern => Err(ShapeError::Pattern),
            ParamView::Ident { name, ty } => Ok(
                ServerProcView {
                    name: handler.name,
                    arg: name,
                    arg_type: ty,
                    return_type: match handler.output {
                        Some(ty) => ty,
                        None => Seq::empty(),
                    },
                    body: handler.body,
                },
            ),
        }
    }
}

/// The view of an adapter's result.
pub open spec fn adapted(r: Result<ServerProc, ShapeError>) -> Result<ServerProcView, ShapeError> {
    match r {
        Ok(p) => Ok(p@),
        Err(e) => Err(e),
    }
}

/// Checks that `handler` has the shape `fn(A) -> R` and describes its server
/// procedure. A function with no parameter or with several, with a receiver,
/// or with a parameter that is not a plain name is refused.
pub fn adapt(handler: HandlerFn) -> (r: Result<ServerProc, ShapeError>)
    ensures
        adapted(r) == adapt_spec(handler@),
{
    let mut inputs = handler.inputs;
    if inputs.len() != 1 {
        return Err(ShapeError::ArgumentCount);
    }
    let first = inputs.pop();
    match first {
        Some(Param::Ident { name, ty }) => {
            let return_type = match handler.output {
                Some(ty) => ty,
                None => String::new(),
            };
            Ok(
                ServerProc {
                    name: handler.name,
                    arg: name,
                    arg_type: ty,
                    return_type,
                    body: handler.body,
                },
            )
        },
        Some(Param::Receiver) => Err(ShapeError::Receiver),
        _ => Err(ShapeError::Pattern),
    }
}

/// The name of a parsed function.
pub uninterp spec fn item_name(item: syn::ItemFn) -> Seq<char>;

/// The parameters of a parsed function, in order.
pub uninterp spec fn item_inputs(item: syn::ItemFn) -> Seq<ParamView>;

/// The return type of a parsed function, where it declares one.
pub uninterp spec fn item_output(item: syn::ItemFn) -> Option<Seq<char>>;

/// The body of a parsed function, braces included.
pub uninterp spec fn item_body(item: syn::ItemFn) -> Seq<char>;

/// What the adapter looks at in a parsed function.
pub open spec fn handler_of(item: syn::ItemFn) -> HandlerFnView {
    HandlerFnView {
        name: item_name(item),
        inputs: item_inputs(item),
        output: item_output(item),
        body: item_body(item),
    }
}

/// `Display` of the `syn::Ident` in `item.sig.ident`: the function's name as
/// it is written.
#[verifier::external_body]
fn name_of(item: &syn::ItemFn) -> (name: String)
    ensures
        name@ == item_name(*item),
{
    item.sig.ident.to_string()
}

/// `syn::punctuated::Punctuated::len` on `item.sig.inputs`: the number of
/// parameters, not counting the commas.
#[verifier::external_body]
fn input_count(item: &syn::ItemFn) -> (n: usize)
    ensures
        n == item_inputs(*item).len(),
{
    item.sig.inputs.len()
}

/// `Index<usize>` of `syn::punctuated::Punctuated` on `item.sig.inputs`, which
/// panics past the end: the parameter at `i`. A `syn::FnArg::Receiver` is a
/// receiver. A `syn::FnArg::Typed` whose pattern is a `syn::Pat::Ident` is a
/// name, given by `Display` of its `ident`, with a type, given by the tokens
/// of its `ty` as `quote::ToTokens` prints them. With any other pattern it is
/// a pattern.
#[verifier::external_body]
fn input_at(item: &syn::ItemFn, i: usize) -> (p: Param)
    requires
        i < item_inputs(*item).len(),
    ensures
        p@ == item_inputs(*item)[i as int],
{
    match &item.sig.inputs[i] {
        syn::FnArg::Receiver(_) => Param::Receiver,
        syn::FnArg::Typed(typed) => match &*typed.pat {
            syn::Pat::Ident(pat) => Param::Ident {
                name: pat.ident.to_string(),
                ty: quote::ToTokens::to_token_stream(&typed.ty).to_string(),
            },
            _ => Param::Pattern,
        },
    }
}

/// The variants of the `syn::ReturnType` in `item.sig.output`: none for
/// `Default`, and for `Type` the tokens of the type as `quote::ToTokens`
/// prints them.
#[verifier::external_body]
fn output_of(item: &syn::ItemFn) -> (ty: Option<String>)
    ensures
        item_output(*item) == match ty {
            Some(t) => Some(t@),
            None => None,
        },
{
    match &item.sig.output {
        syn::ReturnType::Default => None,
        syn::ReturnType::Type(_, ty) => Some(quote::ToTokens::to_token_stream(ty).to_string()),
    }
}

/// `quote::ToTokens::to_token_stream` on `item.block`: the tokens of the
/// body, braces included, as they print.
#[verifier::external_body]
fn body_of(item: &syn::ItemFn) -> (body: String)
    ensures
        body@ == item_body(*item),
{
    quote::ToTokens::to_token_stream(&item.block).to_string()
}

/// Reads from a parsed function what the adapter looks at.
pub fn read_handler(item: &syn::ItemFn) -> (handler: HandlerFn)
    ensures
        handler@ == handler_of(*item),
{
    let n = input_count(item);
    let mut inputs: Vec<Param> = Vec::new();
    let mut i: usize = 0;
    while i < n
        invariant
            n == item_inputs(*item).len(),
            i <= n,
            inputs@.len() == i,
            forall|j: int| 0 <= j < i ==> (#[trigger] inputs@[j])@ == item_inputs(*item)[j],
        decreases n - i,
    {
        inputs.push(input_at(item, i));
        i += 1;
    }
    assert(inputs@.map_values(|p: Param| p@) =~= item_inputs(*item));
    HandlerFn { name: name_of(item), inputs, output: output_of(item), body: body_of(item) }
}

/// Turns the function `item` into the description of a door's server
/// procedure, or says why it cannot serve as a handler.
pub fn door(item: &syn::ItemFn) -> (r: Result<ServerProc, ShapeError>)
    ensures
        adapted(r) == adapt_spec(handler_of(*item)),
{
    adapt(read_handler(item))
}

/// A function is accepted as a handler exactly when it has one parameter and
/// that parameter is a name with a type. A function with no parameter or
/// with several, one whose parameter is a receiver, and one whose parameter
/// is another pattern are each refused, with a diagnostic of their own.
pub proof fn shape_rejection(handler: HandlerFnView)
    ensures
        adapt_spec(handler) is Ok <==> handler.inputs.len() == 1 && handler.inputs[0] is Ident,
        handler.inputs.len() != 1 ==> adapt_spec(handler) == Err::<ServerProcView, _>(
            ShapeError::ArgumentCount,
        ),
        handler.inputs.len() == 1 && handler.inputs[0] is Receiver ==> adapt_spec(handler)
            == Err::<ServerProcView, _>(ShapeError::Receiver),
        handler.inputs.len() == 1 && handler.inputs[0] is Pattern ==> adapt_spec(handler)
            == Err::<ServerProcView, _>(ShapeError::Pattern),
        ShapeError::ArgumentCount.message_spec() == "only single argument doors supported"@,
        ShapeError::Receiver.message_spec() == "only standalone functions supported"@,
        ShapeError::Pattern.message_spec() == "only identifier arguments supported"@,
{
}

/// The server procedure of an accepted handler keeps the handler's name, its
/// parameter's name and type, its return type and its body.
pub proof fn accepted_handler(handler: HandlerFnView)
    requires
        handler.inputs.len() == 1,
        handler.inputs[0] is Ident,
    ensures
        adapt_spec(handler) matches Ok(p) && p.name == handler.name && p.arg
            == handler.inputs[0]->name && p.arg_type == handler.inputs[0]->ty && p.body
            == handler.body && match handler.output {
            Some(ty) => p.return_type == ty,
            None => p.return_type.len() == 0,
        },
{
}

} // verus!
