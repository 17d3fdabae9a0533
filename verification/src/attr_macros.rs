//! The attribute macros `#[realtime]`, `#[non_realtime]` and
//! `#[rt_call_info(name, property)]` as token-stream transformations: which
//! form the item has and which marker it gets are decided here, and `syn`
//! parses the input and prints the item back with the marker appended to its
//! attributes.
use vstd::prelude::*;
use proc_macro2::TokenStream;
use quote::ToTokens;
use syn::parse::Parser;
use syn::punctuated::Punctuated;
use crate::marker::{
    call_info_doc, call_info_text, non_realtime_doc, non_realtime_tag, realtime_doc, realtime_tag,
    CallInfoTarget, ItemShape,
};

verus! {

#[verifier::external_type_specification]
#[verifier::external_body]
pub struct ExTokenStream(proc_macro2::TokenStream);

#[verifier::external_type_specification]
#[verifier::external_body]
pub struct ExSynAttribute(syn::Attribute);

/// How a statement reads: a `let`, a function item, or another statement.
#[derive(Clone, Copy, PartialEq, Eq, Debug, Structural)]
pub enum StmtForm {
    Let,
    FnItem,
    Other,
}

/// Whether `syn` parses `item` as a trait method (`syn::TraitItemFn`: a
/// signature followed by a body or by `;`).
pub uninterp spec fn spec_trait_item_fn_parses(item: TokenStream) -> bool;

/// Whether `syn` parses `item` as an impl method (`syn::ImplItemFn`).
pub uninterp spec fn spec_impl_item_fn_parses(item: TokenStream) -> bool;

/// Whether `syn` parses `item` as a free function (`syn::ItemFn`).
pub uninterp spec fn spec_item_fn_parses(item: TokenStream) -> bool;

/// How `syn` parses `item` as a statement (`syn::Stmt`): its form, or `None`.
pub uninterp spec fn spec_stmt_form(item: TokenStream) -> Option<StmtForm>;

/// How `syn` parses `item` as an item (`syn::Item`): whether it is a
/// function, or `None`.
pub uninterp spec fn spec_item_is_fn(item: TokenStream) -> Option<bool>;

/// How `syn` reads `args` as a comma-separated list of string literals: their
/// values, or the tokens of the compile error it reports.
pub uninterp spec fn spec_string_literals(args: TokenStream) -> Result<Seq<Seq<char>>, TokenStream>;

/// The text of a `#[doc = "..."]` attribute as `syn` holds it; `None` for any
/// other attribute.
pub uninterp spec fn spec_doc_value(a: syn::Attribute) -> Option<Seq<char>>;

/// `item` parsed by `syn` as a trait method and printed back with `a`
/// appended to its attributes; `None` when it does not parse so.
pub uninterp spec fn spec_with_doc_trait_item_fn(item: TokenStream, a: syn::Attribute) -> Option<
    TokenStream,
>;

/// `item` parsed by `syn` as an impl method and printed back with `a`
/// appended to its attributes; `None` when it does not parse so.
pub uninterp spec fn spec_with_doc_impl_item_fn(item: TokenStream, a: syn::Attribute) -> Option<
    TokenStream,
>;

/// `item` parsed by `syn` as a free function and printed back with `a`
/// appended to its attributes; `None` when it does not parse so.
pub uninterp spec fn spec_with_doc_item_fn(item: TokenStream, a: syn::Attribute) -> Option<
    TokenStream,
>;

/// `item` parsed by `syn` as a `let` statement and printed back with `a`
/// appended to its attributes; `None` when it does not parse so.
pub uninterp spec fn spec_with_doc_local(item: TokenStream, a: syn::Attribute) -> Option<
    TokenStream,
>;

/// `syn::parse2::<syn::TraitItemFn>`: whether `item` parses as a trait
/// method. The answer is named, not stated.
#[verifier::external_body]
fn parses_as_trait_item_fn(item: &TokenStream) -> (r: bool)
    ensures
        r == spec_trait_item_fn_parses(*item),
{
    syn::parse2::<syn::TraitItemFn>(item.clone()).is_ok()
}

/// `syn::parse2::<syn::ImplItemFn>`: whether `item` parses as an impl
/// method. The answer is named, not stated.
#[verifier::external_body]
fn parses_as_impl_item_fn(item: &TokenStream) -> (r: bool)
    ensures
        r == spec_impl_item_fn_parses(*item),
{
    syn::parse2::<syn::ImplItemFn>(item.clone()).is_ok()
}

/// `syn::parse2::<syn::ItemFn>`: whether `item` parses as a free function.
/// The answer is named, not stated.
#[verifier::external_body]
fn parses_as_item_fn(item: &TokenStream) -> (r: bool)
    ensures
        r == spec_item_fn_parses(*item),
{
    syn::parse2::<syn::ItemFn>(item.clone()).is_ok()
}

/// `syn::parse2::<syn::Stmt>` on `item`, reduced to the form of the
/// statement; `None` when it does not parse. The answer is named, not stated.
#[verifier::external_body]
fn parse_statement(item: &TokenStream) -> (r: Option<StmtForm>)
    ensures
        r == spec_stmt_form(*item),
{
    match syn::parse2::<syn::Stmt>(item.clone()) {
        Ok(syn::Stmt::Local(_)) => Some(StmtForm::Let),
        Ok(syn::Stmt::Item(syn::Item::Fn(_))) => Some(StmtForm::FnItem),
        Ok(_) => Some(StmtForm::Other),
        Err(_) => None,
    }
}

/// `syn::parse2::<syn::Item>` on `item`, reduced to whether the item is a
/// function; `None` when it does not parse. The answer is named, not stated.
#[verifier::external_body]
fn parse_item(item: &TokenStream) -> (r: Option<bool>)
    ensures
        r == spec_item_is_fn(*item),
{
    match syn::parse2::<syn::Item>(item.clone()) {
        Ok(syn::Item::Fn(_)) => Some(true),
        Ok(_) => Some(false),
        Err(_) => None,
    }
}

/// `Punctuated::<syn::LitStr, syn::token::Comma>::parse_terminated` on
/// `args`: the string values of the literals, or the tokens of the compile
/// error that `syn` reports. The answer is named, not stated.
#[verifier::external_body]
fn string_literal_args(args: &TokenStream) -> (r: Result<Vec<String>, TokenStream>)
    ensures
        match r {
            Ok(v) => spec_string_literals(*args) == Ok::<Seq<Seq<char>>, TokenStream>(
                v@.map_values(|s: String| s@),
            ),
            Err(e) => spec_string_literals(*args) == Err::<Seq<Seq<char>>, TokenStream>(e),
        },
{
    match Punctuated::<syn::LitStr, syn::token::Comma>::parse_terminated.parse2(args.clone()) {
        Ok(list) => Ok(list.iter().map(|l| l.value()).collect()),
        Err(e) => Err(e.to_compile_error()),
    }
}

/// The attribute `#[doc = doc]`, built from `syn`'s parts with call-site
/// spans: its doc text is `doc`. Its spans depend on where the macro is
/// called, so the attribute itself is not named.
#[verifier::external_body]
fn doc_attribute(doc: &str) -> (r: syn::Attribute)
    ensures
        spec_doc_value(r) == Some(doc@),
{
    let span = proc_macro2::Span::call_site();
    let lit = syn::Lit::Str(syn::LitStr::new(doc, span));
    syn::Attribute {
        pound_token: Default::default(),
        style: syn::AttrStyle::Outer,
        bracket_token: Default::default(),
        meta: syn::Meta::NameValue(syn::MetaNameValue {
            path: syn::Path::from(syn::Ident::new("doc", span)),
            eq_token: Default::default(),
            value: syn::Expr::Lit(syn::ExprLit { attrs: Vec::new(), lit }),
        }),
    }
}

/// `item` parsed as a trait method (`syn::parse2::<syn::TraitItemFn>`) and
/// printed back with `doc` appended to its attributes; `None` when it does not
/// parse. The tokens are named, not stated.
#[verifier::external_body]
fn with_doc_trait_item_fn(item: &TokenStream, doc: &syn::Attribute) -> (r: Option<TokenStream>)
    ensures
        r == spec_with_doc_trait_item_fn(*item, *doc),
{
    match syn::parse2::<syn::TraitItemFn>(item.clone()) {
        Ok(mut m) => {
            m.attrs.push(doc.clone());
            Some(m.into_token_stream())
        },
        Err(_) => None,
    }
}

/// `item` parsed as an impl method (`syn::parse2::<syn::ImplItemFn>`) and
/// printed back with `doc` appended to its attributes; `None` when it does not
/// parse. The tokens are named, not stated.
#[verifier::external_body]
fn with_doc_impl_item_fn(item: &TokenStream, doc: &syn::Attribute) -> (r: Option<TokenStream>)
    ensures
        r == spec_with_doc_impl_item_fn(*item, *doc),
{
    match syn::parse2::<syn::ImplItemFn>(item.clone()) {
        Ok(mut m) => {
            m.attrs.push(doc.clone());
            Some(m.into_token_stream())
        },
        Err(_) => None,
    }
}

/// `item` parsed as a free function (`syn::parse2::<syn::ItemFn>`) and
/// printed back with `doc` appended to its attributes; `None` when it does not
/// parse. The tokens are named, not stated.
#[verifier::external_body]
fn with_doc_item_fn(item: &TokenStream, doc: &syn::Attribute) -> (r: Option<TokenStream>)
    ensures
        r == spec_with_doc_item_fn(*item, *doc),
{
    match syn::parse2::<syn::ItemFn>(item.clone()) {
        Ok(mut f) => {
            f.attrs.push(doc.clone());
            Some(f.into_token_stream())
        },
        Err(_) => None,
    }
}

/// `item` parsed as a `let` statement (`syn::parse2::<syn::Stmt>`) and
/// printed back with `doc` appended to its attributes; `None` when it does not
/// parse as a `let`. The tokens are named, not stated.
#[verifier::external_body]
fn with_doc_local(item: &TokenStream, doc: &syn::Attribute) -> (r: Option<TokenStream>)
    ensures
        r == spec_with_doc_local(*item, *doc),
{
    match syn::parse2::<syn::Stmt>(item.clone()) {
        Ok(syn::Stmt::Local(mut local)) => {
            local.attrs.push(doc.clone());
            Some(syn::Stmt::Local(local).into_token_stream())
        },
        _ => None,
    }
}

/// The shape of an item from which of the three function forms it parses
/// as, the first one winning.
pub open spec fn shape_of(trait_fn: bool, impl_fn: bool, free_fn: bool) -> ItemShape {
    if trait_fn {
        ItemShape::TraitMethod
    } else if impl_fn {
        ItemShape::ImplMethod
    } else if free_fn {
        ItemShape::Function
    } else {
        ItemShape::Other
    }
}

/// The target of a call-info attribute from how it parses as a statement and
/// as an item: a `let` or a function is a target, whether it reads as a
/// statement or as an item; the statement reading is tried first.
pub open spec fn target_of(stmt: Option<StmtForm>, item: Option<bool>) -> CallInfoTarget {
    match stmt {
        Some(StmtForm::Let) => CallInfoTarget::LetStatement,
        Some(StmtForm::FnItem) => CallInfoTarget::FunctionItem,
        Some(StmtForm::Other) => CallInfoTarget::OtherStatement,
        None => match item {
            Some(true) => CallInfoTarget::FunctionItem,
            Some(false) => CallInfoTarget::OtherItem,
            None => CallInfoTarget::Unparsed,
        },
    }
}

/// The shape of an item from which of the three function forms it parses as.
pub fn classify_item(trait_fn: bool, impl_fn: bool, free_fn: bool) -> (r: ItemShape)
    ensures
        r == shape_of(trait_fn, impl_fn, free_fn),
{
    if trait_fn {
        ItemShape::TraitMethod
    } else if impl_fn {
        ItemShape::ImplMethod
    } else if free_fn {
        ItemShape::Function
    } else {
        ItemShape::Other
    }
}

/// The target of a call-info attribute from how it parses as a statement and
/// as an item.
pub fn classify_call_info_target(stmt: Option<StmtForm>, item: Option<bool>) -> (r: CallInfoTarget)
    ensures
        r == target_of(stmt, item),
{
    match stmt {
        Some(StmtForm::Let) => CallInfoTarget::LetStatement,
        Some(StmtForm::FnItem) => CallInfoTarget::FunctionItem,
        Some(StmtForm::Other) => CallInfoTarget::OtherStatement,
        None => match item {
            Some(true) => CallInfoTarget::FunctionItem,
            Some(false) => CallInfoTarget::OtherItem,
            None => CallInfoTarget::Unparsed,
        },
    }
}

/// The shape `syn` gives `item`: the first of the three function forms it
/// parses as.
pub open spec fn parsed_shape(item: TokenStream) -> ItemShape {
    shape_of(
        spec_trait_item_fn_parses(item),
        spec_impl_item_fn_parses(item),
        spec_item_fn_parses(item),
    )
}

/// The call-info target `syn` gives `item`.
pub open spec fn parsed_target(item: TokenStream) -> CallInfoTarget {
    target_of(spec_stmt_form(item), spec_item_is_fn(item))
}

/// `item` with `a` appended to its attributes, read in the function form
/// `shape`; `item` itself when the shape is no function form or `item` does
/// not parse in it.
pub open spec fn spliced_function(shape: ItemShape, item: TokenStream, a: syn::Attribute) -> TokenStream {
    let spliced = match shape {
        ItemShape::TraitMethod => spec_with_doc_trait_item_fn(item, a),
        ItemShape::ImplMethod => spec_with_doc_impl_item_fn(item, a),
        ItemShape::Function => spec_with_doc_item_fn(item, a),
        ItemShape::Other => None,
    };
    match spliced {
        Some(t) => t,
        None => item,
    }
}

/// `item` with `a` appended to its attributes, read as `target`; `item`
/// itself when the target is neither a `let` nor a function or `item` does
/// not parse as one.
pub open spec fn spliced_target(target: CallInfoTarget, item: TokenStream, a: syn::Attribute) -> TokenStream {
    let spliced = match target {
        CallInfoTarget::LetStatement => spec_with_doc_local(item, a),
        CallInfoTarget::FunctionItem => spec_with_doc_item_fn(item, a),
        _ => None,
    };
    match spliced {
        Some(t) => t,
        None => item,
    }
}

/// What a marker attribute makes of an item of shape `shape`: the item
/// itself when no marker goes on it; else the item with an attribute that
/// carries the marker `marker` appended, as `syn` prints it.
pub open spec fn marked_function(shape: ItemShape, item: TokenStream, marker: Seq<char>, r: TokenStream) -> bool {
    if shape == ItemShape::Other {
        r == item
    } else {
        exists|a: syn::Attribute|
            #[trigger] spec_doc_value(a) == Some(marker) && r == spliced_function(shape, item, a)
    }
}

/// The shape of an item: a trait method, an impl method or a free function,
/// tried in that order, or anything else.
pub fn item_shape(item: &TokenStream) -> (r: ItemShape)
    ensures
        r == parsed_shape(*item),
{
    if parses_as_trait_item_fn(item) {
        return classify_item(true, false, false);
    }
    if parses_as_impl_item_fn(item) {
        return classify_item(false, true, false);
    }
    let free_fn = parses_as_item_fn(item);
    classify_item(false, false, free_fn)
}

/// What a call-info attribute is attached to: how `syn` reads it as a
/// statement and, when it is none, as an item.
pub fn call_info_target(item: &TokenStream) -> (r: CallInfoTarget)
    ensures
        r == parsed_target(*item),
{
    let stmt = parse_statement(item);
    if stmt.is_some() {
        return classify_call_info_target(stmt, None);
    }
    let parsed = parse_item(item);
    classify_call_info_target(None, parsed)
}

/// `item` with `#[doc = doc]` appended to its attributes, read in the
/// function form `shape`; `item` itself when there is no doc text, when the
/// shape is no function form, or when `item` does not parse in that form.
pub fn attach_to_function(shape: ItemShape, item: TokenStream, doc: Option<String>) -> (r:
    TokenStream)
    ensures
        doc is None || shape == ItemShape::Other ==> r == item,
        shape != ItemShape::Other ==> (doc matches Some(t) ==> exists|a: syn::Attribute|
            #[trigger] spec_doc_value(a) == Some(t@) && r == spliced_function(shape, item, a)),
{
    let text = match doc {
        Some(t) => t,
        None => {
            return item;
        },
    };
    if shape == ItemShape::Other {
        return item;
    }
    let a = doc_attribute(text.as_str());
    let spliced = match shape {
        ItemShape::TraitMethod => with_doc_trait_item_fn(&item, &a),
        ItemShape::ImplMethod => with_doc_impl_item_fn(&item, &a),
        ItemShape::Function => with_doc_item_fn(&item, &a),
        ItemShape::Other => None,
    };
    let r = match spliced {
        Some(t) => t,
        None => item,
    };
    assert(spec_doc_value(a) == Some(text@) && r == spliced_function(shape, item, a));
    r
}

/// `item` with `#[doc = doc]` appended to its attributes, read as `target`;
/// `item` itself when there is no doc text, when the target is neither a
/// `let` nor a function, or when `item` does not parse as one.
pub fn attach_to_target(target: CallInfoTarget, item: TokenStream, doc: Option<String>) -> (r:
    TokenStream)
    ensures
        doc is None ==> r == item,
        doc matches Some(t) ==> exists|a: syn::Attribute|
            #[trigger] spec_doc_value(a) == Some(t@) && r == spliced_target(target, item, a),
{
    let text = match doc {
        Some(t) => t,
        None => {
            return item;
        },
    };
    let a = doc_attribute(text.as_str());
    let spliced = match target {
        CallInfoTarget::LetStatement => with_doc_local(&item, &a),
        CallInfoTarget::FunctionItem => with_doc_item_fn(&item, &a),
        _ => None,
    };
    let r = match spliced {
        Some(t) => t,
        None => item,
    };
    assert(spec_doc_value(a) == Some(text@) && r == spliced_target(target, item, a));
    r
}

/// `#[realtime]`: appends the realtime marker to the attributes of a trait
/// method, an impl method or a free function; returns anything else
/// unchanged. Its arguments play no part.
pub fn realtime(attr: TokenStream, item: TokenStream) -> (r: TokenStream)
    ensures
        marked_function(parsed_shape(item), item, realtime_tag(), r),
{
    let _ = attr;
    let shape = item_shape(&item);
    attach_to_function(shape, item, realtime_doc(shape))
}

/// `#[non_realtime]`: appends the non-realtime marker to the attributes of a
/// trait method, an impl method or a free function; returns anything else
/// unchanged. Its arguments (such as a reason, `#[non_realtime("alloc")]`)
/// play no part.
pub fn non_realtime(attr: TokenStream, item: TokenStream) -> (r: TokenStream)
    ensures
        marked_function(parsed_shape(item), item, non_realtime_tag(), r),
{
    let _ = attr;
    let shape = item_shape(&item);
    attach_to_function(shape, item, non_realtime_doc(shape))
}

/// Why `#[rt_call_info]` rejects its arguments.
pub enum CallInfoError {
    /// They are not a list of string literals: the compile error to emit.
    Malformed(TokenStream),
    /// They are string literals, but not exactly two: how many.
    WrongCount(usize),
}

/// What `#[rt_call_info]` gives for arguments that `syn` reads as `lits`: the
/// compile error when they are no list of string literals; the count when
/// there are not exactly two; else the item, with an attribute that carries
/// the call-info marker of the two values appended when it is a `let`
/// statement or a function, and unchanged otherwise.
pub open spec fn call_info_result(
    lits: Result<Seq<Seq<char>>, TokenStream>,
    item: TokenStream,
    r: Result<TokenStream, CallInfoError>,
) -> bool {
    match lits {
        Err(e) => r == Err::<TokenStream, CallInfoError>(CallInfoError::Malformed(e)),
        Ok(v) => if v.len() != 2 {
            r matches Err(CallInfoError::WrongCount(n)) && n == v.len()
        } else {
            let target = parsed_target(item);
            if target == CallInfoTarget::LetStatement || target == CallInfoTarget::FunctionItem {
                exists|a: syn::Attribute|
                    #[trigger] spec_doc_value(a) == Some(call_info_text(v[0], v[1])) && r == Ok::<
                        TokenStream,
                        CallInfoError,
                    >(spliced_target(target, item, a))
            } else {
                r == Ok::<TokenStream, CallInfoError>(item)
            }
        },
    }
}

/// `#[rt_call_info("function_name"|"closure", "realtime"|"non_realtime")]`:
/// appends the call-info marker built from its two string arguments to the
/// attributes of a `let` statement or a function item; returns anything else
/// unchanged.
pub fn rt_call_info(args: TokenStream, item: TokenStream) -> (r: Result<TokenStream, CallInfoError>)
    ensures
        call_info_result(spec_string_literals(args), item, r),
{
    let values = match string_literal_args(&args) {
        Ok(v) => v,
        Err(e) => {
            return Err(CallInfoError::Malformed(e));
        },
    };
    if values.len() != 2 {
        return Err(CallInfoError::WrongCount(values.len()));
    }
    let target = call_info_target(&item);
    let doc = call_info_doc(&values, target);
    let r = attach_to_target(target, item, doc);
    proof {
        let v = values@.map_values(|s: String| s@);
        assert(v[0] == values@[0]@ && v[1] == values@[1]@);
    }
    Ok(r)
}

} // verus!
