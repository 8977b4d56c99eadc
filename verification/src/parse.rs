//! Parsing of source text into the model.
//!
//! The grammar work is done by the outside parser, and the pieces it returns
//! are re-rendered as token text by the host's token printer. That printed
//! text depends on the host (inside a macro expansion the compiler's own
//! printer runs, elsewhere a portable one), so the trusted items below state
//! nothing of the text they return: everything that is proved about the
//! rewrites holds of whatever parse came back, through the verified functions
//! that take the parsed pieces as arguments.

use quote::ToTokens;
use vstd::prelude::*;

use crate::model::{FnDef, ImplRejection, ImplSrc};

verus! {

/// Relies on syn::parse_str::<syn::ItemFn>: `Some` only when the text parses
/// as a function definition, whose pieces are then re-rendered one for one as
/// token text. The printed text depends on the host's token printer, so the
/// contract states nothing of it.
#[verifier::external_body]
pub(crate) fn parse_fn_src(src: &str) -> (r: Option<FnDef>) {
    let f = syn::parse_str::<syn::ItemFn>(src).ok()?;
    Some(FnDef {
        attrs: f.attrs.iter().map(|a| a.to_token_stream().to_string()).collect(),
        vis: f.vis.to_token_stream().to_string(),
        name: f.sig.ident.to_string(),
        generics: f.sig.generics.to_token_stream().to_string(),
        params: f.sig.inputs.to_token_stream().to_string(),
        output: f.sig.output.to_token_stream().to_string(),
        body: f.block.to_token_stream().to_string(),
    })
}

/// Relies on syn::parse_str::<syn::ItemImpl> and syn::Path::get_ident: `Ok`
/// only when the text parses as an implementation block whose type is a plain
/// single-name path; its header pieces and each item's token text are then
/// re-rendered one for one. The printed text depends on the host's token
/// printer, so the contract states nothing of it; the error tells the two
/// rejections of this stage apart, and is never the one about items, which
/// only the later per-item parse can raise.
#[verifier::external_body]
pub(crate) fn parse_impl_src(src: &str) -> (r: Result<ImplSrc, ImplRejection>)
    ensures
        r matches Err(e) ==> e != ImplRejection::ItemNotAFunction,
{
    let i = syn::parse_str::<syn::ItemImpl>(src).map_err(|_| ImplRejection::NotAnImplBlock)?;
    let p = match &*i.self_ty {
        syn::Type::Path(p) => p,
        _ => return Err(ImplRejection::SelfTypeNotPlainName),
    };
    let ident = p.path.get_ident().ok_or(ImplRejection::SelfTypeNotPlainName)?;
    Ok(ImplSrc {
        attrs: i.attrs.iter().map(|a| a.to_token_stream().to_string()).collect(),
        generics: i.generics.to_token_stream().to_string(),
        ty_name: ident.to_string(),
        items: i.items.iter().map(|it| it.to_token_stream().to_string()).collect(),
    })
}

/// Parses every item text of an implementation block as a function
/// definition: `Some` only when each item parses, with one definition per
/// item, in order.
pub fn parse_fn_defs(items: &Vec<String>) -> (r: Option<Vec<FnDef>>)
    ensures
        r matches Some(ms) ==> ms@.len() == items@.len(),
        items@.len() == 0 ==> r is Some,
{
    let n = items.len();
    let mut ms: Vec<FnDef> = Vec::new();
    let mut i: usize = 0;
    while i < n
        invariant
            n == items.len(),
            i <= n,
            ms@.len() == i,
        decreases n - i,
    {
        let m = match parse_fn_src(items[i].as_str()) {
            Some(m) => m,
            None => {
                return None;
            },
        };
        ms.push(m);
        i = i + 1;
    }
    Some(ms)
}

} // verus!
