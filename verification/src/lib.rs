//! Rewrites asynchronous function and impl definitions into synchronous-callable
//! equivalents, gated behind a `sync` feature flag of the crate that uses the
//! emitted code.
//!
//! The library works on a plain model of the source text: a function definition
//! is split into its attribute lines, visibility, name, generics, parameters,
//! return type and body, each held as token text. Rewrites and re-emission are
//! verified against spec-level renderings. Parsing relies on an outside parser
//! whose re-rendered token text depends on the host, so the entry points
//! promise that their output is the rendering of some parsed definition, and
//! the exact contracts stand on the rewrite and rendering functions that take
//! the parsed pieces as arguments.

use vstd::prelude::*;
use vstd::string::StringExecFns;

pub mod emit;
pub mod model;
pub mod parse;
pub mod rewrite;

use crate::emit::{
    render_fn, render_impl, render_impl_src, spec_render_fn, spec_render_impl,
    spec_render_impl_src,
};
use crate::model::{FnDef, FnDefV, ImplDef, ImplDefV, ImplRejection, ImplSrcV};
use crate::parse::{parse_fn_defs, parse_fn_src, parse_impl_src};
use crate::rewrite::{
    blocking_impl, blocking_twin, gate_fn, gate_only_fn, spec_blocking_impl, spec_blocking_twin,
    spec_gate_fn, spec_gate_only_fn,
};

verus! {

/// The attribute line that gates a rewritten function: when the `sync` feature
/// is enabled, the async function is driven to completion synchronously.
pub open spec fn spec_gate_attr() -> Seq<char> {
    "#[cfg_attr(feature = \"sync\", tokio::main)]"@
}

/// The sync attribute as an owned string.
pub fn gate_attr() -> (r: String)
    ensures
        r@ == spec_gate_attr(),
{
    let s: &str = "#[cfg_attr(feature = \"sync\", tokio::main)]";
    s.to_owned()
}

/// The text that replaces a single function definition: the same definition,
/// gated.
pub open spec fn spec_wrap_output(f: FnDefV) -> Seq<char> {
    spec_render_fn(spec_gate_fn(f))
}

/// The text that replaces a single function definition when its own
/// attributes are not carried over: the gated definition alone.
pub open spec fn spec_wrapper_output(f: FnDefV) -> Seq<char> {
    spec_render_fn(spec_gate_only_fn(f))
}

/// The text that replaces a cloned function definition: the definition
/// unchanged, then its gated blocking twin.
pub open spec fn spec_clone_output(f: FnDefV) -> Seq<char> {
    spec_render_fn(f) + "\n\n"@ + spec_render_fn(spec_blocking_twin(f))
}

/// The text that replaces a cloned implementation block: the block re-emitted
/// with its items verbatim, then its blocking counterpart built from the
/// items parsed as function definitions.
pub open spec fn spec_clone_impl_output(h: ImplSrcV, ms: Seq<FnDefV>) -> Seq<char> {
    spec_render_impl_src(h) + "\n\n"@ + spec_render_impl(
        spec_blocking_impl(
            ImplDefV { attrs: h.attrs, generics: h.generics, ty_name: h.ty_name, methods: ms },
        ),
    )
}

/// Rewrites a single function definition so that it runs to completion
/// synchronously when the `sync` feature of the emitting crate is enabled:
/// the definition is re-emitted with the sync attribute appended after its
/// own attributes. Returns `None` when the parser rejects the text.
pub fn wrap(src: &str) -> (r: Option<String>)
    ensures
        r matches Some(out) ==> exists|f: FnDefV| out@ == spec_wrap_output(f),
{
    match parse_fn_src(src) {
        Some(d) => {
            let ghost dv = d@;
            let g = gate_fn(d);
            let out = render_fn(&g);
            proof {
                assert(out@ == spec_wrap_output(dv));
            }
            Some(out)
        },
        None => None,
    }
}

/// An earlier form of `wrap` that does not carry the definition's own
/// attributes over: only the sync attribute stands on the re-emitted
/// definition. Returns `None` when the parser rejects the text.
pub fn wrapper(src: &str) -> (r: Option<String>)
    ensures
        r matches Some(out) ==> exists|f: FnDefV| out@ == spec_wrapper_output(f),
{
    match parse_fn_src(src) {
        Some(d) => {
            let ghost dv = d@;
            let g = gate_only_fn(d);
            let out = render_fn(&g);
            proof {
                assert(out@ == spec_wrapper_output(dv));
            }
            Some(out)
        },
        None => None,
    }
}

/// Clones a function definition: the definition is re-emitted unchanged,
/// followed by its blocking twin, which bears the `_blocking` name and the
/// sync attribute. Returns `None` when the parser rejects the text.
pub fn clone(src: &str) -> (r: Option<String>)
    ensures
        r matches Some(out) ==> exists|f: FnDefV| out@ == spec_clone_output(f),
{
    let d = match parse_fn_src(src) {
        Some(d) => d,
        None => return None,
    };
    let twin = blocking_twin(&d);
    let mut s = render_fn(&d);
    s.append("\n\n");
    let t = render_fn(&twin);
    s.append(t.as_str());
    proof {
        assert(s@ =~= spec_clone_output(d@));
    }
    Some(s)
}

/// Clones an implementation block: the block is re-emitted with its items
/// verbatim, followed by its blocking counterpart, whose type bears the
/// `Blocking` name and whose methods are each gated. The error says why a
/// text was rejected: not an implementation block, a type that is not a
/// plain name, or an item that is not a function definition.
pub fn clone_impl(src: &str) -> (r: Result<String, ImplRejection>)
    ensures
        r matches Ok(out) ==> exists|h: ImplSrcV, ms: Seq<FnDefV>|
            ms.len() == h.items.len() && out@ == spec_clone_impl_output(h, ms),
{
    let h = match parse_impl_src(src) {
        Ok(h) => h,
        Err(e) => return Err(e),
    };
    let ms = match parse_fn_defs(&h.items) {
        Some(ms) => ms,
        None => return Err(ImplRejection::ItemNotAFunction),
    };
    let ghost hv = h@;
    let ghost msv = ms.deep_view();
    let mut s = render_impl_src(&h);
    let i = ImplDef { attrs: h.attrs, generics: h.generics, ty_name: h.ty_name, methods: ms };
    let b = blocking_impl(&i);
    s.append("\n\n");
    let t = render_impl(&b);
    s.append(t.as_str());
    proof {
        assert(i@ =~= (ImplDefV {
            attrs: hv.attrs,
            generics: hv.generics,
            ty_name: hv.ty_name,
            methods: msv,
        }));
        assert(msv.len() == hv.items.len());
        assert(s@ =~= spec_clone_impl_output(hv, msv));
    }
    Ok(s)
}

} // verus!
