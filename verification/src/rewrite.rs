//! The rewrites themselves: gating a function, deriving the blocking names,
//! cloning a function into its blocking twin, and cloning an implementation
//! block into its blocking counterpart.

use vstd::prelude::*;
use vstd::string::StringExecFns;

use crate::model::{FnDef, FnDefV, ImplDef, ImplDefV};
use crate::spec_gate_attr;
use crate::gate_attr;

verus! {

/// The name of the synchronous twin of a function: the name with `_blocking`
/// appended.
pub open spec fn spec_blocking_fn_name(name: Seq<char>) -> Seq<char> {
    name + "_blocking"@
}

/// The name of the blocking counterpart of a type: the name with `Blocking`
/// appended.
pub open spec fn spec_blocking_ty_name(name: Seq<char>) -> Seq<char> {
    name + "Blocking"@
}

/// A function definition with the sync attribute appended after its own
/// attributes; everything else is unchanged.
pub open spec fn spec_gate_fn(f: FnDefV) -> FnDefV {
    FnDefV { attrs: f.attrs.push(spec_gate_attr()), ..f }
}

/// A function definition with its own attributes dropped and the sync
/// attribute alone in their place; everything else is unchanged.
pub open spec fn spec_gate_only_fn(f: FnDefV) -> FnDefV {
    FnDefV { attrs: seq![spec_gate_attr()], ..f }
}

/// The blocking twin of a function: renamed with `_blocking` and gated.
pub open spec fn spec_blocking_twin(f: FnDefV) -> FnDefV {
    spec_gate_fn(FnDefV { name: spec_blocking_fn_name(f.name), ..f })
}

/// The blocking counterpart of an implementation block: a bare `impl` of the
/// `Blocking` type, holding each method gated. Attributes and generics of the
/// block itself are not carried over.
pub open spec fn spec_blocking_impl(i: ImplDefV) -> ImplDefV {
    ImplDefV {
        attrs: Seq::empty(),
        generics: Seq::empty(),
        ty_name: spec_blocking_ty_name(i.ty_name),
        methods: Seq::new(i.methods.len(), |k: int| spec_gate_fn(i.methods[k])),
    }
}

/// Appends `_blocking` to a function name.
pub fn blocking_fn_name(name: &str) -> (r: String)
    ensures
        r@ == spec_blocking_fn_name(name@),
{
    let mut s = name.to_owned();
    s.append("_blocking");
    s
}

/// Appends `Blocking` to a type name.
pub fn blocking_ty_name(name: &str) -> (r: String)
    ensures
        r@ == spec_blocking_ty_name(name@),
{
    let mut s = name.to_owned();
    s.append("Blocking");
    s
}

/// An equal copy of a function definition.
pub fn copy_fn_def(f: &FnDef) -> (r: FnDef)
    ensures
        r@ == f@,
{
    let n = f.attrs.len();
    let mut attrs: Vec<String> = Vec::new();
    let mut i: usize = 0;
    while i < n
        invariant
            n == f.attrs.len(),
            i <= n,
            attrs@.len() == i,
            forall|j: int| 0 <= j < i ==> attrs@[j]@ == f.attrs@[j]@,
        decreases n - i,
    {
        attrs.push(f.attrs[i].clone());
        i = i + 1;
    }
    proof {
        assert(attrs.deep_view() =~= f.attrs.deep_view());
    }
    let r = FnDef {
        attrs,
        vis: f.vis.clone(),
        name: f.name.clone(),
        generics: f.generics.clone(),
        params: f.params.clone(),
        output: f.output.clone(),
        body: f.body.clone(),
    };
    proof {
        assert(r@ =~= f@);
    }
    r
}

/// Gates a function definition: appends the sync attribute after its own
/// attributes.
pub fn gate_fn(f: FnDef) -> (r: FnDef)
    ensures
        r@ == spec_gate_fn(f@),
{
    let ghost fv = f@;
    let mut f = f;
    f.attrs.push(gate_attr());
    proof {
        assert(f.attrs.deep_view() =~= fv.attrs.push(spec_gate_attr()));
        assert(f@ =~= spec_gate_fn(fv));
    }
    f
}

/// Replaces the attributes of a function definition by the sync attribute
/// alone.
pub fn gate_only_fn(f: FnDef) -> (r: FnDef)
    ensures
        r@ == spec_gate_only_fn(f@),
{
    let ghost fv = f@;
    let mut f = f;
    let mut attrs: Vec<String> = Vec::new();
    attrs.push(gate_attr());
    f.attrs = attrs;
    proof {
        assert(f.attrs.deep_view() =~= seq![spec_gate_attr()]);
        assert(f@ =~= spec_gate_only_fn(fv));
    }
    f
}

/// The blocking twin of a function definition: renamed with `_blocking` and
/// gated.
pub fn blocking_twin(f: &FnDef) -> (r: FnDef)
    ensures
        r@ == spec_blocking_twin(f@),
{
    let mut t = copy_fn_def(f);
    t.name = blocking_fn_name(f.name.as_str());
    gate_fn(t)
}

/// The blocking counterpart of an implementation block.
pub fn blocking_impl(i: &ImplDef) -> (r: ImplDef)
    ensures
        r@ == spec_blocking_impl(i@),
{
    let n = i.methods.len();
    let mut methods: Vec<FnDef> = Vec::new();
    let mut k: usize = 0;
    while k < n
        invariant
            n == i.methods.len(),
            k <= n,
            methods@.len() == k,
            forall|j: int| 0 <= j < k ==> methods@[j]@ == spec_gate_fn(i@.methods[j]),
        decreases n - k,
    {
        methods.push(gate_fn(copy_fn_def(&i.methods[k])));
        k = k + 1;
    }
    let r = ImplDef {
        attrs: Vec::new(),
        generics: String::new(),
        ty_name: blocking_ty_name(i.ty_name.as_str()),
        methods,
    };
    proof {
        assert(r@.methods =~= spec_blocking_impl(i@).methods);
        assert(r@ =~= spec_blocking_impl(i@));
    }
    r
}

} // verus!
