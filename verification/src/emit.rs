//! Re-emission of the model as source text.
//!
//! Each rendering is specified as a spec-level sequence of characters and the
//! executable builders are proved to produce exactly that text.

use vstd::prelude::*;
use vstd::string::StringExecFns;

use crate::model::{FnDef, FnDefV, ImplDef, ImplDefV, ImplSrc, ImplSrcV};

verus! {

/// A list of lines (attribute lines, or verbatim items), each followed by a
/// line break.
pub open spec fn spec_render_lines(lines: Seq<Seq<char>>) -> Seq<char>
    decreases lines.len(),
{
    if lines.len() == 0 {
        Seq::empty()
    } else {
        spec_render_lines(lines.drop_last()) + lines.last() + "\n"@
    }
}

/// A visibility, followed by a space when it is not the inherited one.
pub open spec fn spec_render_vis(vis: Seq<char>) -> Seq<char> {
    if vis.len() == 0 {
        vis
    } else {
        vis + " "@
    }
}

/// A return type between spaces, or a single space for the unit default.
pub open spec fn spec_render_output(output: Seq<char>) -> Seq<char> {
    if output.len() == 0 {
        " "@
    } else {
        " "@ + output + " "@
    }
}

/// A generic parameter list, followed by a space when it is not empty.
pub open spec fn spec_render_generics(generics: Seq<char>) -> Seq<char> {
    if generics.len() == 0 {
        generics
    } else {
        generics + " "@
    }
}

/// The source text of a function definition: its attribute lines, then a
/// single `async fn` item built from its pieces.
pub open spec fn spec_render_fn(f: FnDefV) -> Seq<char> {
    spec_render_lines(f.attrs) + spec_render_vis(f.vis) + "async fn "@ + f.name + f.generics
        + "("@ + f.params + ")"@ + spec_render_output(f.output) + f.body
}

/// The function definitions of a block, each followed by a line break.
pub open spec fn spec_render_methods(methods: Seq<FnDefV>) -> Seq<char>
    decreases methods.len(),
{
    if methods.len() == 0 {
        Seq::empty()
    } else {
        spec_render_methods(methods.drop_last()) + spec_render_fn(methods.last()) + "\n"@
    }
}

/// The source text of an implementation block whose methods have been split
/// into their pieces: its attribute lines, an `impl` header, and its function
/// definitions between braces.
pub open spec fn spec_render_impl(i: ImplDefV) -> Seq<char> {
    spec_render_lines(i.attrs) + "impl "@ + spec_render_generics(i.generics) + i.ty_name
        + " {\n"@ + spec_render_methods(i.methods) + "}"@
}

/// The source text of an implementation block whose items are kept verbatim:
/// its attribute lines, an `impl` header, and each item's token text between
/// braces, unchanged and in order.
pub open spec fn spec_render_impl_src(h: ImplSrcV) -> Seq<char> {
    spec_render_lines(h.attrs) + "impl "@ + spec_render_generics(h.generics) + h.ty_name
        + " {\n"@ + spec_render_lines(h.items) + "}"@
}

/// Appends each line of `lines` to `s`, followed by a line break.
fn append_lines(s: &mut String, lines: &Vec<String>)
    ensures
        final(s)@ == old(s)@ + spec_render_lines(lines.deep_view()),
{
    let n = lines.len();
    let mut i: usize = 0;
    while i < n
        invariant
            n == lines.len(),
            i <= n,
            s@ == old(s)@ + spec_render_lines(lines.deep_view().take(i as int)),
        decreases n - i,
    {
        s.append(lines[i].as_str());
        s.append("\n");
        proof {
            let lv = lines.deep_view();
            assert(lv.take(i + 1).drop_last() =~= lv.take(i as int));
            assert(lv.take(i + 1).last() == lv[i as int]);
        }
        i = i + 1;
    }
    proof {
        assert(lines.deep_view().take(n as int) =~= lines.deep_view());
    }
}

/// Builds the source text of a function definition.
pub fn render_fn(f: &FnDef) -> (r: String)
    ensures
        r@ == spec_render_fn(f@),
{
    let mut s = String::new();
    append_lines(&mut s, &f.attrs);
    if !f.vis.as_str().is_empty() {
        s.append(f.vis.as_str());
        s.append(" ");
    }
    s.append("async fn ");
    s.append(f.name.as_str());
    s.append(f.generics.as_str());
    s.append("(");
    s.append(f.params.as_str());
    s.append(")");
    s.append(" ");
    if !f.output.as_str().is_empty() {
        s.append(f.output.as_str());
        s.append(" ");
    }
    s.append(f.body.as_str());
    proof {
        assert(s@ =~= spec_render_fn(f@));
    }
    s
}

/// Builds the source text of an implementation block from its split methods.
pub fn render_impl(i: &ImplDef) -> (r: String)
    ensures
        r@ == spec_render_impl(i@),
{
    let mut s = String::new();
    append_lines(&mut s, &i.attrs);
    s.append("impl ");
    if !i.generics.as_str().is_empty() {
        s.append(i.generics.as_str());
        s.append(" ");
    }
    s.append(i.ty_name.as_str());
    s.append(" {\n");
    let n = i.methods.len();
    let mut k: usize = 0;
    while k < n
        invariant
            n == i.methods.len(),
            k <= n,
            s@ == spec_render_lines(i@.attrs) + "impl "@ + spec_render_generics(i@.generics)
                + i@.ty_name + " {\n"@ + spec_render_methods(i@.methods.take(k as int)),
        decreases n - k,
    {
        let m = render_fn(&i.methods[k]);
        s.append(m.as_str());
        s.append("\n");
        proof {
            let mv = i@.methods;
            assert(mv.take(k + 1).drop_last() =~= mv.take(k as int));
            assert(mv.take(k + 1).last() == mv[k as int]);
            assert(s@ =~= spec_render_lines(i@.attrs) + "impl "@
                + spec_render_generics(i@.generics) + i@.ty_name + " {\n"@
                + spec_render_methods(mv.take(k + 1)));
        }
        k = k + 1;
    }
    s.append("}");
    proof {
        assert(i@.methods.take(n as int) =~= i@.methods);
        assert(s@ =~= spec_render_impl(i@));
    }
    s
}

/// Builds the source text of an implementation block with its items kept
/// verbatim.
pub fn render_impl_src(h: &ImplSrc) -> (r: String)
    ensures
        r@ == spec_render_impl_src(h@),
{
    let mut s = String::new();
    append_lines(&mut s, &h.attrs);
    s.append("impl ");
    if !h.generics.as_str().is_empty() {
        s.append(h.generics.as_str());
        s.append(" ");
    }
    s.append(h.ty_name.as_str());
    s.append(" {\n");
    append_lines(&mut s, &h.items);
    s.append("}");
    proof {
        assert(s@ =~= spec_render_impl_src(h@));
    }
    s
}

} // verus!
