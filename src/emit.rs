use vstd::prelude::*;
use crate::model::{Expansion, ExpansionView, LiftedType, LiftedTypeView, texts};

verus! {

/// Each attribute followed by a space.
pub open spec fn attrs_text(attrs: Seq<Seq<char>>, n: nat) -> Seq<char>
    decreases n,
{
    if n == 0 {
        Seq::empty()
    } else {
        attrs_text(attrs, (n - 1) as nat) + attrs[n - 1] + " "@
    }
}

/// The separator written before the parameter in slot `i`: none before the first.
pub open spec fn separator(i: nat) -> Seq<char> {
    if i == 0 {
        Seq::empty()
    } else {
        ", "@
    }
}

/// The first `n` parameters with their bounds: `T0: K0, T1: K1`.
pub open spec fn params_decl(t: LiftedTypeView, n: nat) -> Seq<char>
    decreases n,
{
    if n == 0 {
        Seq::empty()
    } else {
        params_decl(t, (n - 1) as nat) + separator((n - 1) as nat) + t.params[n - 1] + ": "@
            + t.bounds[n - 1]
    }
}

/// The first `n` parameters alone: `T0, T1`.
pub open spec fn params_use(t: LiftedTypeView, n: nat) -> Seq<char>
    decreases n,
{
    if n == 0 {
        Seq::empty()
    } else {
        params_use(t, (n - 1) as nat) + separator((n - 1) as nat) + t.params[n - 1]
    }
}

/// The generic parameter list that declares the type's parameters.
pub open spec fn generics_decl(t: LiftedTypeView) -> Seq<char> {
    "<"@ + params_decl(t, t.params.len()) + ">"@
}

/// The generic argument list that applies the type to its parameters.
pub open spec fn generics_use(t: LiftedTypeView) -> Seq<char> {
    "<"@ + params_use(t, t.params.len()) + ">"@
}

/// The declaration of a lifted type: a marker over the tuple of its parameters.
pub open spec fn struct_item(t: LiftedTypeView) -> Seq<char> {
    attrs_text(t.attrs, t.attrs.len()) + "pub struct "@ + t.name + generics_decl(t)
        + "(::core::marker::PhantomData<("@ + params_use(t, t.params.len()) + ")>); "@
}

/// The implementation of the kind for a lifted type.
pub open spec fn kind_impl(kind: Seq<char>, t: LiftedTypeView) -> Seq<char> {
    "impl"@ + generics_decl(t) + " "@ + kind + " for "@ + t.name + generics_use(t) + " {} "@
}

/// The declaration of a lifted type and its implementation of the kind.
pub open spec fn type_item(kind: Seq<char>, t: LiftedTypeView) -> Seq<char> {
    struct_item(t) + kind_impl(kind, t)
}

/// The implementation of the sealing trait for a lifted type.
pub open spec fn sealed_item(t: LiftedTypeView) -> Seq<char> {
    "impl"@ + generics_decl(t) + " Sealed for "@ + t.name + generics_use(t) + " {} "@
}

pub open spec fn type_items(kind: Seq<char>, ts: Seq<LiftedTypeView>, n: nat) -> Seq<char>
    decreases n,
{
    if n == 0 {
        Seq::empty()
    } else {
        type_items(kind, ts, (n - 1) as nat) + type_item(kind, ts[n - 1])
    }
}

pub open spec fn sealed_items(ts: Seq<LiftedTypeView>, n: nat) -> Seq<char>
    decreases n,
{
    if n == 0 {
        Seq::empty()
    } else {
        sealed_items(ts, (n - 1) as nat) + sealed_item(ts[n - 1])
    }
}

/// The text followed by a space, or nothing when the text is empty (a
/// private visibility, an absent where-clause).
pub open spec fn spaced(vis: Seq<char>) -> Seq<char> {
    if vis.len() == 0 {
        Seq::empty()
    } else {
        vis + " "@
    }
}

/// The re-export of the generated module's items, in the default mode.
pub open spec fn reexport_text(e: ExpansionView) -> Seq<char> {
    if e.reexport {
        spaced(e.vis) + "use "@ + e.module + "::*; "@
    } else {
        Seq::empty()
    }
}

/// The kind trait, whose super-trait is the sealing trait.
pub open spec fn trait_text(e: ExpansionView) -> Seq<char> {
    attrs_text(e.attrs, e.attrs.len()) + "pub trait "@ + e.kind + ": sealed::Sealed "@
        + spaced(e.where_clause) + "{} "@
}

/// The private module that holds the sealing trait and its implementations.
pub open spec fn sealed_module_text(e: ExpansionView) -> Seq<char> {
    "mod sealed { use super::*; pub trait Sealed {} "@ + sealed_items(e.types, e.types.len())
        + "} "@
}

/// The source text of the whole expansion.
pub open spec fn rendered(e: ExpansionView) -> Seq<char> {
    reexport_text(e) + spaced(e.vis) + "mod "@ + e.module + " { use super::*; "@
        + trait_text(e) + type_items(e.kind, e.types, e.types.len()) + sealed_module_text(e)
        + "}"@
}

impl ExpansionView {
    /// Each lifted type has one bound per parameter.
    pub open spec fn well_formed(self) -> bool {
        forall|i: int|
            0 <= i < self.types.len() ==> (#[trigger] self.types[i]).params.len()
                == self.types[i].bounds.len()
    }
}

fn push_spaced(s: &mut String, vis: &String)
    ensures
        final(s)@ == old(s)@ + spaced(vis@),
{
    if !vis.as_str().is_empty() {
        s.append(vis.as_str());
        s.append(" ");
    }
}

fn push_attrs(s: &mut String, attrs: &Vec<String>)
    ensures
        final(s)@ == old(s)@ + attrs_text(texts(attrs@), attrs@.len()),
{
    let ghost start = s@;
    let mut i: usize = 0;
    while i < attrs.len()
        invariant
            i <= attrs@.len(),
            s@ == start + attrs_text(texts(attrs@), i as nat),
        decreases attrs@.len() - i,
    {
        s.append(attrs[i].as_str());
        s.append(" ");
        i = i + 1;
        assert(s@ =~= start + attrs_text(texts(attrs@), i as nat));
    }
}

fn push_generics_decl(s: &mut String, t: &LiftedType)
    requires
        t.params@.len() == t.bounds@.len(),
    ensures
        final(s)@ == old(s)@ + generics_decl(t@),
{
    let ghost start = s@;
    s.append("<");
    let mut i: usize = 0;
    while i < t.params.len()
        invariant
            i <= t.params@.len(),
            t.params@.len() == t.bounds@.len(),
            s@ == start + "<"@ + params_decl(t@, i as nat),
        decreases t.params@.len() - i,
    {
        if i > 0 {
            s.append(", ");
        }
        s.append(t.params[i].as_str());
        s.append(": ");
        s.append(t.bounds[i].as_str());
        i = i + 1;
        assert(s@ =~= start + "<"@ + params_decl(t@, i as nat));
    }
    s.append(">");
    assert(s@ =~= start + generics_decl(t@));
}

fn push_params_use(s: &mut String, t: &LiftedType)
    ensures
        final(s)@ == old(s)@ + params_use(t@, t@.params.len()),
{
    let ghost start = s@;
    let mut i: usize = 0;
    while i < t.params.len()
        invariant
            i <= t.params@.len(),
            s@ == start + params_use(t@, i as nat),
        decreases t.params@.len() - i,
    {
        if i > 0 {
            s.append(", ");
        }
        s.append(t.params[i].as_str());
        i = i + 1;
        assert(s@ =~= start + params_use(t@, i as nat));
    }
}

fn push_generics_use(s: &mut String, t: &LiftedType)
    ensures
        final(s)@ == old(s)@ + generics_use(t@),
{
    let ghost start = s@;
    s.append("<");
    push_params_use(s, t);
    s.append(">");
    assert(s@ =~= start + generics_use(t@));
}

fn push_struct_item(s: &mut String, t: &LiftedType)
    requires
        t.params@.len() == t.bounds@.len(),
    ensures
        final(s)@ == old(s)@ + struct_item(t@),
{
    let ghost start = s@;
    push_attrs(s, &t.attrs);
    s.append("pub struct ");
    s.append(t.name.as_str());
    push_generics_decl(s, t);
    s.append("(::core::marker::PhantomData<(");
    push_params_use(s, t);
    s.append(")>); ");
    assert(s@ =~= start + struct_item(t@));
}

fn push_kind_impl(s: &mut String, kind: &String, t: &LiftedType)
    requires
        t.params@.len() == t.bounds@.len(),
    ensures
        final(s)@ == old(s)@ + kind_impl(kind@, t@),
{
    let ghost start = s@;
    s.append("impl");
    push_generics_decl(s, t);
    s.append(" ");
    s.append(kind.as_str());
    s.append(" for ");
    s.append(t.name.as_str());
    push_generics_use(s, t);
    s.append(" {} ");
    assert(s@ =~= start + kind_impl(kind@, t@));
}

fn push_type_item(s: &mut String, kind: &String, t: &LiftedType)
    requires
        t.params@.len() == t.bounds@.len(),
    ensures
        final(s)@ == old(s)@ + type_item(kind@, t@),
{
    let ghost start = s@;
    push_struct_item(s, t);
    push_kind_impl(s, kind, t);
    assert(s@ =~= start + type_item(kind@, t@));
}

fn push_sealed_item(s: &mut String, t: &LiftedType)
    requires
        t.params@.len() == t.bounds@.len(),
    ensures
        final(s)@ == old(s)@ + sealed_item(t@),
{
    let ghost start = s@;
    s.append("impl");
    push_generics_decl(s, t);
    s.append(" Sealed for ");
    s.append(t.name.as_str());
    push_generics_use(s, t);
    s.append(" {} ");
    assert(s@ =~= start + sealed_item(t@));
}

impl Expansion {
    /// Renders the replacement declarations as source text: the re-export
    /// (default mode only), then the module with the kind trait, the lifted
    /// types and their implementations, and the private sealing module.
    pub fn render(&self) -> (r: String)
        requires
            self@.well_formed(),
        ensures
            r@ == rendered(self@),
    {
        let ghost e = self@;
        let mut s = String::new();
        if self.reexport {
            push_spaced(&mut s, &self.vis);
            s.append("use ");
            s.append(self.module.as_str());
            s.append("::*; ");
        }
        assert(s@ =~= reexport_text(e));
        let ghost head = s@;
        push_spaced(&mut s, &self.vis);
        s.append("mod ");
        s.append(self.module.as_str());
        s.append(" { use super::*; ");
        let ghost before_trait = s@;
        push_attrs(&mut s, &self.attrs);
        s.append("pub trait ");
        s.append(self.kind.as_str());
        s.append(": sealed::Sealed ");
        push_spaced(&mut s, &self.where_clause);
        s.append("{} ");
        assert(s@ =~= before_trait + trait_text(e));
        let ghost before_types = s@;
        let mut i: usize = 0;
        while i < self.types.len()
            invariant
                i <= self.types@.len(),
                e == self@,
                e.well_formed(),
                s@ == before_types + type_items(e.kind, e.types, i as nat),
            decreases self.types@.len() - i,
        {
            assert(self.types@[i as int]@ == e.types[i as int]);
            push_type_item(&mut s, &self.kind, &self.types[i]);
            i = i + 1;
            assert(s@ =~= before_types + type_items(e.kind, e.types, i as nat));
        }
        let ghost before_sealed = s@;
        s.append("mod sealed { use super::*; pub trait Sealed {} ");
        let ghost before_impls = s@;
        let mut j: usize = 0;
        while j < self.types.len()
            invariant
                j <= self.types@.len(),
                e == self@,
                e.well_formed(),
                s@ == before_impls + sealed_items(e.types, j as nat),
            decreases self.types@.len() - j,
        {
            assert(self.types@[j as int]@ == e.types[j as int]);
            push_sealed_item(&mut s, &self.types[j]);
            j = j + 1;
            assert(s@ =~= before_impls + sealed_items(e.types, j as nat));
        }
        s.append("} ");
        assert(s@ =~= before_sealed + sealed_module_text(e));
        s.append("}");
        assert(s@ =~= rendered(e));
        s
    }
}

} // verus!
