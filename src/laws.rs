use vstd::prelude::*;
use crate::emit::{
    generics_decl, generics_use, kind_impl, reexport_text, rendered, sealed_item, sealed_items,
    sealed_module_text, spaced, struct_item, trait_text, type_item, type_items,
};
use crate::model::{
    decimal, digit_text, param_name, expand, is_liftable, lift, lift_all, texts, variant_errors, Declaration, Policy, Variant,
};

verus! {

/// Every lifted type is the lifting of some valid variant.
pub proof fn lemma_lifted_origin(kind: Seq<char>, vs: Seq<Variant>)
    ensures
        forall|i: int|
            #![trigger lift_all(kind, vs)[i]]
            0 <= i < lift_all(kind, vs).len() ==> exists|j: int|
                #![trigger vs[j]]
                0 <= j < vs.len() && is_liftable(kind, vs[j]) && lift_all(kind, vs)[i] == lift(
                    vs[j],
                ),
    decreases vs.len(),
{
    if vs.len() > 0 {
        let rest = vs.drop_last();
        lemma_lifted_origin(kind, rest);
        assert forall|i: int|
            #![trigger lift_all(kind, vs)[i]]
            0 <= i < lift_all(kind, vs).len() implies exists|j: int|
            #![trigger vs[j]]
            0 <= j < vs.len() && is_liftable(kind, vs[j]) && lift_all(kind, vs)[i] == lift(
                vs[j],
            ) by {
            if i < lift_all(kind, rest).len() {
                assert(lift_all(kind, vs)[i] == lift_all(kind, rest)[i]);
                let j = choose|j: int|
                    #![trigger rest[j]]
                    0 <= j < rest.len() && is_liftable(kind, rest[j]) && lift_all(kind, rest)[i]
                        == lift(rest[j]);
                assert(vs[j] == rest[j]);
            } else {
                assert(vs[vs.len() - 1] == vs.last());
            }
        }
    } else {
        assert(lift_all(kind, vs).len() == 0);
    }
}

/// The lifted types are exactly the valid variants, each lifted, in the
/// order in which they were declared; the malformed ones are simply absent.
pub proof fn lemma_lifted_in_order(kind: Seq<char>, vs: Seq<Variant>)
    ensures
        lift_all(kind, vs) == vs.filter(|v: Variant| is_liftable(kind, v)).map_values(
            |v: Variant| lift(v),
        ),
    decreases vs.len(),
{
    reveal(Seq::filter);
    if vs.len() > 0 {
        lemma_lifted_in_order(kind, vs.drop_last());
        let f = vs.drop_last().filter(|v: Variant| is_liftable(kind, v));
        assert(f.push(vs.last()).map_values(|v: Variant| lift(v)) =~= f.map_values(
            |v: Variant| lift(v),
        ).push(lift(vs.last())));
    } else {
        assert(lift_all(kind, vs) =~= vs.filter(|v: Variant| is_liftable(kind, v)).map_values(
            |v: Variant| lift(v),
        ));
    }
}

proof fn lemma_all_valid(kind: Seq<char>, vs: Seq<Variant>)
    requires
        forall|i: int| 0 <= i < vs.len() ==> is_liftable(kind, #[trigger] vs[i]),
    ensures
        lift_all(kind, vs) == vs.map_values(|v: Variant| lift(v)),
        variant_errors(kind, vs).len() == 0,
    decreases vs.len(),
{
    if vs.len() > 0 {
        assert(is_liftable(kind, vs[vs.len() - 1]));
        lemma_all_valid(kind, vs.drop_last());
        assert(lift_all(kind, vs) =~= vs.map_values(|v: Variant| lift(v)));
    } else {
        assert(lift_all(kind, vs) =~= vs.map_values(|v: Variant| lift(v)));
    }
}

proof fn lemma_none_valid(kind: Seq<char>, vs: Seq<Variant>)
    requires
        forall|i: int| 0 <= i < vs.len() ==> !is_liftable(kind, #[trigger] vs[i]),
    ensures
        lift_all(kind, vs).len() == 0,
    decreases vs.len(),
{
    if vs.len() > 0 {
        assert(!is_liftable(kind, vs[vs.len() - 1]));
        lemma_none_valid(kind, vs.drop_last());
    }
}

/// A declaration without generic parameters whose variants are all valid
/// expands, in either policy, to one lifted type per variant, in order, and
/// reports nothing.
pub proof fn lemma_one_type_per_variant(
    scope: Option<Option<Seq<char>>>,
    d: Declaration,
    policy: Policy,
)
    requires
        d.generics == 0,
        forall|i: int| 0 <= i < d.variants@.len() ==> is_liftable(d.name@, #[trigger] d.variants@[i]),
    ensures
        expand(scope, d, policy) is Ok,
        expand(scope, d, policy)->Ok_0.types.len() == d.variants@.len(),
        forall|i: int|
            0 <= i < d.variants@.len() ==> expand(scope, d, policy)->Ok_0.types[i] == lift(
                #[trigger] d.variants@[i],
            ),
        expand(scope, d, policy)->Ok_0.diagnostics.len() == 0,
{
    lemma_all_valid(d.name@, d.variants@);
}

/// No lifted type carries the kind's own name; when every variant carries
/// it, collecting diagnostics leaves a kind with no types at all.
pub proof fn lemma_variant_named_like_kind_excluded(
    scope: Option<Option<Seq<char>>>,
    d: Declaration,
    policy: Policy,
)
    ensures
        expand(scope, d, policy) is Ok ==> forall|i: int|
            0 <= i < expand(scope, d, policy)->Ok_0.types.len() ==> (#[trigger] expand(
                scope,
                d,
                policy,
            )->Ok_0.types[i]).name != d.name@,
        d.generics == 0 && policy == Policy::Collect && (forall|j: int|
            0 <= j < d.variants@.len() ==> (#[trigger] d.variants@[j]).name@ == d.name@)
            ==> expand(scope, d, policy) is Ok && expand(scope, d, policy)->Ok_0.types.len() == 0,
{
    let kind = d.name@;
    let vs = d.variants@;
    lemma_lifted_origin(kind, vs);
    if d.generics == 0 && policy == Policy::Collect && (forall|j: int|
        0 <= j < vs.len() ==> (#[trigger] vs[j]).name@ == kind) {
        assert forall|j: int| 0 <= j < vs.len() implies !is_liftable(kind, #[trigger] vs[j]) by {
            assert(vs[j].name@ == kind);
        }
        lemma_none_valid(kind, vs);
    }
}

/// Each lifted type comes from a variant whose fields are positional or
/// absent: a variant with named fields is never lifted, and when every
/// variant has named fields, collecting diagnostics leaves no types.
pub proof fn lemma_named_fields_excluded(
    scope: Option<Option<Seq<char>>>,
    d: Declaration,
    policy: Policy,
)
    ensures
        expand(scope, d, policy) is Ok ==> forall|i: int|
            0 <= i < expand(scope, d, policy)->Ok_0.types.len() ==> exists|j: int|
                0 <= j < d.variants@.len() && !(d.variants@[j].fields is Named) && #[trigger] expand(
                    scope,
                    d,
                    policy,
                )->Ok_0.types[i] == lift(d.variants@[j]),
        d.generics == 0 && policy == Policy::Collect && (forall|j: int|
            0 <= j < d.variants@.len() ==> (#[trigger] d.variants@[j]).fields is Named)
            ==> expand(scope, d, policy) is Ok && expand(scope, d, policy)->Ok_0.types.len() == 0,
{
    let kind = d.name@;
    let vs = d.variants@;
    lemma_lifted_origin(kind, vs);
    if d.generics == 0 && policy == Policy::Collect && (forall|j: int|
        0 <= j < vs.len() ==> (#[trigger] vs[j]).fields is Named) {
        assert forall|j: int| 0 <= j < vs.len() implies !is_liftable(kind, #[trigger] vs[j]) by {
            assert(vs[j].fields is Named);
        }
        lemma_none_valid(kind, vs);
    }
}

/// A variant without fields lifts to a type with no generic parameters.
pub proof fn lemma_nullary_has_no_parameters(v: Variant)
    requires
        v.fields is Unit || (v.fields is Unnamed && v.fields->Unnamed_0@.len() == 0),
    ensures
        lift(v).params.len() == 0,
        generics_decl(lift(v)) == "<>"@,
        generics_use(lift(v)) == "<>"@,
{
    assert(generics_decl(lift(v)) =~= "<"@ + ">"@);
    assert(generics_use(lift(v)) =~= "<"@ + ">"@);
    reveal_strlit("<");
    reveal_strlit(">");
    reveal_strlit("<>");
    assert("<"@ + ">"@ =~= "<>"@);
}

/// The kind's attributes go onto the trait, and each lifted type carries
/// exactly the attributes of the variant it was lifted from.
pub proof fn lemma_attributes_kept(
    scope: Option<Option<Seq<char>>>,
    d: Declaration,
    policy: Policy,
)
    ensures
        expand(scope, d, policy) is Ok ==> {
            let e = expand(scope, d, policy)->Ok_0;
            &&& e.attrs == texts(d.attrs@)
            &&& forall|i: int|
                0 <= i < e.types.len() ==> exists|j: int|
                    0 <= j < d.variants@.len() && (#[trigger] e.types[i]).name
                        == d.variants@[j].name@ && e.types[i].attrs == texts(
                        d.variants@[j].attrs@,
                    )
        },
{
    lemma_lifted_origin(d.name@, d.variants@);
}

/// With `mod <name>` everything goes into the module `name` and nothing is
/// re-exported; with `mod` the module takes the kind's name; by default the
/// module is synthesized from the kind and all its items are re-exported.
pub proof fn lemma_scope(scope: Option<Option<Seq<char>>>, d: Declaration, policy: Policy)
    ensures
        expand(scope, d, policy) is Ok ==> {
            let e = expand(scope, d, policy)->Ok_0;
            &&& scope matches Some(Some(n)) ==> e.module == n && !e.reexport && reexport_text(e)
                == Seq::<char>::empty()
            &&& scope == Some(None::<Seq<char>>) ==> e.module == d.name@ && !e.reexport
                && reexport_text(e) == Seq::<char>::empty()
            &&& scope is None ==> e.module == "__kind_"@ + d.name@ && e.reexport && reexport_text(
                e,
            ) == spaced(d.vis@) + "use "@ + e.module + "::*; "@
        },
{
}

proof fn lemma_digit_text(d: nat)
    requires
        d < 10,
    ensures
        digit_text(d).len() == 1,
        digit_text(d)[0] == (('0' as u8) + d) as char,
{
    reveal_strlit("0");
    reveal_strlit("1");
    reveal_strlit("2");
    reveal_strlit("3");
    reveal_strlit("4");
    reveal_strlit("5");
    reveal_strlit("6");
    reveal_strlit("7");
    reveal_strlit("8");
    reveal_strlit("9");
}

proof fn lemma_decimal_injective(a: nat, b: nat)
    requires
        decimal(a) == decimal(b),
    ensures
        a == b,
    decreases a,
{
    if a < 10 && b < 10 {
        lemma_digit_text(a);
        lemma_digit_text(b);
        assert(decimal(a)[0] == decimal(b)[0]);
    } else if a < 10 {
        lemma_digit_text(a);
        lemma_digit_text(b % 10);
        lemma_decimal_nonempty(b / 10);
        assert(decimal(b).len() >= 2);
    } else if b < 10 {
        lemma_digit_text(b);
        lemma_digit_text(a % 10);
        lemma_decimal_nonempty(a / 10);
        assert(decimal(a).len() >= 2);
    } else {
        lemma_digit_text(a % 10);
        lemma_digit_text(b % 10);
        let n = decimal(a).len();
        assert(decimal(a)[n - 1] == digit_text(a % 10)[0]);
        assert(decimal(b)[n - 1] == digit_text(b % 10)[0]);
        assert(decimal(a / 10) =~= decimal(a).subrange(0, n - 1));
        assert(decimal(b / 10) =~= decimal(b).subrange(0, n - 1));
        lemma_decimal_injective(a / 10, b / 10);
    }
}

proof fn lemma_decimal_nonempty(n: nat)
    ensures
        decimal(n).len() >= 1,
    decreases n,
{
    if n < 10 {
        lemma_digit_text(n);
    } else {
        lemma_decimal_nonempty(n / 10);
        lemma_digit_text(n % 10);
    }
}

/// The parameters synthesized for distinct field slots have distinct names.
pub proof fn lemma_parameter_names_distinct(i: nat, j: nat)
    requires
        i != j,
    ensures
        param_name(i) != param_name(j),
{
    if param_name(i) == param_name(j) {
        reveal_strlit("T");
        assert(decimal(i) =~= param_name(i).subrange(1, param_name(i).len() as int));
        assert(decimal(j) =~= param_name(j).subrange(1, param_name(j).len() as int));
        lemma_decimal_injective(i, j);
    }
}

/// `s` holds `t` as a contiguous run of characters.
pub open spec fn holds_text(s: Seq<char>, t: Seq<char>) -> bool {
    exists|k: int| 0 <= k && k + t.len() <= s.len() && #[trigger] s.subrange(k, k + t.len()) == t
}

proof fn lemma_holds_in_left(a: Seq<char>, b: Seq<char>, t: Seq<char>)
    requires
        holds_text(a, t),
    ensures
        holds_text(a + b, t),
{
    let k = choose|k: int| 0 <= k && k + t.len() <= a.len() && #[trigger] a.subrange(k, k + t.len()) == t;
    assert((a + b).subrange(k, k + t.len()) =~= a.subrange(k, k + t.len()));
}

proof fn lemma_holds_in_right(a: Seq<char>, b: Seq<char>, t: Seq<char>)
    requires
        holds_text(b, t),
    ensures
        holds_text(a + b, t),
{
    let k = choose|k: int| 0 <= k && k + t.len() <= b.len() && #[trigger] b.subrange(k, k + t.len()) == t;
    assert((a + b).subrange(a.len() + k, a.len() + k + t.len()) =~= b.subrange(k, k + t.len()));
}

proof fn lemma_holds_itself(t: Seq<char>)
    ensures
        holds_text(t, t),
{
    let k: int = 0;
    assert(t.subrange(k, k + t.len()) =~= t);
}

proof fn lemma_type_items_hold_kind_impl(kind: Seq<char>, ts: Seq<crate::model::LiftedTypeView>, n: nat, i: int)
    requires
        0 <= i < n,
    ensures
        holds_text(type_items(kind, ts, n), kind_impl(kind, ts[i])),
    decreases n,
{
    let prev = type_items(kind, ts, (n - 1) as nat);
    if i == n - 1 {
        lemma_holds_itself(kind_impl(kind, ts[i]));
        lemma_holds_in_right(struct_item(ts[i]), kind_impl(kind, ts[i]), kind_impl(kind, ts[i]));
        lemma_holds_in_right(prev, type_item(kind, ts[i]), kind_impl(kind, ts[i]));
    } else {
        lemma_type_items_hold_kind_impl(kind, ts, (n - 1) as nat, i);
        lemma_holds_in_left(prev, type_item(kind, ts[n - 1]), kind_impl(kind, ts[i]));
    }
}

proof fn lemma_sealed_items_hold(ts: Seq<crate::model::LiftedTypeView>, n: nat, i: int)
    requires
        0 <= i < n,
    ensures
        holds_text(sealed_items(ts, n), sealed_item(ts[i])),
    decreases n,
{
    let prev = sealed_items(ts, (n - 1) as nat);
    if i == n - 1 {
        lemma_holds_itself(sealed_item(ts[i]));
        lemma_holds_in_right(prev, sealed_item(ts[i]), sealed_item(ts[i]));
    } else {
        lemma_sealed_items_hold(ts, (n - 1) as nat, i);
        lemma_holds_in_left(prev, sealed_item(ts[n - 1]), sealed_item(ts[i]));
    }
}

/// The declaration is replaced by a re-export (default mode only) and one
/// module, which holds the kind trait, the lifted types and, last, the
/// private module `sealed` with the sealing trait and its implementations.
pub proof fn lemma_replacement_items(
    scope: Option<Option<Seq<char>>>,
    d: Declaration,
    policy: Policy,
)
    ensures
        expand(scope, d, policy) is Ok ==> {
            let e = expand(scope, d, policy)->Ok_0;
            &&& reexport_text(e) == Seq::<char>::empty() || reexport_text(e) == spaced(d.vis@)
                + "use "@ + e.module + "::*; "@
            &&& rendered(e) == reexport_text(e) + spaced(d.vis@) + "mod "@ + e.module
                + " { use super::*; "@ + trait_text(e) + type_items(e.kind, e.types, e.types.len())
                + "mod sealed { use super::*; pub trait Sealed {} "@ + sealed_items(
                e.types,
                e.types.len(),
            ) + "} }"@
        },
{
    if expand(scope, d, policy) is Ok {
        let e = expand(scope, d, policy)->Ok_0;
        assert(rendered(e) =~= reexport_text(e) + spaced(d.vis@) + "mod "@ + e.module
            + " { use super::*; "@ + trait_text(e) + type_items(e.kind, e.types, e.types.len())
            + "mod sealed { use super::*; pub trait Sealed {} "@ + sealed_items(
            e.types,
            e.types.len(),
        ) + "} }"@) by {
            reveal_strlit("} ");
            reveal_strlit("}");
            reveal_strlit("} }");
        }
    }
}

/// For a declaration without generic parameters whose variants are all
/// valid, the rendered text implements the kind for the lifted type of every
/// variant, and the private sealing module implements the sealing trait for
/// each of them; the sealing module implements it for nothing else.
pub proof fn lemma_closed_kind(scope: Option<Option<Seq<char>>>, d: Declaration, policy: Policy)
    requires
        d.generics == 0,
        forall|i: int| 0 <= i < d.variants@.len() ==> is_liftable(d.name@, #[trigger] d.variants@[i]),
    ensures
        expand(scope, d, policy) is Ok,
        forall|i: int|
            0 <= i < d.variants@.len() ==> holds_text(
                rendered(expand(scope, d, policy)->Ok_0),
                kind_impl(d.name@, lift(#[trigger] d.variants@[i])),
            ) && holds_text(
                sealed_items(expand(scope, d, policy)->Ok_0.types, d.variants@.len()),
                sealed_item(lift(d.variants@[i])),
            ),
        sealed_items(expand(scope, d, policy)->Ok_0.types, d.variants@.len()) == sealed_items(
            d.variants@.map_values(|v: Variant| lift(v)),
            d.variants@.len(),
        ),
{
    lemma_one_type_per_variant(scope, d, policy);
    lemma_all_valid(d.name@, d.variants@);
    let e = expand(scope, d, policy)->Ok_0;
    let n = d.variants@.len();
    assert(e.types == d.variants@.map_values(|v: Variant| lift(v)));
    assert forall|i: int| 0 <= i < n implies holds_text(
        rendered(e),
        kind_impl(d.name@, lift(#[trigger] d.variants@[i])),
    ) && holds_text(sealed_items(e.types, n), sealed_item(lift(d.variants@[i]))) by {
        assert(e.types[i] == lift(d.variants@[i]));
        lemma_type_items_hold_kind_impl(e.kind, e.types, n, i);
        lemma_sealed_items_hold(e.types, n, i);
        let before = reexport_text(e) + spaced(e.vis) + "mod "@ + e.module + " { use super::*; "@
            + trait_text(e);
        let items = type_items(e.kind, e.types, e.types.len());
        lemma_holds_in_right(before, items, kind_impl(d.name@, lift(d.variants@[i])));
        lemma_holds_in_left(
            before + items,
            sealed_module_text(e),
            kind_impl(d.name@, lift(d.variants@[i])),
        );
        lemma_holds_in_left(
            before + items + sealed_module_text(e),
            "}"@,
            kind_impl(d.name@, lift(d.variants@[i])),
        );
    }
}

/// A variant with named fields whose name no other variant shares gives no
/// lifted type of that name.
pub proof fn lemma_named_variant_not_declared(
    scope: Option<Option<Seq<char>>>,
    d: Declaration,
    policy: Policy,
    j: int,
)
    requires
        0 <= j < d.variants@.len(),
        d.variants@[j].fields is Named,
        forall|k: int|
            0 <= k < d.variants@.len() && k != j ==> (#[trigger] d.variants@[k]).name@
                != d.variants@[j].name@,
    ensures
        expand(scope, d, policy) is Ok ==> forall|i: int|
            0 <= i < expand(scope, d, policy)->Ok_0.types.len() ==> (#[trigger] expand(
                scope,
                d,
                policy,
            )->Ok_0.types[i]).name != d.variants@[j].name@,
{
    let vs = d.variants@;
    lemma_lifted_origin(d.name@, vs);
    if expand(scope, d, policy) is Ok {
        let e = expand(scope, d, policy)->Ok_0;
        assert forall|i: int| 0 <= i < e.types.len() implies (#[trigger] e.types[i]).name
            != vs[j].name@ by {
            assert(e.types[i] == lift_all(d.name@, vs)[i]);
            let k = choose|k: int|
                #![trigger vs[k]]
                0 <= k < vs.len() && is_liftable(d.name@, vs[k]) && lift_all(d.name@, vs)[i]
                    == lift(vs[k]);
            assert(k != j);
        }
    }
}

} // verus!
