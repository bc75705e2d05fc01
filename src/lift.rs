use vstd::prelude::*;
use crate::arguments::{parse_arguments, ArgToken, Arguments};
use crate::model::{
    decimal, digit_text, expand, field_types, lift, lift_all, param_name, texts, variant_error,
    variant_errors, Declaration, Error, Expansion, ExpansionView, Fields, LiftedType, Policy,
    Variant,
};

verus! {

fn copy_texts(v: &Vec<String>) -> (r: Vec<String>)
    ensures
        r@ == v@,
{
    let mut r: Vec<String> = Vec::new();
    let mut i: usize = 0;
    while i < v.len()
        invariant
            i <= v@.len(),
            r@ == v@.take(i as int),
        decreases v@.len() - i,
    {
        r.push(v[i].clone());
        assert(r@ =~= v@.take(i + 1));
        i = i + 1;
    }
    assert(v@.take(i as int) =~= v@);
    r
}

fn push_digit(s: &mut String, d: usize)
    requires
        d < 10,
    ensures
        final(s)@ == old(s)@ + digit_text(d as nat),
{
    let t = match d {
        0 => "0",
        1 => "1",
        2 => "2",
        3 => "3",
        4 => "4",
        5 => "5",
        6 => "6",
        7 => "7",
        8 => "8",
        _ => "9",
    };
    s.append(t);
}

fn push_decimal(s: &mut String, n: usize)
    ensures
        final(s)@ == old(s)@ + decimal(n as nat),
    decreases n,
{
    if n >= 10 {
        push_decimal(s, n / 10);
        push_digit(s, n % 10);
        assert(final(s)@ =~= old(s)@ + decimal(n as nat));
    } else {
        push_digit(s, n);
    }
}

/// The generic parameter synthesized for the field in slot `i`.
pub fn parameter_name(i: usize) -> (r: String)
    ensures
        r@ == param_name(i as nat),
{
    let mut r = "T".to_owned();
    push_decimal(&mut r, i);
    r
}

/// The diagnostic that the variant at index `i` draws in a kind named `kind`.
pub fn check_variant(kind: &String, v: &Variant, i: usize) -> (r: Option<Error>)
    ensures
        r == variant_error(kind@, *v, i as nat),
{
    if v.name == *kind {
        Some(Error::VariantNamedLikeKind(i))
    } else if let Fields::Named = v.fields {
        Some(Error::NamedFields(i))
    } else {
        None
    }
}

/// Lifts one valid variant: one synthesized parameter per field, bounded by
/// that field's kind, and the variant's attributes kept.
pub fn lift_variant(v: &Variant) -> (r: LiftedType)
    requires
        !(v.fields is Named),
    ensures
        r@ == lift(*v),
{
    let bounds = match &v.fields {
        Fields::Unnamed(tys) => copy_texts(tys),
        _ => Vec::new(),
    };
    let mut params: Vec<String> = Vec::new();
    let mut i: usize = 0;
    while i < bounds.len()
        invariant
            i <= bounds@.len(),
            params@.len() == i,
            forall|j: int| 0 <= j < i ==> (#[trigger] params@[j])@ == param_name(j as nat),
        decreases bounds@.len() - i,
    {
        params.push(parameter_name(i));
        i = i + 1;
    }
    let r = LiftedType { attrs: copy_texts(&v.attrs), name: v.name.clone(), params, bounds };
    assert(texts(r.params@) =~= Seq::new(texts(r.bounds@).len(), |j: int| param_name(j as nat)));
    assert(texts(r.bounds@) =~= field_types(v.fields));
    r
}

proof fn lemma_lifted_well_formed(kind: Seq<char>, vs: Seq<Variant>)
    ensures
        forall|i: int|
            0 <= i < lift_all(kind, vs).len() ==> (#[trigger] lift_all(kind, vs)[i]).params.len()
                == lift_all(kind, vs)[i].bounds.len(),
    decreases vs.len(),
{
    if vs.len() > 0 {
        lemma_lifted_well_formed(kind, vs.drop_last());
        let rest = lift_all(kind, vs.drop_last());
        assert forall|i: int| 0 <= i < lift_all(kind, vs).len() implies (#[trigger] lift_all(
            kind,
            vs,
        )[i]).params.len() == lift_all(kind, vs)[i].bounds.len() by {
            if i < rest.len() {
                assert(lift_all(kind, vs)[i] == rest[i]);
            }
        }
    }
}

proof fn lemma_errors_prefix(kind: Seq<char>, vs: Seq<Variant>, k: int)
    requires
        0 <= k <= vs.len(),
    ensures
        variant_errors(kind, vs.take(k)).len() <= variant_errors(kind, vs).len(),
        forall|j: int|
            0 <= j < variant_errors(kind, vs.take(k)).len() ==> variant_errors(kind, vs)[j]
                == variant_errors(kind, vs.take(k))[j],
    decreases vs.len(),
{
    if k == vs.len() {
        assert(vs.take(k) =~= vs);
    } else {
        assert(vs.drop_last().take(k) =~= vs.take(k));
        lemma_errors_prefix(kind, vs.drop_last(), k);
    }
}

/// Validates the declaration and lifts its variants into the scope that the
/// arguments chose.
pub fn lift_declaration(arguments: &Arguments, decl: &Declaration, policy: Policy) -> (r: Result<
    Expansion,
    Error,
>)
    ensures
        match r {
            Ok(e) => expand(arguments@, *decl, policy) == Ok::<_, Error>(e@) && e@.well_formed(),
            Err(x) => expand(arguments@, *decl, policy) == Err::<ExpansionView, _>(x),
        },
{
    if decl.generics > 0 {
        return Err(Error::GenericParameters);
    }
    let ghost kind = decl.name@;
    let ghost vs = decl.variants@;
    let mut types: Vec<LiftedType> = Vec::new();
    let mut diagnostics: Vec<Error> = Vec::new();
    let mut i: usize = 0;
    while i < decl.variants.len()
        invariant
            i <= vs.len(),
            vs == decl.variants@,
            decl.generics == 0,
            kind == decl.name@,
            types@.map_values(|t: LiftedType| t@) == lift_all(kind, vs.take(i as int)),
            diagnostics@ == variant_errors(kind, vs.take(i as int)),
            policy == Policy::FailFast ==> diagnostics@.len() == 0,
        decreases vs.len() - i,
    {
        let v = &decl.variants[i];
        assert(vs.take(i + 1).drop_last() =~= vs.take(i as int));
        assert(vs.take(i + 1).last() == vs[i as int]);
        match check_variant(&decl.name, v, i) {
            Some(e) => {
                if policy == Policy::FailFast {
                    proof {
                        lemma_errors_prefix(kind, vs, i + 1);
                        assert(variant_errors(kind, vs.take(i + 1)) == seq![e]);
                        assert(variant_errors(kind, vs)[0] == e);
                    }
                    return Err(e);
                }
                diagnostics.push(e);
            },
            None => {
                types.push(lift_variant(v));
            },
        }
        assert(types@.map_values(|t: LiftedType| t@) =~= lift_all(kind, vs.take(i + 1)));
        i = i + 1;
    }
    assert(vs.take(i as int) =~= vs);
    proof {
        lemma_lifted_well_formed(kind, vs);
    }
    let module = match &arguments.scope {
        None => {
            let mut m = "__kind_".to_owned();
            m.append(decl.name.as_str());
            m
        },
        Some(None) => decl.name.clone(),
        Some(Some(name)) => name.clone(),
    };
    Ok(
        Expansion {
            reexport: arguments.scope.is_none(),
            vis: decl.vis.clone(),
            module,
            kind: decl.name.clone(),
            attrs: copy_texts(&decl.attrs),
            where_clause: decl.where_clause.clone(),
            types,
            diagnostics,
        },
    )
}

/// The whole transformation: parses the attribute's arguments, then
/// validates and lifts the declaration.
pub fn tylift(tokens: &Vec<ArgToken>, decl: &Declaration, policy: Policy) -> (r: Result<
    Expansion,
    Error,
>)
    ensures
        match parse_arguments(tokens@) {
            Err(i) => r == Err::<Expansion, _>(Error::InvalidArguments(i as usize)),
            Ok(scope) => match r {
                Ok(e) => expand(scope, *decl, policy) == Ok::<_, Error>(e@) && e@.well_formed(),
                Err(x) => expand(scope, *decl, policy) == Err::<ExpansionView, _>(x),
            },
        },
{
    match Arguments::parse(tokens) {
        Ok(arguments) => lift_declaration(&arguments, decl, policy),
        Err(i) => Err(Error::InvalidArguments(i)),
    }
}

} // verus!
