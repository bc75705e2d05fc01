use vstd::prelude::*;

verus! {

/// The fields of a variant, as written in the declaration.
pub enum Fields {
    /// No field list at all (`Zero`).
    Unit,
    /// Positional fields; each entry is the token text of the field's type,
    /// which names the kind that bounds that slot.
    Unnamed(Vec<String>),
    /// Named fields (`Point { x: Nat }`); their contents do not matter.
    Named,
}

/// One variant of the sum-type declaration.
pub struct Variant {
    /// Token text of each attribute on the variant, in order.
    pub attrs: Vec<String>,
    pub name: String,
    pub fields: Fields,
}

/// The sum-type declaration that is lifted to a kind.
pub struct Declaration {
    /// Token text of each attribute on the declaration, in order.
    pub attrs: Vec<String>,
    /// Token text of the visibility; empty when the item is private.
    pub vis: String,
    pub name: String,
    /// The number of generic parameters that the declaration has.
    pub generics: usize,
    /// Token text of the where-clause; empty when there is none.
    pub where_clause: String,
    pub variants: Vec<Variant>,
}

/// How malformed variants are reported.
#[derive(Clone, Copy, PartialEq, Eq, Structural)]
pub enum Policy {
    /// The first malformed variant aborts the whole expansion.
    FailFast,
    /// A malformed variant is reported and left out; its siblings are lifted.
    Collect,
}

/// A diagnostic. Indices count tokens of the argument list, or variants of
/// the declaration, from zero.
#[derive(Clone, Copy, PartialEq, Eq, Structural)]
pub enum Error {
    /// The argument list is not empty, `mod`, or `mod <name>`.
    InvalidArguments(usize),
    /// The declaration has generic parameters.
    GenericParameters,
    /// The variant has the name of the kind itself.
    VariantNamedLikeKind(usize),
    /// The variant has named fields.
    NamedFields(usize),
}

/// The message that reports a diagnostic.
pub open spec fn message_text(e: Error) -> Seq<char> {
    match e {
        Error::InvalidArguments(_) => "invalid arguments"@,
        Error::GenericParameters => "type parameters cannot be lifted to the kind-level"@,
        Error::VariantNamedLikeKind(_) => "name of variant matches name of enum"@,
        Error::NamedFields(_) => "variant must not have named fields"@,
    }
}

impl Error {
    pub fn message(&self) -> (r: String)
        ensures
            r@ == message_text(*self),
    {
        match self {
            Error::InvalidArguments(_) => "invalid arguments".to_owned(),
            Error::GenericParameters => "type parameters cannot be lifted to the kind-level".to_owned(),
            Error::VariantNamedLikeKind(_) => "name of variant matches name of enum".to_owned(),
            Error::NamedFields(_) => "variant must not have named fields".to_owned(),
        }
    }
}

/// The standalone type that a valid variant becomes.
pub struct LiftedType {
    pub attrs: Vec<String>,
    pub name: String,
    /// The synthesized generic parameters, one per field.
    pub params: Vec<String>,
    /// The kind bounding each parameter: the field types, verbatim.
    pub bounds: Vec<String>,
}

/// Everything the transformation emits for one declaration.
pub struct Expansion {
    /// Whether the generated items are re-exported into the enclosing scope.
    pub reexport: bool,
    pub vis: String,
    /// The module that holds the generated items.
    pub module: String,
    /// The kind, that is the name of the generated trait.
    pub kind: String,
    /// The attributes carried over onto the trait.
    pub attrs: Vec<String>,
    pub where_clause: String,
    /// The lifted types, in the order of their variants.
    pub types: Vec<LiftedType>,
    /// Malformed variants that were reported and left out.
    pub diagnostics: Vec<Error>,
}

pub struct LiftedTypeView {
    pub attrs: Seq<Seq<char>>,
    pub name: Seq<char>,
    pub params: Seq<Seq<char>>,
    pub bounds: Seq<Seq<char>>,
}

pub struct ExpansionView {
    pub reexport: bool,
    pub vis: Seq<char>,
    pub module: Seq<char>,
    pub kind: Seq<char>,
    pub attrs: Seq<Seq<char>>,
    pub where_clause: Seq<char>,
    pub types: Seq<LiftedTypeView>,
    pub diagnostics: Seq<Error>,
}

/// The characters of each string.
pub open spec fn texts(v: Seq<String>) -> Seq<Seq<char>> {
    v.map_values(|s: String| s@)
}

impl View for LiftedType {
    type V = LiftedTypeView;

    open spec fn view(&self) -> LiftedTypeView {
        LiftedTypeView {
            attrs: texts(self.attrs@),
            name: self.name@,
            params: texts(self.params@),
            bounds: texts(self.bounds@),
        }
    }
}

impl View for Expansion {
    type V = ExpansionView;

    open spec fn view(&self) -> ExpansionView {
        ExpansionView {
            reexport: self.reexport,
            vis: self.vis@,
            module: self.module@,
            kind: self.kind@,
            attrs: texts(self.attrs@),
            where_clause: self.where_clause@,
            types: self.types@.map_values(|t: LiftedType| t@),
            diagnostics: self.diagnostics@,
        }
    }
}

/// The field types of a variant; none unless its fields are positional.
pub open spec fn field_types(f: Fields) -> Seq<Seq<char>> {
    match f {
        Fields::Unnamed(tys) => texts(tys@),
        _ => Seq::empty(),
    }
}

/// The text of a decimal digit.
pub open spec fn digit_text(d: nat) -> Seq<char> {
    if d == 0 {
        "0"@
    } else if d == 1 {
        "1"@
    } else if d == 2 {
        "2"@
    } else if d == 3 {
        "3"@
    } else if d == 4 {
        "4"@
    } else if d == 5 {
        "5"@
    } else if d == 6 {
        "6"@
    } else if d == 7 {
        "7"@
    } else if d == 8 {
        "8"@
    } else {
        "9"@
    }
}

/// The decimal notation of `n`, without leading zeros.
pub open spec fn decimal(n: nat) -> Seq<char>
    decreases n,
{
    if n < 10 {
        digit_text(n)
    } else {
        decimal(n / 10) + digit_text(n % 10)
    }
}

/// The generic parameter synthesized for the field in slot `i`: `T0`, `T1`, ...
pub open spec fn param_name(i: nat) -> Seq<char> {
    "T"@ + decimal(i)
}

/// The diagnostic that the variant at index `i` of kind `kind` draws, if any.
pub open spec fn variant_error(kind: Seq<char>, v: Variant, i: nat) -> Option<Error> {
    if v.name@ == kind {
        Some(Error::VariantNamedLikeKind(i as usize))
    } else if v.fields is Named {
        Some(Error::NamedFields(i as usize))
    } else {
        None
    }
}

pub open spec fn is_liftable(kind: Seq<char>, v: Variant) -> bool {
    v.name@ != kind && !(v.fields is Named)
}

/// The type that a valid variant lifts to.
pub open spec fn lift(v: Variant) -> LiftedTypeView {
    let bounds = field_types(v.fields);
    LiftedTypeView {
        attrs: texts(v.attrs@),
        name: v.name@,
        params: Seq::new(bounds.len(), |i: int| param_name(i as nat)),
        bounds,
    }
}

/// The lifted types of the valid variants among `vs`, in order.
pub open spec fn lift_all(kind: Seq<char>, vs: Seq<Variant>) -> Seq<LiftedTypeView>
    decreases vs.len(),
{
    if vs.len() == 0 {
        Seq::empty()
    } else {
        let rest = lift_all(kind, vs.drop_last());
        if is_liftable(kind, vs.last()) {
            rest.push(lift(vs.last()))
        } else {
            rest
        }
    }
}

/// The diagnostics of the malformed variants among `vs`, in order.
pub open spec fn variant_errors(kind: Seq<char>, vs: Seq<Variant>) -> Seq<Error>
    decreases vs.len(),
{
    if vs.len() == 0 {
        Seq::empty()
    } else {
        let rest = variant_errors(kind, vs.drop_last());
        match variant_error(kind, vs.last(), (vs.len() - 1) as nat) {
            Some(e) => rest.push(e),
            None => rest,
        }
    }
}

/// The module that holds the generated items: synthesized from the kind in
/// the default mode, the kind itself for `mod`, the given name for `mod <name>`.
pub open spec fn module_name(scope: Option<Option<Seq<char>>>, kind: Seq<char>) -> Seq<char> {
    match scope {
        None => "__kind_"@ + kind,
        Some(None) => kind,
        Some(Some(name)) => name,
    }
}

/// What the transformation yields for a declaration whose arguments parsed
/// to `scope`.
pub open spec fn expand(scope: Option<Option<Seq<char>>>, d: Declaration, policy: Policy) -> Result<
    ExpansionView,
    Error,
> {
    let kind = d.name@;
    let errors = variant_errors(kind, d.variants@);
    if d.generics > 0 {
        Err(Error::GenericParameters)
    } else if policy == Policy::FailFast && errors.len() > 0 {
        Err(errors[0])
    } else {
        Ok(
            ExpansionView {
                reexport: scope is None,
                vis: d.vis@,
                module: module_name(scope, kind),
                kind,
                attrs: texts(d.attrs@),
                where_clause: d.where_clause@,
                types: lift_all(kind, d.variants@),
                diagnostics: errors,
            },
        )
    }
}

} // verus!
