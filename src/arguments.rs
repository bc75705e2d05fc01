use vstd::prelude::*;

verus! {

/// One token of the attribute's argument list, as far as the argument
/// grammar cares: an identifier (keywords included) or anything else.
pub enum ArgToken {
    Ident(String),
    Other,
}

/// The parsed arguments of the attribute.
///
/// `scope` is `None` in the default mode, `Some(None)` for `mod` (the module
/// is named after the kind) and `Some(Some(name))` for `mod name`.
pub struct Arguments {
    pub scope: Option<Option<String>>,
}

impl View for Arguments {
    type V = Option<Option<Seq<char>>>;

    open spec fn view(&self) -> Option<Option<Seq<char>>> {
        match self.scope {
            None => None,
            Some(None) => Some(None),
            Some(Some(name)) => Some(Some(name@)),
        }
    }
}

pub open spec fn is_ident(t: ArgToken) -> bool {
    t is Ident
}

pub open spec fn ident_text(t: ArgToken) -> Seq<char> {
    match t {
        ArgToken::Ident(s) => s@,
        ArgToken::Other => Seq::empty(),
    }
}

pub open spec fn is_mod_keyword(t: ArgToken) -> bool {
    is_ident(t) && ident_text(t) == "mod"@
}

/// The argument grammar: nothing, `mod`, or `mod <ident>`. An error carries
/// the position of the first token that does not fit.
pub open spec fn parse_arguments(ts: Seq<ArgToken>) -> Result<Option<Option<Seq<char>>>, nat> {
    if ts.len() == 0 {
        Ok(None)
    } else if !is_mod_keyword(ts[0]) {
        Err(0)
    } else if ts.len() == 1 {
        Ok(Some(None))
    } else if !is_ident(ts[1]) {
        Err(1)
    } else if ts.len() == 2 {
        Ok(Some(Some(ident_text(ts[1]))))
    } else {
        Err(2)
    }
}

fn is_mod(t: &ArgToken) -> (r: bool)
    ensures
        r == is_mod_keyword(*t),
{
    match t {
        ArgToken::Ident(s) => {
            let keyword = "mod".to_owned();
            *s == keyword
        },
        ArgToken::Other => false,
    }
}

impl Arguments {
    /// Parses the attribute's argument tokens; on failure returns the index
    /// of the offending token.
    pub fn parse(tokens: &Vec<ArgToken>) -> (r: Result<Arguments, usize>)
        ensures
            match r {
                Ok(a) => parse_arguments(tokens@) == Ok::<_, nat>(a@),
                Err(i) => parse_arguments(tokens@) == Err::<Option<Option<Seq<char>>>, nat>(
                    i as nat,
                ),
            },
    {
        if tokens.len() == 0 {
            return Ok(Arguments { scope: None });
        }
        if !is_mod(&tokens[0]) {
            return Err(0);
        }
        if tokens.len() == 1 {
            return Ok(Arguments { scope: Some(None) });
        }
        let name = match &tokens[1] {
            ArgToken::Ident(s) => s.clone(),
            ArgToken::Other => {
                return Err(1);
            },
        };
        if tokens.len() > 2 {
            return Err(2);
        }
        Ok(Arguments { scope: Some(Some(name)) })
    }
}

} // verus!
