//! Selecting the path of the runtime crate from `crate = path` arguments.

use vstd::prelude::*;
use crate::syntax::{MetaItem, MetaForm, MetaValue, meta_is, meta_named};
use crate::error::{ErrorKind, MacroError, Target, refuse};

verus! {

/// Where the generated code finds the runtime crate.
#[derive(Debug, PartialEq, Eq, Clone, Copy)]
pub enum CrateRef {
    /// `::queries_rusqlite`.
    Default,
    /// The path given by the `k`-th argument, `crate = path`.
    Argument(usize),
}

/// The argument has the form `crate = ...`.
pub open spec fn names_crate(m: MetaItem) -> bool {
    meta_is(m, "crate"@) && m.form is NameValue
}

/// The argument has the form `crate = path`, the path without a qualified self type.
pub open spec fn gives_crate_path(m: MetaItem) -> bool {
    meta_is(m, "crate"@) && m.form == MetaForm::NameValue(MetaValue::Path { qualified: false })
}

/// The crate selected by a list of arguments: none selects the default, a
/// single `crate = path` selects that path; anything else is refused at
/// the first argument that breaks the rule.
pub open spec fn crate_choice(args: Seq<MetaItem>) -> Result<CrateRef, MacroError> {
    if args.len() == 0 {
        Ok(CrateRef::Default)
    } else if !names_crate(args[0]) {
        Err(refuse(ErrorKind::ExpectedSingleCrateArgument, Target::Argument(0)))
    } else if !gives_crate_path(args[0]) {
        Err(refuse(ErrorKind::ExpectedCratePath, Target::Argument(0)))
    } else if args.len() == 1 {
        Ok(CrateRef::Argument(0))
    } else {
        Err(refuse(ErrorKind::ExpectedSingleCrateArgument, Target::Argument(1)))
    }
}

/// Reads the `crate = path` argument list of `#[queries(...)]` or
/// `#[from_row(...)]`.
pub fn crate_path(args: &Vec<MetaItem>) -> (r: Result<CrateRef, MacroError>)
    ensures
        r == crate_choice(args@),
{
    let mut selected: Option<usize> = None;
    let mut k: usize = 0;
    while k < args.len()
        invariant
            k <= 1,
            k <= args.len(),
            selected is None <==> k == 0,
            selected is Some ==> selected == Some(0usize) && gives_crate_path(args@[0]),
        decreases args.len() - k,
    {
        let arg = &args[k];
        let is_crate = meta_named(arg, "crate");
        if is_crate && selected.is_none() {
            if let MetaForm::NameValue(value) = &arg.form {
                if let MetaValue::Path { qualified: false } = value {
                    selected = Some(k);
                    k = k + 1;
                    continue;
                }
                return Err(MacroError { kind: ErrorKind::ExpectedCratePath, target: Target::Argument(k) });
            }
        }
        return Err(MacroError { kind: ErrorKind::ExpectedSingleCrateArgument, target: Target::Argument(k) });
    }
    match selected {
        Some(k) => Ok(CrateRef::Argument(k)),
        None => Ok(CrateRef::Default),
    }
}

} // verus!
