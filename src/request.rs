use vstd::prelude::*;
use crate::error::GfError;
use crate::record::PatternRecord;
use crate::dispatch::{files_argument, files_of};

verus! {

/// What an invocation does.
#[derive(Debug, Clone, Copy, PartialEq, Eq)]
pub enum Mode {
    /// Print the saved pattern names.
    List,
    /// Save a new pattern.
    Save,
    /// Run a saved pattern, or print its command line.
    Use,
}

/// Picks the mode: listing wins over saving, and saving over use.
pub fn select_mode(list: bool, save: bool) -> (r: Mode)
    ensures
        list ==> r is List,
        !list && save ==> r is Save,
        !list && !save ==> r is Use,
{
    if list {
        Mode::List
    } else if save {
        Mode::Save
    } else {
        Mode::Use
    }
}

/// Builds the record that saving `pat` under `name` writes: the flags are
/// left out when empty, and the pattern is stored as a single one.
pub fn new_record(name: &str, flags: &str, pat: &str, engine: Option<String>) -> (r: Result<
    PatternRecord,
    GfError,
>)
    ensures
        name@.len() == 0 ==> r is Err && r->Err_0 is EmptyName,
        name@.len() > 0 && pat@.len() == 0 ==> r is Err && r->Err_0 is EmptyPattern,
        name@.len() > 0 && pat@.len() > 0 ==> r is Ok && ({
            let rec = r->Ok_0;
            &&& flags@.len() == 0 ==> rec.flags is None
            &&& flags@.len() > 0 ==> rec.flags is Some && rec.flags->0@ == flags@
            &&& rec.pattern is Some && rec.pattern->0@ == pat@
            &&& rec.patterns is None
            &&& rec.engine == engine
        }),
{
    if name.unicode_len() == 0 {
        return Err(GfError::EmptyName);
    }
    if pat.unicode_len() == 0 {
        return Err(GfError::EmptyPattern);
    }
    let flags = if flags.unicode_len() == 0 {
        None
    } else {
        Some(String::from_str(flags))
    };
    Ok(PatternRecord { flags, pattern: Some(String::from_str(pat)), patterns: None, engine })
}

/// The record to save from the command line: `name`, then the extra
/// arguments, whose first is the flags and whose second is the pattern. A
/// missing name is reported first, then a missing pattern argument, then an
/// empty name, then an empty pattern.
pub fn plan_save(name: &Option<String>, args: &Vec<String>, engine: Option<String>) -> (r: Result<
    PatternRecord,
    GfError,
>)
    ensures
        ({
            let a = args.deep_view();
            &&& name is None ==> r is Err && r->Err_0 is EmptyName
            &&& name is Some && a.len() < 2 ==> r is Err && r->Err_0 is EmptyPattern
            &&& name is Some && a.len() >= 2 && name->0@.len() == 0 ==> r is Err
                && r->Err_0 is EmptyName
            &&& name is Some && a.len() >= 2 && name->0@.len() > 0 && a[1].len() == 0 ==> r is Err
                && r->Err_0 is EmptyPattern
            &&& name is Some && a.len() >= 2 && name->0@.len() > 0 && a[1].len() > 0 ==> r is Ok
                && ({
                let rec = r->Ok_0;
                &&& a[0].len() == 0 ==> rec.flags is None
                &&& a[0].len() > 0 ==> rec.flags is Some && rec.flags->0@ == a[0]
                &&& rec.pattern is Some && rec.pattern->0@ == a[1]
                &&& rec.patterns is None
                &&& rec.engine == engine
            })
        }),
{
    let n = match name {
        Some(n) => n,
        None => {
            return Err(GfError::EmptyName);
        },
    };
    if args.len() < 2 {
        return Err(GfError::EmptyPattern);
    }
    assert(args.deep_view()[0] == args[0]@ && args.deep_view()[1] == args[1]@);
    new_record(n.as_str(), args[0].as_str(), args[1].as_str(), engine)
}

/// The pattern name and files argument for use mode; fails with
/// `NameRequired` when no name was given.
pub fn plan_use(name: &Option<String>, args: &Vec<String>) -> (r: Result<(String, String), GfError>)
    ensures
        name is None ==> r is Err && r->Err_0 is NameRequired,
        name is Some ==> r is Ok && r->Ok_0.0@ == name->0@ && r->Ok_0.1@ == files_of(
            args.deep_view(),
        ),
{
    match name {
        Some(n) => Ok((n.clone(), files_argument(args))),
        None => Err(GfError::NameRequired),
    }
}

} // verus!
