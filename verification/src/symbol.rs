//! Best-effort symbol records: what address resolution produced for one raw
//! frame. A missing name displays as `<unknown>`; a missing source location
//! is simply omitted. The two are decoupled, so a named symbol without debug
//! info still reports its name.
use vstd::prelude::*;

verus! {

/// A resolved source position: file path and 1-based line number.
pub struct SourceLocation {
    pub file: String,
    pub line: u32,
}

/// The outcome of resolving one raw frame address. Both parts are optional
/// and independent: resolution is best-effort and never fails as a whole.
pub struct SymbolRecord {
    /// Display name of the enclosing function, if one resolved.
    pub name: Option<String>,
    /// Source file and line, if debug information gave one.
    pub location: Option<SourceLocation>,
}

/// What the report prints for a record's name: the resolved name, or the
/// literal `<unknown>` when none resolved.
pub open spec fn display_name_spec(r: SymbolRecord) -> Seq<char> {
    match r.name {
        Option::Some(n) => n@,
        Option::None => "<unknown>"@,
    }
}

impl SymbolRecord {
    /// The record for an address with no symbol information at all.
    pub fn unresolved() -> (r: Self)
        ensures
            r.name is None,
            r.location is None,
    {
        SymbolRecord { name: None, location: None }
    }

    /// The name the report displays for this record.
    pub fn display_name(&self) -> (s: &str)
        ensures
            s@ == display_name_spec(*self),
    {
        match &self.name {
            Some(n) => n.as_str(),
            None => "<unknown>",
        }
    }
}

} // verus!
