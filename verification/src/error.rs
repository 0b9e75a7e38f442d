//! Diagnostics: every failed transformation surfaces exactly one diagnostic
//! tied to the offending input span.

use vstd::prelude::*;

verus! {

/// The kind of failure detected during a transformation.
#[derive(Clone, Copy, Debug, PartialEq, Eq, Structural)]
pub enum ErrorKind {
    /// The source interface has type or const generic parameters.
    GenericInterface,
    /// An interface item is an associated constant, associated type, or an
    /// unrecognized item kind.
    UnsupportedItemKind,
    /// An interface item is an unexpanded macro invocation.
    MacroItemUnsupported,
    /// A method has no by-reference receiver (free-function-style item or
    /// by-value receiver).
    MissingReceiver,
    /// A method is declared asynchronous.
    AsyncUnsupported,
    /// A method has non-lifetime generic parameters or a `where`-clause.
    GenericsUnsupported,
    /// A configuration key is not recognized.
    UnknownOption,
    /// A configuration value has the wrong shape for its key.
    MalformedValue,
    /// The table type name was customized while the interface is declared a
    /// possible super-interface; accessor-name derivation assumes the
    /// default naming convention.
    CustomVtableNameUnsupported,
    /// Extension configuration was used without the experimental capability.
    InheritanceNotEnabled,
    /// A decoration attached to the handle type would change its duplication
    /// semantics or its layout transparency.
    ForbiddenDecoration,
}

/// A single diagnostic: the failure kind and the input span it points at.
#[derive(Clone, Copy, Debug, PartialEq, Eq, Structural)]
pub struct Diagnostic {
    /// What went wrong.
    pub kind: ErrorKind,
    /// Identifier of the offending input span.
    pub span: usize,
}

impl Diagnostic {
    /// Builds a diagnostic of the given kind at the given span.
    pub fn new(kind: ErrorKind, span: usize) -> (r: Diagnostic)
        ensures
            r.kind == kind,
            r.span == span,
    {
        Diagnostic { kind, span }
    }
}

} // verus!
