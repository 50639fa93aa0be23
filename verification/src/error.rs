//! The reasons for which an expansion is refused.

use vstd::prelude::*;
use vstd::string::StringExecFns;

verus! {

/// Why an expansion was refused. Each refusal ends the expansion and becomes
/// one diagnostic.
#[derive(Clone, Debug, PartialEq, Eq)]
pub enum ExpandError {
    /// The annotated item implements no trait.
    NotTraitImpl,
    /// The annotated item is a negative implementation.
    NegativeImpl,
    /// The trait path has no segment.
    EmptyTraitPath,
    /// The trait's last segment has a number of generic arguments other than one.
    ArgumentCount,
    /// The trait's one generic argument is not a type.
    NotType,
    /// The trait's last segment has arguments of another shape than `<..>`.
    UnexpectedArguments,
    /// The trait's name is outside the catalog; holds the name.
    UnexpectedIdent(String),
    /// A compound-assignment implementation on a reference was asked for.
    AssignLhsReference,
}

/// The mathematical value of an [`ExpandError`].
pub enum Fault {
    NotTraitImpl,
    NegativeImpl,
    EmptyTraitPath,
    ArgumentCount,
    NotType,
    UnexpectedArguments,
    UnexpectedIdent(Seq<char>),
    AssignLhsReference,
}

impl Fault {
    /// The text of the diagnostic for this refusal.
    pub open spec fn message(self) -> Seq<char> {
        match self {
            Fault::NotTraitImpl => "Is not Trait impl"@,
            Fault::NegativeImpl => "Unexpected negative impl"@,
            Fault::EmptyTraitPath => "Unexpected empty trait path"@,
            Fault::ArgumentCount => "Number of trait arguments is not 1"@,
            Fault::NotType => "Is not type"@,
            Fault::UnexpectedArguments => "Unexpected trait arguments"@,
            Fault::UnexpectedIdent(name) => "unexpacted Ident: "@ + name,
            Fault::AssignLhsReference => "Type of LHS of assign operations must not reference"@,
        }
    }
}

impl View for ExpandError {
    type V = Fault;

    open spec fn view(&self) -> Fault {
        match self {
            ExpandError::NotTraitImpl => Fault::NotTraitImpl,
            ExpandError::NegativeImpl => Fault::NegativeImpl,
            ExpandError::EmptyTraitPath => Fault::EmptyTraitPath,
            ExpandError::ArgumentCount => Fault::ArgumentCount,
            ExpandError::NotType => Fault::NotType,
            ExpandError::UnexpectedArguments => Fault::UnexpectedArguments,
            ExpandError::UnexpectedIdent(name) => Fault::UnexpectedIdent(name@),
            ExpandError::AssignLhsReference => Fault::AssignLhsReference,
        }
    }
}

impl ExpandError {
    /// The text of the diagnostic for this refusal.
    pub fn message(&self) -> (r: String)
        ensures
            r@ == self@.message(),
    {
        match self {
            ExpandError::NotTraitImpl => String::from_str("Is not Trait impl"),
            ExpandError::NegativeImpl => String::from_str("Unexpected negative impl"),
            ExpandError::EmptyTraitPath => String::from_str("Unexpected empty trait path"),
            ExpandError::ArgumentCount => String::from_str("Number of trait arguments is not 1"),
            ExpandError::NotType => String::from_str("Is not type"),
            ExpandError::UnexpectedArguments => String::from_str("Unexpected trait arguments"),
            ExpandError::UnexpectedIdent(name) => String::from_str("unexpacted Ident: ").concat(
                name.as_str(),
            ),
            ExpandError::AssignLhsReference => String::from_str(
                "Type of LHS of assign operations must not reference",
            ),
        }
    }
}

/// The place in an implementation that a refusal points at.
#[derive(Clone, Copy, Debug, PartialEq, Eq, Hash, Structural)]
pub enum Site {
    /// The implementation as a whole.
    Item,
    /// The `!` before the trait.
    Negation,
    /// The segments of the trait path.
    Path,
    /// The arguments of the trait path's last segment.
    Arguments,
    /// The name of the trait path's last segment.
    Ident,
    /// No place in the implementation: where the macro is invoked.
    CallSite,
}

impl Fault {
    /// The place that the refusal points at: the most specific one that
    /// shows what is refused.
    pub open spec fn site(self) -> Site {
        match self {
            Fault::NotTraitImpl => Site::Item,
            Fault::NegativeImpl => Site::Negation,
            Fault::EmptyTraitPath => Site::Path,
            Fault::ArgumentCount => Site::Arguments,
            Fault::NotType => Site::Arguments,
            Fault::UnexpectedArguments => Site::Arguments,
            Fault::UnexpectedIdent(_) => Site::Ident,
            Fault::AssignLhsReference => Site::CallSite,
        }
    }
}

impl ExpandError {
    /// The place that the refusal points at.
    pub fn site(&self) -> (r: Site)
        ensures
            r == self@.site(),
    {
        match self {
            ExpandError::NotTraitImpl => Site::Item,
            ExpandError::NegativeImpl => Site::Negation,
            ExpandError::EmptyTraitPath => Site::Path,
            ExpandError::ArgumentCount => Site::Arguments,
            ExpandError::NotType => Site::Arguments,
            ExpandError::UnexpectedArguments => Site::Arguments,
            ExpandError::UnexpectedIdent(_) => Site::Ident,
            ExpandError::AssignLhsReference => Site::CallSite,
        }
    }
}

} // verus!
