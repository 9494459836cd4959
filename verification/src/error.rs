//! The ways in which reading an entity from a token tree fails.

use crate::sexpr::{opt_view, seq_view, Sexpr, SexprKind, SexprView};
use vstd::prelude::*;
use vstd::std_specs::convert::FromSpecImpl;

verus! {

/// A string that should name a library entry, `library:name`, and does not.
#[derive(Debug, Clone, PartialEq)]
pub struct LibraryIdParseError {
    /// The string as it was found.
    pub input: String,
}

/// Why an entity could not be read. Every failure ends the reading of the
/// entity and of the document around it.
#[derive(Debug, Clone, PartialEq)]
#[allow(inconsistent_fields)]
pub enum KiCadParseError {
    /// A token was required and the list had none left.
    UnexpectedEndOfList,
    /// The next token was not of the required kind.
    UnexpectedSexprType { expected: SexprKind },
    /// A symbol was required to be `expected` and was spelled `found`.
    NonMatchingSymbol { found: String, expected: String },
    /// A symbol outside the vocabulary of the named enumeration.
    InvalidEnumValue { value: String, enum_name: &'static str },
    /// The list was required to end and `found` came next.
    ExpectedEndOfList { found: Sexpr },
    /// An identifier that is not of the form `library:name`.
    InvalidLibraryId(LibraryIdParseError),
}

impl From<LibraryIdParseError> for KiCadParseError {
    fn from(error: LibraryIdParseError) -> (r: Self) {
        KiCadParseError::InvalidLibraryId(error)
    }
}

impl FromSpecImpl<LibraryIdParseError> for KiCadParseError {
    open spec fn obeys_from_spec() -> bool {
        true
    }

    open spec fn from_spec(error: LibraryIdParseError) -> Self {
        KiCadParseError::InvalidLibraryId(error)
    }
}

/// The mathematical model of a [`KiCadParseError`].
#[allow(inconsistent_fields)]
pub enum KiCadParseErrorView {
    UnexpectedEndOfList,
    UnexpectedSexprType { expected: SexprKind },
    NonMatchingSymbol { found: Seq<char>, expected: Seq<char> },
    InvalidEnumValue { value: Seq<char>, enum_name: Seq<char> },
    ExpectedEndOfList { found: SexprView },
    InvalidLibraryId { input: Seq<char> },
}

impl View for KiCadParseError {
    type V = KiCadParseErrorView;

    open spec fn view(&self) -> KiCadParseErrorView {
        match self {
            KiCadParseError::UnexpectedEndOfList => KiCadParseErrorView::UnexpectedEndOfList,
            KiCadParseError::UnexpectedSexprType { expected } => {
                KiCadParseErrorView::UnexpectedSexprType { expected: *expected }
            },
            KiCadParseError::NonMatchingSymbol { found, expected } => {
                KiCadParseErrorView::NonMatchingSymbol { found: found@, expected: expected@ }
            },
            KiCadParseError::InvalidEnumValue { value, enum_name } => {
                KiCadParseErrorView::InvalidEnumValue { value: value@, enum_name: enum_name@ }
            },
            KiCadParseError::ExpectedEndOfList { found } => {
                KiCadParseErrorView::ExpectedEndOfList { found: found@ }
            },
            KiCadParseError::InvalidLibraryId(e) => {
                KiCadParseErrorView::InvalidLibraryId { input: e.input@ }
            },
        }
    }
}

/// The model of the outcome of reading an entity.
pub open spec fn parsed<T: View>(r: Result<T, KiCadParseError>) -> Result<
    T::V,
    KiCadParseErrorView,
> {
    match r {
        Ok(v) => Ok(v@),
        Err(e) => Err(e@),
    }
}

/// The model of the outcome of reading an optional value.
pub open spec fn parsed_opt<T: View>(r: Result<Option<T>, KiCadParseError>) -> Result<
    Option<T::V>,
    KiCadParseErrorView,
> {
    match r {
        Ok(v) => Ok(opt_view(v)),
        Err(e) => Err(e@),
    }
}

/// The model of the outcome of reading a sequence of values.
pub open spec fn parsed_seq<T: View>(r: Result<Vec<T>, KiCadParseError>) -> Result<
    Seq<T::V>,
    KiCadParseErrorView,
> {
    match r {
        Ok(v) => Ok(seq_view(v@)),
        Err(e) => Err(e@),
    }
}

} // verus!
