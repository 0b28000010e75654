use vstd::prelude::*;

use crate::form::Type;
use crate::key::{ArgumentKey, KeyModel, TypedArgumentKey};

verus! {

/// Everything that can go wrong while parsing, binding or rendering.
#[derive(Debug, PartialEq, Eq)]
pub enum Error {
    /// The key does not occur in the template, or no value is bound for it in the
    /// form a placeholder needs.
    ArgumentNotFound(ArgumentKey),
    /// The key was already bound for this form (checked binding only).
    DuplicateArgument(TypedArgumentKey),
    /// The value does not offer a form that it is bound or required as, or a width or
    /// precision amount is not a number that fits in 16 bits.
    UnexpectedArgumentValue,
    /// The output sink failed.
    Fmt,
    /// The template or one of its specifiers is malformed.
    UnexpectedToken,
}

pub enum ErrorModel {
    ArgumentNotFound(KeyModel),
    DuplicateArgument(KeyModel, Type),
    UnexpectedArgumentValue,
    Fmt,
    UnexpectedToken,
}

impl View for Error {
    type V = ErrorModel;

    open spec fn view(&self) -> ErrorModel {
        match self {
            Error::ArgumentNotFound(k) => ErrorModel::ArgumentNotFound(k@),
            Error::DuplicateArgument(tk) => ErrorModel::DuplicateArgument(tk.key@, tk.ty),
            Error::UnexpectedArgumentValue => ErrorModel::UnexpectedArgumentValue,
            Error::Fmt => ErrorModel::Fmt,
            Error::UnexpectedToken => ErrorModel::UnexpectedToken,
        }
    }
}

} // verus!
