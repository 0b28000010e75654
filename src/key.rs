use vstd::prelude::*;

use crate::form::Type;

verus! {

/// The key of an argument: a position or a name.
#[derive(Debug, Clone, PartialEq, Eq)]
pub enum ArgumentKey {
    Index(usize),
    Name(String),
}

/// The mathematical value of an [`ArgumentKey`].
pub enum KeyModel {
    Index(nat),
    Name(Seq<char>),
}

impl View for ArgumentKey {
    type V = KeyModel;

    open spec fn view(&self) -> KeyModel {
        match self {
            ArgumentKey::Index(i) => KeyModel::Index(*i as nat),
            ArgumentKey::Name(s) => KeyModel::Name(s@),
        }
    }
}

impl ArgumentKey {
    /// Whether the two keys denote the same argument.
    pub fn same_as(&self, other: &ArgumentKey) -> (r: bool)
        ensures
            r == (self@ == other@),
    {
        match (self, other) {
            (ArgumentKey::Index(a), ArgumentKey::Index(b)) => *a == *b,
            (ArgumentKey::Name(a), ArgumentKey::Name(b)) => {
                let r = *a == *b;
                r
            },
            _ => false,
        }
    }
}

/// A key together with the form it is used in.
#[derive(Debug, Clone, PartialEq, Eq)]
pub struct TypedArgumentKey {
    pub key: ArgumentKey,
    pub ty: Type,
}

impl TypedArgumentKey {
    pub fn new(key: ArgumentKey, ty: Type) -> (r: Self)
        ensures
            r.key == key,
            r.ty == ty,
    {
        TypedArgumentKey { key, ty }
    }
}

/// Something that names an argument.
pub trait ToArgumentKey {
    /// The key this value names.
    spec fn key_model(&self) -> KeyModel;

    fn to_argument_key(&self) -> (r: ArgumentKey)
        ensures
            r@ == self.key_model(),
    ;
}

impl ToArgumentKey for usize {
    open spec fn key_model(&self) -> KeyModel {
        KeyModel::Index(*self as nat)
    }

    fn to_argument_key(&self) -> (r: ArgumentKey) {
        ArgumentKey::Index(*self)
    }
}

impl ToArgumentKey for &str {
    open spec fn key_model(&self) -> KeyModel {
        KeyModel::Name((**self)@)
    }

    fn to_argument_key(&self) -> (r: ArgumentKey) {
        ArgumentKey::Name((**self).to_owned())
    }
}

impl ToArgumentKey for ArgumentKey {
    open spec fn key_model(&self) -> KeyModel {
        self@
    }

    fn to_argument_key(&self) -> (r: ArgumentKey) {
        match self {
            ArgumentKey::Index(i) => ArgumentKey::Index(*i),
            ArgumentKey::Name(s) => ArgumentKey::Name(s.clone()),
        }
    }
}

} // verus!
