//! Values that can be bound to a template's keys, and the capability bundles they are bound through.
use vstd::prelude::*;

use crate::form::{ArgumentTypeRequirements, Type};

verus! {

/// A value to render.
#[derive(Debug, Clone)]
pub enum Value {
    /// A signed integer and the width in bits of the type it came from; the radix
    /// forms show the two's complement in that many bits (0 or more than 128 count as 128).
    Signed(i128, u32),
    Unsigned(u128),
    Text(String),
    Char(char),
    Bool(bool),
    /// A memory address, rendered by the `Pointer` form.
    Address(usize),
}

pub enum ValueModel {
    Signed(int, nat),
    Unsigned(nat),
    Text(Seq<char>),
    Char(char),
    Bool(bool),
    Address(nat),
}

impl View for Value {
    type V = ValueModel;

    open spec fn view(&self) -> ValueModel {
        match self {
            Value::Signed(v, bits) => ValueModel::Signed(*v as int, *bits as nat),
            Value::Unsigned(v) => ValueModel::Unsigned(*v as nat),
            Value::Text(s) => ValueModel::Text(s@),
            Value::Char(c) => ValueModel::Char(*c),
            Value::Bool(b) => ValueModel::Bool(*b),
            Value::Address(a) => ValueModel::Address(*a as nat),
        }
    }
}

/// The forms a value natively renders as: integers all but `Pointer`, and they can
/// give a width or precision; text, characters and booleans `Display` and `Debug`;
/// addresses `Pointer`.
pub open spec fn offers(v: ValueModel, t: Type) -> bool {
    match v {
        ValueModel::Signed(..) | ValueModel::Unsigned(_) => t != Type::Pointer,
        ValueModel::Text(_) | ValueModel::Char(_) | ValueModel::Bool(_) => t == Type::Display || t
            == Type::Debug,
        ValueModel::Address(_) => t == Type::Pointer,
    }
}

/// The width or precision that a value gives: a negative number counts as 0; a number
/// that does not fit in 16 bits, or a value that is no number, gives none.
pub open spec fn amount_of(v: ValueModel) -> Option<nat> {
    match v {
        ValueModel::Signed(i, _) => if i < 0 {
            Some(0)
        } else if i <= u16::MAX {
            Some(i as nat)
        } else {
            None
        },
        ValueModel::Unsigned(n) => if n <= u16::MAX {
            Some(n)
        } else {
            None
        },
        _ => None,
    }
}

impl Value {
    /// Whether the value natively renders as form `t`.
    pub fn offers(&self, t: Type) -> (r: bool)
        ensures
            r == offers(self@, t),
    {
        match self {
            Value::Signed(..) | Value::Unsigned(_) => t != Type::Pointer,
            Value::Text(_) | Value::Char(_) | Value::Bool(_) => t == Type::Display || t
                == Type::Debug,
            Value::Address(_) => t == Type::Pointer,
        }
    }

    /// The forms the value natively renders as.
    pub fn capabilities(&self) -> (r: ArgumentTypeRequirements)
        ensures
            forall|t: Type| #[trigger] r.has(t) == offers(self@, t),
    {
        let mut r = ArgumentTypeRequirements::none();
        match self {
            Value::Signed(..) | Value::Unsigned(_) => {
                r = r.with_display().with_debug().with_binary().with_octal().with_lower_exp()
                    .with_upper_exp().with_lower_hex().with_upper_hex();
                r.add_requirement(Type::WidthOrPrecisionAmount);
            },
            Value::Text(_) | Value::Char(_) | Value::Bool(_) => {
                r = r.with_display().with_debug();
            },
            Value::Address(_) => {
                r = r.with_pointer();
            },
        }
        r
    }

    /// A copy with the same mathematical value.
    pub fn duplicate(&self) -> (r: Value)
        ensures
            r@ == self@,
    {
        match self {
            Value::Signed(v, bits) => Value::Signed(*v, *bits),
            Value::Unsigned(v) => Value::Unsigned(*v),
            Value::Text(s) => Value::Text(s.clone()),
            Value::Char(c) => Value::Char(*c),
            Value::Bool(b) => Value::Bool(*b),
            Value::Address(a) => Value::Address(*a),
        }
    }
}

/// A value tagged with the bundle of forms it is bound through.
#[derive(Debug, Clone)]
pub enum ArgumentValue {
    Display(Value),
    Debug(Value),
    Binary(Value),
    LowerExp(Value),
    UpperExp(Value),
    LowerHex(Value),
    UpperHex(Value),
    Octal(Value),
    Pointer(Value),
    WidthOrPrecisionAmount(Value),
    DisplayAndDebug(Value),
    /// Display, Debug, LowerExp, UpperExp, LowerHex, UpperHex, Binary and Octal.
    IntegerLike(Value),
    /// Display, Debug, LowerExp and UpperExp.
    FloatLike(Value),
}

/// The forms of a bundle.
pub open spec fn bundle_has(av: ArgumentValue, t: Type) -> bool {
    match av {
        ArgumentValue::Display(_) => t == Type::Display,
        ArgumentValue::Debug(_) => t == Type::Debug,
        ArgumentValue::Binary(_) => t == Type::Binary,
        ArgumentValue::LowerExp(_) => t == Type::LowerExp,
        ArgumentValue::UpperExp(_) => t == Type::UpperExp,
        ArgumentValue::LowerHex(_) => t == Type::LowerHex,
        ArgumentValue::UpperHex(_) => t == Type::UpperHex,
        ArgumentValue::Octal(_) => t == Type::Octal,
        ArgumentValue::Pointer(_) => t == Type::Pointer,
        ArgumentValue::WidthOrPrecisionAmount(_) => t == Type::WidthOrPrecisionAmount,
        ArgumentValue::DisplayAndDebug(_) => t == Type::Display || t == Type::Debug,
        ArgumentValue::IntegerLike(_) => t != Type::Pointer && t != Type::WidthOrPrecisionAmount,
        ArgumentValue::FloatLike(_) => t == Type::Display || t == Type::Debug || t
            == Type::LowerExp || t == Type::UpperExp,
    }
}

/// The forms of a bundle, as a set.
pub open spec fn bundle_forms(av: ArgumentValue) -> ArgumentTypeRequirements {
    ArgumentTypeRequirements {
        display: bundle_has(av, Type::Display),
        debug: bundle_has(av, Type::Debug),
        lower_exp: bundle_has(av, Type::LowerExp),
        upper_exp: bundle_has(av, Type::UpperExp),
        lower_hex: bundle_has(av, Type::LowerHex),
        upper_hex: bundle_has(av, Type::UpperHex),
        binary: bundle_has(av, Type::Binary),
        pointer: bundle_has(av, Type::Pointer),
        octal: bundle_has(av, Type::Octal),
        width_or_precision_amount: bundle_has(av, Type::WidthOrPrecisionAmount),
    }
}

pub proof fn lemma_bundle_forms_has(av: ArgumentValue)
    ensures
        forall|t: Type| #[trigger] bundle_forms(av).has(t) == bundle_has(av, t),
{
    assert forall|t: Type| #[trigger] bundle_forms(av).has(t) == bundle_has(av, t) by {
        match t {
            _ => {},
        }
    }
}

pub proof fn lemma_single_forms_has(t: Type)
    ensures
        forall|u: Type| #[trigger] single_forms(t).has(u) == (u == t),
{
    assert forall|u: Type| #[trigger] single_forms(t).has(u) == (u == t) by {
        match u {
            _ => {},
        }
    }
}

/// The set that holds form `t` alone.
pub open spec fn single_forms(t: Type) -> ArgumentTypeRequirements {
    ArgumentTypeRequirements {
        display: t == Type::Display,
        debug: t == Type::Debug,
        lower_exp: t == Type::LowerExp,
        upper_exp: t == Type::UpperExp,
        lower_hex: t == Type::LowerHex,
        upper_hex: t == Type::UpperHex,
        binary: t == Type::Binary,
        pointer: t == Type::Pointer,
        octal: t == Type::Octal,
        width_or_precision_amount: t == Type::WidthOrPrecisionAmount,
    }
}

/// The number of forms in a bundle.
pub open spec fn bundle_size(av: ArgumentValue) -> nat {
    match av {
        ArgumentValue::DisplayAndDebug(_) => 2,
        ArgumentValue::IntegerLike(_) => 8,
        ArgumentValue::FloatLike(_) => 4,
        _ => 1,
    }
}

impl ArgumentValue {
    /// The value inside the bundle.
    pub open spec fn payload(&self) -> ValueModel {
        match self {
            ArgumentValue::Display(v) | ArgumentValue::Debug(v) | ArgumentValue::Binary(v)
            | ArgumentValue::LowerExp(v) | ArgumentValue::UpperExp(v) | ArgumentValue::LowerHex(v)
            | ArgumentValue::UpperHex(v) | ArgumentValue::Octal(v) | ArgumentValue::Pointer(v)
            | ArgumentValue::WidthOrPrecisionAmount(v) | ArgumentValue::DisplayAndDebug(v)
            | ArgumentValue::IntegerLike(v) | ArgumentValue::FloatLike(v) => v@,
        }
    }

    /// The value offers every form of its bundle.
    pub open spec fn wf(&self) -> bool {
        forall|t: Type| #[trigger] bundle_has(*self, t) ==> offers(self.payload(), t)
    }

    /// A copy with the same bundle and the same mathematical value.
    pub fn duplicate(&self) -> (r: ArgumentValue)
        ensures
            r.payload() == self.payload(),
            bundle_forms(r) == bundle_forms(*self),
            forall|t: Type| #[trigger] bundle_has(r, t) == bundle_has(*self, t),
            r.wf() == self.wf(),
    {
        let r = match self {
            ArgumentValue::Display(v) => ArgumentValue::Display(v.duplicate()),
            ArgumentValue::Debug(v) => ArgumentValue::Debug(v.duplicate()),
            ArgumentValue::Binary(v) => ArgumentValue::Binary(v.duplicate()),
            ArgumentValue::LowerExp(v) => ArgumentValue::LowerExp(v.duplicate()),
            ArgumentValue::UpperExp(v) => ArgumentValue::UpperExp(v.duplicate()),
            ArgumentValue::LowerHex(v) => ArgumentValue::LowerHex(v.duplicate()),
            ArgumentValue::UpperHex(v) => ArgumentValue::UpperHex(v.duplicate()),
            ArgumentValue::Octal(v) => ArgumentValue::Octal(v.duplicate()),
            ArgumentValue::Pointer(v) => ArgumentValue::Pointer(v.duplicate()),
            ArgumentValue::WidthOrPrecisionAmount(v) => ArgumentValue::WidthOrPrecisionAmount(
                v.duplicate(),
            ),
            ArgumentValue::DisplayAndDebug(v) => ArgumentValue::DisplayAndDebug(v.duplicate()),
            ArgumentValue::IntegerLike(v) => ArgumentValue::IntegerLike(v.duplicate()),
            ArgumentValue::FloatLike(v) => ArgumentValue::FloatLike(v.duplicate()),
        };
        proof {
            lemma_bundle_forms_has(r);
            lemma_bundle_forms_has(*self);
            if r.wf() {
                assert forall|t: Type| #[trigger] bundle_has(*self, t) implies offers(self.payload(), t) by {
                    assert(bundle_has(r, t));
                }
            }
            if self.wf() {
                assert forall|t: Type| #[trigger] bundle_has(r, t) implies offers(r.payload(), t) by {
                    assert(bundle_has(*self, t));
                }
            }
        }
        r
    }

    /// The value inside the bundle.
    pub fn value(&self) -> (r: &Value)
        ensures
            r@ == self.payload(),
    {
        match self {
            ArgumentValue::Display(v) | ArgumentValue::Debug(v) | ArgumentValue::Binary(v)
            | ArgumentValue::LowerExp(v) | ArgumentValue::UpperExp(v) | ArgumentValue::LowerHex(v)
            | ArgumentValue::UpperHex(v) | ArgumentValue::Octal(v) | ArgumentValue::Pointer(v)
            | ArgumentValue::WidthOrPrecisionAmount(v) | ArgumentValue::DisplayAndDebug(v)
            | ArgumentValue::IntegerLike(v) | ArgumentValue::FloatLike(v) => v,
        }
    }

    /// The single-form bundle of form `t` around `v`.
    pub fn single(t: Type, v: Value) -> (r: ArgumentValue)
        ensures
            r.payload() == v@,
            forall|u: Type| #[trigger] bundle_has(r, u) == (u == t),
            bundle_forms(r) == single_forms(t),
            bundle_size(r) == 1,
    {
        match t {
            Type::Display => ArgumentValue::Display(v),
            Type::Debug => ArgumentValue::Debug(v),
            Type::Binary => ArgumentValue::Binary(v),
            Type::LowerExp => ArgumentValue::LowerExp(v),
            Type::UpperExp => ArgumentValue::UpperExp(v),
            Type::LowerHex => ArgumentValue::LowerHex(v),
            Type::UpperHex => ArgumentValue::UpperHex(v),
            Type::Octal => ArgumentValue::Octal(v),
            Type::Pointer => ArgumentValue::Pointer(v),
            Type::WidthOrPrecisionAmount => ArgumentValue::WidthOrPrecisionAmount(v),
        }
    }

    /// Whether the bundle includes form `t`.
    pub fn bundles(&self, t: Type) -> (r: bool)
        ensures
            r == bundle_has(*self, t),
    {
        match self {
            ArgumentValue::Display(_) => t == Type::Display,
            ArgumentValue::Debug(_) => t == Type::Debug,
            ArgumentValue::Binary(_) => t == Type::Binary,
            ArgumentValue::LowerExp(_) => t == Type::LowerExp,
            ArgumentValue::UpperExp(_) => t == Type::UpperExp,
            ArgumentValue::LowerHex(_) => t == Type::LowerHex,
            ArgumentValue::UpperHex(_) => t == Type::UpperHex,
            ArgumentValue::Octal(_) => t == Type::Octal,
            ArgumentValue::Pointer(_) => t == Type::Pointer,
            ArgumentValue::WidthOrPrecisionAmount(_) => t == Type::WidthOrPrecisionAmount,
            ArgumentValue::DisplayAndDebug(_) => t == Type::Display || t == Type::Debug,
            ArgumentValue::IntegerLike(_) => t != Type::Pointer && t
                != Type::WidthOrPrecisionAmount,
            ArgumentValue::FloatLike(_) => t == Type::Display || t == Type::Debug || t
                == Type::LowerExp || t == Type::UpperExp,
        }
    }

    /// The forms of the bundle.
    pub fn fullfills(&self) -> (r: ArgumentTypeRequirements)
        ensures
            forall|t: Type| #[trigger] r.has(t) == bundle_has(*self, t),
            r == bundle_forms(*self),
    {
        let r = ArgumentTypeRequirements::none();
        let r = match self {
            ArgumentValue::Display(_) => r.with_display(),
            ArgumentValue::Debug(_) => r.with_debug(),
            ArgumentValue::Binary(_) => r.with_binary(),
            ArgumentValue::LowerExp(_) => r.with_lower_exp(),
            ArgumentValue::UpperExp(_) => r.with_upper_exp(),
            ArgumentValue::LowerHex(_) => r.with_lower_hex(),
            ArgumentValue::UpperHex(_) => r.with_upper_hex(),
            ArgumentValue::Octal(_) => r.with_octal(),
            ArgumentValue::Pointer(_) => r.with_pointer(),
            ArgumentValue::WidthOrPrecisionAmount(_) => {
                let mut r = r;
                r.add_requirement(Type::WidthOrPrecisionAmount);
                r
            },
            ArgumentValue::DisplayAndDebug(_) => r.with_display().with_debug(),
            ArgumentValue::IntegerLike(_) => r.with_display().with_debug().with_binary()
                .with_octal().with_lower_exp().with_upper_exp().with_lower_hex().with_upper_hex(),
            ArgumentValue::FloatLike(_) => r.with_display().with_debug().with_lower_exp()
                .with_upper_exp(),
        };
        proof {
            assert forall|t: Type| #[trigger] r.has(t) == bundle_forms(*self).has(t) by {}
            ArgumentTypeRequirements::lemma_ext(r, bundle_forms(*self));
        }
        r
    }

    /// Whether the value offers every form of its bundle.
    pub fn is_well_formed(&self) -> (r: bool)
        ensures
            r == self.wf(),
    {
        let offered = self.value().capabilities();
        let bundle = self.fullfills();
        match offered.meets(&bundle) {
            Ok(()) => {
                assert forall|t: Type| #[trigger] bundle_has(*self, t) implies offers(self.payload(), t) by {
                    assert(bundle.has(t));
                }
                true
            },
            Err(_) => {
                assert(!self.wf()) by {
                    if self.wf() {
                        assert forall|t: Type| #[trigger] bundle.has(t) implies offered.has(t) by {
                            assert(bundle_has(*self, t));
                        }
                    }
                }
                false
            },
        }
    }

    /// The width or precision amount the value gives.
    pub fn to_u16(&self) -> (r: Option<u16>)
        ensures
            r matches Some(n) ==> amount_of(self.payload()) == Some(n as nat),
            r is None ==> amount_of(self.payload()) is None,
    {
        match self.value() {
            Value::Signed(i, _) => if *i < 0 {
                Some(0)
            } else if *i <= 65535 {
                Some(*i as u16)
            } else {
                None
            },
            Value::Unsigned(n) => if *n <= 65535 {
                Some(*n as u16)
            } else {
                None
            },
            _ => None,
        }
    }
}

} // verus!
