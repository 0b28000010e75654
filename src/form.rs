use vstd::prelude::*;

use crate::error::Error;

verus! {

/// The rendering form of one placeholder use.
#[derive(Debug, Clone, Copy, PartialEq, Eq, Structural)]
pub enum Type {
    Binary,
    Octal,
    LowerHex,
    UpperHex,
    Pointer,
    LowerExp,
    UpperExp,
    Debug,
    Display,
    /// Internal form used to look up dynamic width and precision amounts.
    WidthOrPrecisionAmount,
}

/// A set of forms: what a key is required to render as, or what a bound value offers.
#[derive(Debug, Clone, Copy, PartialEq, Eq, Structural)]
pub struct ArgumentTypeRequirements {
    pub display: bool,
    pub debug: bool,
    pub lower_exp: bool,
    pub upper_exp: bool,
    pub lower_hex: bool,
    pub upper_hex: bool,
    pub binary: bool,
    pub pointer: bool,
    pub octal: bool,
    pub width_or_precision_amount: bool,
}

impl ArgumentTypeRequirements {
    /// Whether form `t` is in the set.
    pub open spec fn has(&self, t: Type) -> bool {
        match t {
            Type::Display => self.display,
            Type::Debug => self.debug,
            Type::LowerExp => self.lower_exp,
            Type::UpperExp => self.upper_exp,
            Type::LowerHex => self.lower_hex,
            Type::UpperHex => self.upper_hex,
            Type::Binary => self.binary,
            Type::Pointer => self.pointer,
            Type::Octal => self.octal,
            Type::WidthOrPrecisionAmount => self.width_or_precision_amount,
        }
    }

    /// Every form of `other` is in `self`.
    pub open spec fn covers(&self, other: Self) -> bool {
        forall|t: Type| #[trigger] other.has(t) ==> self.has(t)
    }

    /// Two sets with the same forms are equal.
    pub proof fn lemma_ext(a: Self, b: Self)
        requires
            forall|t: Type| #[trigger] a.has(t) == b.has(t),
        ensures
            a == b,
    {
        assert(a.has(Type::Display) == b.has(Type::Display));
        assert(a.has(Type::Debug) == b.has(Type::Debug));
        assert(a.has(Type::LowerExp) == b.has(Type::LowerExp));
        assert(a.has(Type::UpperExp) == b.has(Type::UpperExp));
        assert(a.has(Type::LowerHex) == b.has(Type::LowerHex));
        assert(a.has(Type::UpperHex) == b.has(Type::UpperHex));
        assert(a.has(Type::Binary) == b.has(Type::Binary));
        assert(a.has(Type::Pointer) == b.has(Type::Pointer));
        assert(a.has(Type::Octal) == b.has(Type::Octal));
        assert(a.has(Type::WidthOrPrecisionAmount) == b.has(Type::WidthOrPrecisionAmount));
    }

    /// The empty set.
    pub fn none() -> (r: Self)
        ensures
            forall|t: Type| !r.has(t),
    {
        ArgumentTypeRequirements {
            display: false,
            debug: false,
            lower_exp: false,
            upper_exp: false,
            lower_hex: false,
            upper_hex: false,
            binary: false,
            pointer: false,
            octal: false,
            width_or_precision_amount: false,
        }
    }

    /// Whether form `t` is in the set.
    pub fn contains(&self, t: Type) -> (r: bool)
        ensures
            r == self.has(t),
    {
        match t {
            Type::Display => self.display,
            Type::Debug => self.debug,
            Type::LowerExp => self.lower_exp,
            Type::UpperExp => self.upper_exp,
            Type::LowerHex => self.lower_hex,
            Type::UpperHex => self.upper_hex,
            Type::Binary => self.binary,
            Type::Pointer => self.pointer,
            Type::Octal => self.octal,
            Type::WidthOrPrecisionAmount => self.width_or_precision_amount,
        }
    }

    /// Adds form `ty` to the set.
    pub fn add_requirement(&mut self, ty: Type)
        ensures
            forall|t: Type| #[trigger] final(self).has(t) == (old(self).has(t) || t == ty),
    {
        match ty {
            Type::Binary => self.binary = true,
            Type::Octal => self.octal = true,
            Type::LowerHex => self.lower_hex = true,
            Type::UpperHex => self.upper_hex = true,
            Type::Pointer => self.pointer = true,
            Type::LowerExp => self.lower_exp = true,
            Type::UpperExp => self.upper_exp = true,
            Type::Debug => self.debug = true,
            Type::Display => self.display = true,
            Type::WidthOrPrecisionAmount => self.width_or_precision_amount = true,
        };
    }

    /// The set with `Display` added.
    pub fn with_display(self) -> (r: Self)
        ensures
            forall|t: Type| #[trigger] r.has(t) == (self.has(t) || t == Type::Display),
    {
        let mut r = self;
        r.display = true;
        r
    }

    /// The set with `Debug` added.
    pub fn with_debug(self) -> (r: Self)
        ensures
            forall|t: Type| #[trigger] r.has(t) == (self.has(t) || t == Type::Debug),
    {
        let mut r = self;
        r.debug = true;
        r
    }

    /// The set with `LowerExp` added.
    pub fn with_lower_exp(self) -> (r: Self)
        ensures
            forall|t: Type| #[trigger] r.has(t) == (self.has(t) || t == Type::LowerExp),
    {
        let mut r = self;
        r.lower_exp = true;
        r
    }

    /// The set with `UpperExp` added.
    pub fn with_upper_exp(self) -> (r: Self)
        ensures
            forall|t: Type| #[trigger] r.has(t) == (self.has(t) || t == Type::UpperExp),
    {
        let mut r = self;
        r.upper_exp = true;
        r
    }

    /// The set with `LowerHex` added.
    pub fn with_lower_hex(self) -> (r: Self)
        ensures
            forall|t: Type| #[trigger] r.has(t) == (self.has(t) || t == Type::LowerHex),
    {
        let mut r = self;
        r.lower_hex = true;
        r
    }

    /// The set with `UpperHex` added.
    pub fn with_upper_hex(self) -> (r: Self)
        ensures
            forall|t: Type| #[trigger] r.has(t) == (self.has(t) || t == Type::UpperHex),
    {
        let mut r = self;
        r.upper_hex = true;
        r
    }

    /// The set with `Binary` added.
    pub fn with_binary(self) -> (r: Self)
        ensures
            forall|t: Type| #[trigger] r.has(t) == (self.has(t) || t == Type::Binary),
    {
        let mut r = self;
        r.binary = true;
        r
    }

    /// The set with `Pointer` added.
    pub fn with_pointer(self) -> (r: Self)
        ensures
            forall|t: Type| #[trigger] r.has(t) == (self.has(t) || t == Type::Pointer),
    {
        let mut r = self;
        r.pointer = true;
        r
    }

    /// The set with `Octal` added.
    pub fn with_octal(self) -> (r: Self)
        ensures
            forall|t: Type| #[trigger] r.has(t) == (self.has(t) || t == Type::Octal),
    {
        let mut r = self;
        r.octal = true;
        r
    }

    /// Succeeds when `self`, the forms a value offers, covers `other`, the forms
    /// it is required to render as.
    pub fn meets(&self, other: &Self) -> (r: Result<(), Error>)
        ensures
            r is Ok <==> self.covers(*other),
            r is Err ==> r == Err::<(), Error>(Error::UnexpectedArgumentValue),
    {
        if (!other.display || self.display) && (!other.debug || self.debug) && (!other.lower_exp
            || self.lower_exp) && (!other.upper_exp || self.upper_exp) && (!other.lower_hex
            || self.lower_hex) && (!other.upper_hex || self.upper_hex) && (!other.binary
            || self.binary) && (!other.pointer || self.pointer) && (!other.octal || self.octal)
            && (!other.width_or_precision_amount || self.width_or_precision_amount) {
            Ok(())
        } else {
            proof {
                if self.covers(*other) {
                    assert(other.has(Type::Display) ==> self.has(Type::Display));
                    assert(other.has(Type::Debug) ==> self.has(Type::Debug));
                    assert(other.has(Type::LowerExp) ==> self.has(Type::LowerExp));
                    assert(other.has(Type::UpperExp) ==> self.has(Type::UpperExp));
                    assert(other.has(Type::LowerHex) ==> self.has(Type::LowerHex));
                    assert(other.has(Type::UpperHex) ==> self.has(Type::UpperHex));
                    assert(other.has(Type::Binary) ==> self.has(Type::Binary));
                    assert(other.has(Type::Pointer) ==> self.has(Type::Pointer));
                    assert(other.has(Type::Octal) ==> self.has(Type::Octal));
                    assert(other.has(Type::WidthOrPrecisionAmount) ==> self.has(
                        Type::WidthOrPrecisionAmount,
                    ));
                }
            }
            Err(Error::UnexpectedArgumentValue)
        }
    }
}

impl Default for ArgumentTypeRequirements {
    fn default() -> (r: Self)
        ensures
            forall|t: Type| !r.has(t),
    {
        Self::none()
    }
}

} // verus!
