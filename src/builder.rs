//! Chained binding: `template.arguments().builder().display(0, v)...format()`.
use vstd::prelude::*;

use crate::arguments::{add_checked, render, Arguments, BoundModel};
use crate::error::{Error, ErrorModel};
use crate::key::{KeyModel, ToArgumentKey};
use crate::piece::PieceModel;
use crate::form::Type;
use crate::value::{bundle_forms, single_forms, ArgumentValue, Value};

verus! {

/// The state of a checked chain: the template's pieces and the bindings so far, or
/// the error that stopped the chain.
pub open spec fn chain_state<'a>(c: Result<Arguments<'a>, Error>) -> Result<
    (Seq<PieceModel>, Seq<BoundModel>),
    ErrorModel,
> {
    match c {
        Ok(a) => Ok((a.template@, a@)),
        Err(e) => Err(e@),
    }
}

pub open spec fn chain_ready<'a>(c: Result<Arguments<'a>, Error>) -> bool {
    c matches Ok(a) ==> a.wf()
}

/// One checked binding on a chain; an error stops the chain and is kept.
pub open spec fn chain_add(
    s: Result<(Seq<PieceModel>, Seq<BoundModel>), ErrorModel>,
    k: KeyModel,
    av: ArgumentValue,
) -> Result<(Seq<PieceModel>, Seq<BoundModel>), ErrorModel> {
    match s {
        Err(e) => Err(e),
        Ok((ps, b)) => match add_checked(ps, b, k, av) {
            Ok(b2) => Ok((ps, b2)),
            Err(e) => Err(e),
        },
    }
}

/// Checked binding calls that can be chained; the first error stops the chain.
pub trait ArgumentsBuilder<'a>: Sized {
    spec fn state(&self) -> Result<(Seq<PieceModel>, Seq<BoundModel>), ErrorModel>;

    spec fn ready(&self) -> bool;

    /// Renders, or hands on the error that stopped the chain.
    fn format(self) -> (r: Result<String, Error>)
        requires
            self.ready(),
        ensures
            match self.state() {
                Err(e) => r matches Err(x) && x@ == e,
                Ok((ps, b)) => match render(ps, b) {
                    Ok(s) => r matches Ok(x) && x@ == s,
                    Err(e) => r matches Err(x) && x@ == e,
                },
            },
    ;

    /// Binds a bundle, checked.
    fn argument_value<K: ToArgumentKey>(self, key: K, value: ArgumentValue) -> (r: Self)
        requires
            self.ready(),
        ensures
            r.ready(),
            r.state() == chain_add(self.state(), key.key_model(), value),
    ;

    /// Binds a value for `Display`, checked.
    fn display<K: ToArgumentKey>(self, key: K, value: Value) -> (r: Self)
        requires
            self.ready(),
        ensures
            r.ready(),
            r.state() == chain_add(self.state(), key.key_model(), ArgumentValue::Display(value)),
    ;

    /// Binds a value for `Debug`, checked.
    fn debug<K: ToArgumentKey>(self, key: K, value: Value) -> (r: Self)
        requires
            self.ready(),
        ensures
            r.ready(),
            r.state() == chain_add(self.state(), key.key_model(), ArgumentValue::Debug(value)),
    ;

    /// Binds a value for `Binary`, checked.
    fn binary<K: ToArgumentKey>(self, key: K, value: Value) -> (r: Self)
        requires
            self.ready(),
        ensures
            r.ready(),
            r.state() == chain_add(self.state(), key.key_model(), ArgumentValue::Binary(value)),
    ;

    /// Binds a value for `Octal`, checked.
    fn octal<K: ToArgumentKey>(self, key: K, value: Value) -> (r: Self)
        requires
            self.ready(),
        ensures
            r.ready(),
            r.state() == chain_add(self.state(), key.key_model(), ArgumentValue::Octal(value)),
    ;

    /// Binds a value for `Pointer`, checked.
    fn pointer<K: ToArgumentKey>(self, key: K, value: Value) -> (r: Self)
        requires
            self.ready(),
        ensures
            r.ready(),
            r.state() == chain_add(self.state(), key.key_model(), ArgumentValue::Pointer(value)),
    ;

    /// Binds a value for `LowerExp`, checked.
    fn lower_exp<K: ToArgumentKey>(self, key: K, value: Value) -> (r: Self)
        requires
            self.ready(),
        ensures
            r.ready(),
            r.state() == chain_add(self.state(), key.key_model(), ArgumentValue::LowerExp(value)),
    ;

    /// Binds a value for `UpperExp`, checked.
    fn upper_exp<K: ToArgumentKey>(self, key: K, value: Value) -> (r: Self)
        requires
            self.ready(),
        ensures
            r.ready(),
            r.state() == chain_add(self.state(), key.key_model(), ArgumentValue::UpperExp(value)),
    ;

    /// Binds a value for `LowerHex`, checked.
    fn lower_hex<K: ToArgumentKey>(self, key: K, value: Value) -> (r: Self)
        requires
            self.ready(),
        ensures
            r.ready(),
            r.state() == chain_add(self.state(), key.key_model(), ArgumentValue::LowerHex(value)),
    ;

    /// Binds a value for `UpperHex`, checked.
    fn upper_hex<K: ToArgumentKey>(self, key: K, value: Value) -> (r: Self)
        requires
            self.ready(),
        ensures
            r.ready(),
            r.state() == chain_add(self.state(), key.key_model(), ArgumentValue::UpperHex(value)),
    ;
}

fn chain<'a, K: ToArgumentKey>(c: Result<Arguments<'a>, Error>, key: K, value: ArgumentValue) -> (r:
    Result<Arguments<'a>, Error>)
    requires
        chain_ready(c),
    ensures
        chain_ready(r),
        chain_state(r) == chain_add(chain_state(c), key.key_model(), value),
{
    match c {
        Err(e) => Err(e),
        Ok(a) => {
            let mut a = a;
            match a.add_argument_value(key, value) {
                Ok(()) => Ok(a),
                Err(e) => Err(e),
            }
        },
    }
}

impl<'a> ArgumentsBuilder<'a> for Result<Arguments<'a>, Error> {
    open spec fn state(&self) -> Result<(Seq<PieceModel>, Seq<BoundModel>), ErrorModel> {
        chain_state(*self)
    }

    open spec fn ready(&self) -> bool {
        chain_ready(*self)
    }

    fn format(self) -> (r: Result<String, Error>) {
        match self {
            Err(e) => Err(e),
            Ok(a) => a.format(),
        }
    }

    fn argument_value<K: ToArgumentKey>(self, key: K, value: ArgumentValue) -> (r: Self) {
        chain(self, key, value)
    }

    fn display<K: ToArgumentKey>(self, key: K, value: Value) -> (r: Self) {
        chain(self, key, ArgumentValue::Display(value))
    }

    fn debug<K: ToArgumentKey>(self, key: K, value: Value) -> (r: Self) {
        chain(self, key, ArgumentValue::Debug(value))
    }

    fn binary<K: ToArgumentKey>(self, key: K, value: Value) -> (r: Self) {
        chain(self, key, ArgumentValue::Binary(value))
    }

    fn octal<K: ToArgumentKey>(self, key: K, value: Value) -> (r: Self) {
        chain(self, key, ArgumentValue::Octal(value))
    }

    fn pointer<K: ToArgumentKey>(self, key: K, value: Value) -> (r: Self) {
        chain(self, key, ArgumentValue::Pointer(value))
    }

    fn lower_exp<K: ToArgumentKey>(self, key: K, value: Value) -> (r: Self) {
        chain(self, key, ArgumentValue::LowerExp(value))
    }

    fn upper_exp<K: ToArgumentKey>(self, key: K, value: Value) -> (r: Self) {
        chain(self, key, ArgumentValue::UpperExp(value))
    }

    fn lower_hex<K: ToArgumentKey>(self, key: K, value: Value) -> (r: Self) {
        chain(self, key, ArgumentValue::LowerHex(value))
    }

    fn upper_hex<K: ToArgumentKey>(self, key: K, value: Value) -> (r: Self) {
        chain(self, key, ArgumentValue::UpperHex(value))
    }
}

/// Unchecked binding calls that can be chained.
pub trait UncheckedArgumentsBuilder: Sized {
    spec fn bindings(&self) -> Seq<BoundModel>;

    /// Binds a bundle without checks.
    fn argument_value_unchecked<K: ToArgumentKey>(self, key: K, value: ArgumentValue) -> (r: Self)
        ensures
            r.bindings() == self.bindings().push(
                BoundModel { key: key.key_model(), forms: bundle_forms(value), value: value.payload() },
            ),
    ;

    /// Binds a value for `Display` without checks.
    fn display_unchecked<K: ToArgumentKey>(self, key: K, value: Value) -> (r: Self)
        ensures
            r.bindings() == self.bindings().push(
                BoundModel { key: key.key_model(), forms: single_forms(Type::Display), value: value@ },
            ),
    ;

    /// Binds a value for `Debug` without checks.
    fn debug_unchecked<K: ToArgumentKey>(self, key: K, value: Value) -> (r: Self)
        ensures
            r.bindings() == self.bindings().push(
                BoundModel { key: key.key_model(), forms: single_forms(Type::Debug), value: value@ },
            ),
    ;

    /// Binds a value for `Binary` without checks.
    fn binary_unchecked<K: ToArgumentKey>(self, key: K, value: Value) -> (r: Self)
        ensures
            r.bindings() == self.bindings().push(
                BoundModel { key: key.key_model(), forms: single_forms(Type::Binary), value: value@ },
            ),
    ;

    /// Binds a value for `Octal` without checks.
    fn octal_unchecked<K: ToArgumentKey>(self, key: K, value: Value) -> (r: Self)
        ensures
            r.bindings() == self.bindings().push(
                BoundModel { key: key.key_model(), forms: single_forms(Type::Octal), value: value@ },
            ),
    ;

    /// Binds a value for `Pointer` without checks.
    fn pointer_unchecked<K: ToArgumentKey>(self, key: K, value: Value) -> (r: Self)
        ensures
            r.bindings() == self.bindings().push(
                BoundModel { key: key.key_model(), forms: single_forms(Type::Pointer), value: value@ },
            ),
    ;

    /// Binds a value for `LowerExp` without checks.
    fn lower_exp_unchecked<K: ToArgumentKey>(self, key: K, value: Value) -> (r: Self)
        ensures
            r.bindings() == self.bindings().push(
                BoundModel { key: key.key_model(), forms: single_forms(Type::LowerExp), value: value@ },
            ),
    ;

    /// Binds a value for `UpperExp` without checks.
    fn upper_exp_unchecked<K: ToArgumentKey>(self, key: K, value: Value) -> (r: Self)
        ensures
            r.bindings() == self.bindings().push(
                BoundModel { key: key.key_model(), forms: single_forms(Type::UpperExp), value: value@ },
            ),
    ;

    /// Binds a value for `LowerHex` without checks.
    fn lower_hex_unchecked<K: ToArgumentKey>(self, key: K, value: Value) -> (r: Self)
        ensures
            r.bindings() == self.bindings().push(
                BoundModel { key: key.key_model(), forms: single_forms(Type::LowerHex), value: value@ },
            ),
    ;

    /// Binds a value for `UpperHex` without checks.
    fn upper_hex_unchecked<K: ToArgumentKey>(self, key: K, value: Value) -> (r: Self)
        ensures
            r.bindings() == self.bindings().push(
                BoundModel { key: key.key_model(), forms: single_forms(Type::UpperHex), value: value@ },
            ),
    ;
}

impl<'a> UncheckedArgumentsBuilder for Arguments<'a> {
    open spec fn bindings(&self) -> Seq<BoundModel> {
        self@
    }

    fn argument_value_unchecked<K: ToArgumentKey>(self, key: K, value: ArgumentValue) -> (r: Self) {
        let mut a = self;
        a.add_argument_value_unchecked(key, value);
        a
    }

    fn display_unchecked<K: ToArgumentKey>(self, key: K, value: Value) -> (r: Self) {
        let mut a = self;
        let single = ArgumentValue::Display(value);
        assert(bundle_forms(single) == single_forms(Type::Display));
        a.add_argument_value_unchecked(key, single);
        a
    }

    fn debug_unchecked<K: ToArgumentKey>(self, key: K, value: Value) -> (r: Self) {
        let mut a = self;
        let single = ArgumentValue::Debug(value);
        assert(bundle_forms(single) == single_forms(Type::Debug));
        a.add_argument_value_unchecked(key, single);
        a
    }

    fn binary_unchecked<K: ToArgumentKey>(self, key: K, value: Value) -> (r: Self) {
        let mut a = self;
        let single = ArgumentValue::Binary(value);
        assert(bundle_forms(single) == single_forms(Type::Binary));
        a.add_argument_value_unchecked(key, single);
        a
    }

    fn octal_unchecked<K: ToArgumentKey>(self, key: K, value: Value) -> (r: Self) {
        let mut a = self;
        let single = ArgumentValue::Octal(value);
        assert(bundle_forms(single) == single_forms(Type::Octal));
        a.add_argument_value_unchecked(key, single);
        a
    }

    fn pointer_unchecked<K: ToArgumentKey>(self, key: K, value: Value) -> (r: Self) {
        let mut a = self;
        let single = ArgumentValue::Pointer(value);
        assert(bundle_forms(single) == single_forms(Type::Pointer));
        a.add_argument_value_unchecked(key, single);
        a
    }

    fn lower_exp_unchecked<K: ToArgumentKey>(self, key: K, value: Value) -> (r: Self) {
        let mut a = self;
        let single = ArgumentValue::LowerExp(value);
        assert(bundle_forms(single) == single_forms(Type::LowerExp));
        a.add_argument_value_unchecked(key, single);
        a
    }

    fn upper_exp_unchecked<K: ToArgumentKey>(self, key: K, value: Value) -> (r: Self) {
        let mut a = self;
        let single = ArgumentValue::UpperExp(value);
        assert(bundle_forms(single) == single_forms(Type::UpperExp));
        a.add_argument_value_unchecked(key, single);
        a
    }

    fn lower_hex_unchecked<K: ToArgumentKey>(self, key: K, value: Value) -> (r: Self) {
        let mut a = self;
        let single = ArgumentValue::LowerHex(value);
        assert(bundle_forms(single) == single_forms(Type::LowerHex));
        a.add_argument_value_unchecked(key, single);
        a
    }

    fn upper_hex_unchecked<K: ToArgumentKey>(self, key: K, value: Value) -> (r: Self) {
        let mut a = self;
        let single = ArgumentValue::UpperHex(value);
        assert(bundle_forms(single) == single_forms(Type::UpperHex));
        a.add_argument_value_unchecked(key, single);
        a
    }
}

} // verus!
