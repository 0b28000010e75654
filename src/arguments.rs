//! Binding values to a template's keys, and rendering the template with them.
use vstd::prelude::*;

use crate::error::{Error, ErrorModel};
use crate::form::{ArgumentTypeRequirements, Type};
use crate::key::{ArgumentKey, KeyModel, ToArgumentKey, TypedArgumentKey};
use crate::piece::{Piece, PieceModel};
use crate::render::{push_value, render_value, FieldOptions};
use crate::specifier::{Alignment, Precision, PrecisionModel, SpecifierModel, Width, WidthModel, Specifier};
use crate::template::{form_of, mentioned, required, Template};
use crate::text::string_of;
use crate::value::{amount_of, bundle_forms, offers, single_forms, ArgumentValue, Value, ValueModel};

verus! {

/// One binding: a key, the forms it is bound for, and the value.
pub struct BoundModel {
    pub key: KeyModel,
    pub forms: ArgumentTypeRequirements,
    pub value: ValueModel,
}

pub open spec fn bound_view(e: (ArgumentKey, ArgumentValue)) -> BoundModel {
    BoundModel { key: e.0@, forms: bundle_forms(e.1), value: e.1.payload() }
}

pub open spec fn bindings_view(b: Seq<(ArgumentKey, ArgumentValue)>) -> Seq<BoundModel> {
    b.map_values(|e: (ArgumentKey, ArgumentValue)| bound_view(e))
}

/// The value of the first binding of key `k` for form `t`, from position `j` on.
pub open spec fn lookup_from(b: Seq<BoundModel>, k: KeyModel, t: Type, j: int) -> Option<ValueModel>
    decreases b.len() - j,
{
    if j < 0 || j >= b.len() {
        None
    } else if b[j].key == k && b[j].forms.has(t) {
        Some(b[j].value)
    } else {
        lookup_from(b, k, t, j + 1)
    }
}

/// The value that renders key `k` in form `t`: the first binding that fits.
pub open spec fn lookup(b: Seq<BoundModel>, k: KeyModel, t: Type) -> Option<ValueModel> {
    lookup_from(b, k, t, 0)
}

/// The order in which forms are tried when a value is bound.
pub open spec fn form_order() -> Seq<Type> {
    seq![
        Type::Display,
        Type::Debug,
        Type::Pointer,
        Type::Binary,
        Type::Octal,
        Type::LowerHex,
        Type::UpperHex,
        Type::LowerExp,
        Type::UpperExp,
        Type::WidthOrPrecisionAmount,
    ]
}

/// The first form, in binding order, that both sets hold.
pub open spec fn first_shared_from(a: ArgumentTypeRequirements, c: ArgumentTypeRequirements, i: int) -> Option<
    Type,
>
    decreases 10 - i,
{
    if i < 0 || i >= 10 {
        None
    } else if a.has(form_order()[i]) && c.has(form_order()[i]) {
        Some(form_order()[i])
    } else {
        first_shared_from(a, c, i + 1)
    }
}

pub open spec fn first_shared(a: ArgumentTypeRequirements, c: ArgumentTypeRequirements) -> Option<Type> {
    first_shared_from(a, c, 0)
}

/// The form in which a new binding of `k` for `forms` would repeat an earlier one,
/// found from position `j` on.
pub open spec fn duplicate_from(b: Seq<BoundModel>, k: KeyModel, forms: ArgumentTypeRequirements, j: int) -> Option<
    Type,
>
    decreases b.len() - j,
{
    if j < 0 || j >= b.len() {
        None
    } else if b[j].key == k && first_shared(b[j].forms, forms) is Some {
        first_shared(b[j].forms, forms)
    } else {
        duplicate_from(b, k, forms, j + 1)
    }
}

pub open spec fn duplicate(b: Seq<BoundModel>, k: KeyModel, forms: ArgumentTypeRequirements) -> Option<Type> {
    duplicate_from(b, k, forms, 0)
}

/// Checked binding of a bundle: the key must occur in the template, must not be bound
/// already for a form of the bundle, and the value must offer every form of the bundle.
pub open spec fn add_checked(
    ps: Seq<PieceModel>,
    b: Seq<BoundModel>,
    k: KeyModel,
    av: ArgumentValue,
) -> Result<Seq<BoundModel>, ErrorModel> {
    if !mentioned(ps, k) {
        Err(ErrorModel::ArgumentNotFound(k))
    } else {
        match duplicate(b, k, bundle_forms(av)) {
            Some(t) => Err(ErrorModel::DuplicateArgument(k, t)),
            None => if av.wf() {
                Ok(b.push(BoundModel { key: k, forms: bundle_forms(av), value: av.payload() }))
            } else {
                Err(ErrorModel::UnexpectedArgumentValue)
            },
        }
    }
}

/// Binding a value for each form the template requires of `k`, from position `i` of
/// the binding order on: the bindings made, and the error that stopped it, if any.
pub open spec fn bind_from(
    ps: Seq<PieceModel>,
    b: Seq<BoundModel>,
    k: KeyModel,
    v: ValueModel,
    i: int,
) -> (Seq<BoundModel>, Option<ErrorModel>)
    decreases 10 - i,
{
    if i < 0 || i >= 10 {
        (b, None)
    } else {
        let t = form_order()[i];
        if !required(ps, k, t) {
            bind_from(ps, b, k, v, i + 1)
        } else if !offers(v, t) {
            (b, Some(ErrorModel::UnexpectedArgumentValue))
        } else {
            match duplicate(b, k, single_forms(t)) {
                Some(u) => (b, Some(ErrorModel::DuplicateArgument(k, u))),
                None => bind_from(
                    ps,
                    b.push(BoundModel { key: k, forms: single_forms(t), value: v }),
                    k,
                    v,
                    i + 1,
                ),
            }
        }
    }
}

/// Checked binding of a value: each form that the template requires of `k` gets a
/// binding of its own, through the smallest bundle, the one of that form alone.
pub open spec fn bind_value(ps: Seq<PieceModel>, b: Seq<BoundModel>, k: KeyModel, v: ValueModel) -> (
    Seq<BoundModel>,
    Option<ErrorModel>,
) {
    if !mentioned(ps, k) {
        (b, Some(ErrorModel::ArgumentNotFound(k)))
    } else {
        bind_from(ps, b, k, v, 0)
    }
}

/// The width or precision that the value bound to `k` gives.
pub open spec fn resolve_amount(b: Seq<BoundModel>, k: KeyModel) -> Result<nat, ErrorModel> {
    match lookup(b, k, Type::WidthOrPrecisionAmount) {
        None => Err(ErrorModel::ArgumentNotFound(k)),
        Some(v) => match amount_of(v) {
            None => Err(ErrorModel::UnexpectedArgumentValue),
            Some(n) => Ok(n),
        },
    }
}

pub open spec fn default_options() -> FieldOptions {
    FieldOptions {
        fill: ' ',
        alignment: Alignment::Auto,
        sign: false,
        alternate: false,
        pad_zero: false,
        width: 0,
        precision: None,
    }
}

/// The layout of a placeholder's field, with dynamic width and precision looked up.
pub open spec fn field_options(sp: Option<SpecifierModel>, b: Seq<BoundModel>) -> Result<
    FieldOptions,
    ErrorModel,
> {
    match sp {
        None => Ok(default_options()),
        Some(sp) => {
            let width: Result<nat, ErrorModel> = match sp.width {
                WidthModel::Fixed(n) => Ok(n),
                WidthModel::Dynamic(k) => resolve_amount(b, k),
            };
            let precision: Result<Option<nat>, ErrorModel> = match sp.precision {
                PrecisionModel::Auto => Ok(None),
                PrecisionModel::Fixed(n) => Ok(Some(n)),
                PrecisionModel::Dynamic(k) => match resolve_amount(b, k) {
                    Ok(n) => Ok(Some(n)),
                    Err(e) => Err(e),
                },
            };
            match width {
                Err(e) => Err(e),
                Ok(w) => match precision {
                    Err(e) => Err(e),
                    Ok(p) => Ok(
                        FieldOptions {
                            fill: sp.fill_character,
                            alignment: sp.alignment,
                            sign: sp.sign,
                            alternate: sp.alternate_form,
                            pad_zero: sp.pad_zero,
                            width: w as usize,
                            precision: match p {
                                Some(n) => Some(n as u16),
                                None => None,
                            },
                        },
                    ),
                },
            }
        },
    }
}

/// What one piece renders to.
pub open spec fn render_piece(p: PieceModel, b: Seq<BoundModel>) -> Result<Seq<char>, ErrorModel> {
    match p {
        PieceModel::Literal(s) => Ok(s),
        PieceModel::BracketOpen => Ok(seq!['{']),
        PieceModel::BracketClose => Ok(seq!['}']),
        PieceModel::Argument { key, specifier } => {
            let t = form_of(specifier);
            match lookup(b, key, t) {
                None => Err(ErrorModel::ArgumentNotFound(key)),
                Some(v) => match field_options(specifier, b) {
                    Err(e) => Err(e),
                    Ok(o) => match render_value(v, t, o) {
                        None => Err(ErrorModel::UnexpectedArgumentValue),
                        Some(s) => Ok(s),
                    },
                },
            }
        },
    }
}

/// What the pieces from position `i` on render to; the first error stops it.
pub open spec fn render_from(ps: Seq<PieceModel>, b: Seq<BoundModel>, i: int) -> Result<Seq<char>, ErrorModel>
    decreases ps.len() - i,
{
    if i < 0 || i >= ps.len() {
        Ok(seq![])
    } else {
        match render_piece(ps[i], b) {
            Err(e) => Err(e),
            Ok(s) => match render_from(ps, b, i + 1) {
                Err(e) => Err(e),
                Ok(rest) => Ok(s + rest),
            },
        }
    }
}

/// What a template renders to with the given bindings.
pub open spec fn render(ps: Seq<PieceModel>, b: Seq<BoundModel>) -> Result<Seq<char>, ErrorModel> {
    render_from(ps, b, 0)
}

/// The values bound for one render of a template.
pub struct Arguments<'ct> {
    pub template: &'ct Template,
    pub argument_values: Vec<(ArgumentKey, ArgumentValue)>,
}

impl<'ct> View for Arguments<'ct> {
    type V = Seq<BoundModel>;

    open spec fn view(&self) -> Seq<BoundModel> {
        bindings_view(self.argument_values@)
    }
}

fn first_shared_exec(a: &ArgumentTypeRequirements, c: &ArgumentTypeRequirements) -> (r: Option<Type>)
    ensures
        r == first_shared(*a, *c),
{
    let order = [
        Type::Display,
        Type::Debug,
        Type::Pointer,
        Type::Binary,
        Type::Octal,
        Type::LowerHex,
        Type::UpperHex,
        Type::LowerExp,
        Type::UpperExp,
        Type::WidthOrPrecisionAmount,
    ];
    assert(order@ =~= form_order());
    let mut i: usize = 0;
    while i < 10
        invariant
            i <= 10,
            order@ == form_order(),
            first_shared(*a, *c) == first_shared_from(*a, *c, i as int),
        decreases 10 - i,
    {
        let t = order[i];
        if a.contains(t) && c.contains(t) {
            return Some(t);
        }
        i = i + 1;
    }
    None
}

impl<'ct> Arguments<'ct> {
    /// The template must match its requirement table.
    pub open spec fn wf(&self) -> bool {
        self.template.wf()
    }

    /// An empty set of bindings for `template`.
    pub fn new(template: &'ct Template) -> (r: Self)
        requires
            template.wf(),
        ensures
            r.wf(),
            r.template == template,
            r@ == Seq::<BoundModel>::empty(),
    {
        let r = Arguments { template, argument_values: Vec::new() };
        assert(r@ =~= Seq::<BoundModel>::empty());
        r
    }

    /// The first binding of `key` for form `ty`, or `ArgumentNotFound`.
    fn find_argument_value(&self, key: &ArgumentKey, ty: Type) -> (r: Result<&ArgumentValue, Error>)
        ensures
            match lookup(self@, key@, ty) {
                Some(v) => r matches Ok(av) && av.payload() == v && bundle_forms(*av).has(ty),
                None => r matches Err(e) && e@ == ErrorModel::ArgumentNotFound(key@),
            },
    {
        let mut j: usize = 0;
        while j < self.argument_values.len()
            invariant
                j <= self.argument_values@.len(),
                lookup(self@, key@, ty) == lookup_from(self@, key@, ty, j as int),
                self@.len() == self.argument_values@.len(),
            decreases self.argument_values@.len() - j,
        {
            let entry = &self.argument_values[j];
            assert(self@[j as int] == bound_view(self.argument_values@[j as int]));
            if entry.0.same_as(key) && entry.1.bundles(ty) {
                return Ok(&entry.1);
            }
            j = j + 1;
        }
        Err(Error::ArgumentNotFound(key.to_argument_key()))
    }

    /// The form in which binding `key` for `forms` would repeat an earlier binding.
    fn find_duplicate(&self, key: &ArgumentKey, forms: &ArgumentTypeRequirements) -> (r: Option<Type>)
        ensures
            r == duplicate(self@, key@, *forms),
    {
        let mut j: usize = 0;
        while j < self.argument_values.len()
            invariant
                j <= self.argument_values@.len(),
                duplicate(self@, key@, *forms) == duplicate_from(self@, key@, *forms, j as int),
                self@.len() == self.argument_values@.len(),
            decreases self.argument_values@.len() - j,
        {
            let entry = &self.argument_values[j];
            assert(self@[j as int] == bound_view(self.argument_values@[j as int]));
            if entry.0.same_as(key) {
                let bound = entry.1.fullfills();
                let shared = first_shared_exec(&bound, forms);
                if shared.is_some() {
                    return shared;
                }
            }
            j = j + 1;
        }
        None
    }

    fn push_binding(&mut self, key: ArgumentKey, value: ArgumentValue)
        ensures
            final(self).template == old(self).template,
            final(self)@ == old(self)@.push(bound_view((key, value))),
    {
        let ghost before = self.argument_values@;
        self.argument_values.push((key, value));
        assert(bindings_view(self.argument_values@) =~= bindings_view(before).push(
            bound_view((key, value)),
        ));
    }

    /// Binds `value` to `key`, checked: the key must occur in the template, it must not
    /// be bound already for a form of the bundle, and the value must offer every form
    /// of its bundle. On error nothing changes.
    pub fn add_argument_value<K: ToArgumentKey>(&mut self, key: K, value: ArgumentValue) -> (r:
        Result<(), Error>)
        requires
            old(self).wf(),
        ensures
            final(self).wf(),
            final(self).template == old(self).template,
            match add_checked(old(self).template@, old(self)@, key.key_model(), value) {
                Ok(b) => r is Ok && final(self)@ == b,
                Err(e) => r matches Err(x) && x@ == e && final(self)@ == old(self)@,
            },
    {
        let argument_key = key.to_argument_key();
        match self.template.argument_type_requirements(&argument_key) {
            Ok(_) => {},
            Err(e) => return Err(e),
        }
        let forms = value.fullfills();
        match self.find_duplicate(&argument_key, &forms) {
            Some(ty) => {
                return Err(Error::DuplicateArgument(TypedArgumentKey::new(argument_key, ty)));
            },
            None => {},
        }
        if !value.is_well_formed() {
            return Err(Error::UnexpectedArgumentValue);
        }
        self.push_binding(argument_key, value);
        Ok(())
    }

    /// Binds `value` to `key` without any check; the first fitting binding wins when
    /// the template is rendered.
    pub fn add_argument_value_unchecked<K: ToArgumentKey>(&mut self, key: K, value: ArgumentValue)
        ensures
            final(self).template == old(self).template,
            final(self)@ == old(self)@.push(
                BoundModel { key: key.key_model(), forms: bundle_forms(value), value: value.payload() },
            ),
    {
        let argument_key = key.to_argument_key();
        self.push_binding(argument_key, value);
    }

    /// Binds `value` to `key`, checked, once for each form that the template requires
    /// of the key, each through the bundle of that form alone. Stops at the first
    /// error; the bindings made before it stay.
    pub fn bind<K: ToArgumentKey>(&mut self, key: K, value: &Value) -> (r: Result<(), Error>)
        requires
            old(self).wf(),
        ensures
            final(self).wf(),
            final(self).template == old(self).template,
            ({
                let (b, e) = bind_value(old(self).template@, old(self)@, key.key_model(), value@);
                &&& final(self)@ == b
                &&& match e {
                    None => r is Ok,
                    Some(e) => r matches Err(x) && x@ == e,
                }
            }),
    {
        let argument_key = key.to_argument_key();
        let requirements = match self.template.argument_type_requirements(&argument_key) {
            Ok(req) => *req,
            Err(e) => return Err(e),
        };
        let order = [
            Type::Display,
            Type::Debug,
            Type::Pointer,
            Type::Binary,
            Type::Octal,
            Type::LowerHex,
            Type::UpperHex,
            Type::LowerExp,
            Type::UpperExp,
            Type::WidthOrPrecisionAmount,
        ];
        assert(order@ =~= form_order());
        let ghost ps = self.template@;
        let ghost k = argument_key@;
        let mut i: usize = 0;
        while i < 10
            invariant
                i <= 10,
                order@ == form_order(),
                self.wf(),
                self.template == old(self).template,
                ps == self.template@,
                k == argument_key@,
                k == key.key_model(),
                mentioned(ps, k),
                forall|t: Type| #[trigger] requirements.has(t) == required(ps, k, t),
                bind_value(ps, old(self)@, k, value@) == bind_from(ps, self@, k, value@, i as int),
            decreases 10 - i,
        {
            let t = order[i];
            if requirements.contains(t) {
                if !value.offers(t) {
                    return Err(Error::UnexpectedArgumentValue);
                }
                let single = ArgumentValue::single(t, value.duplicate());
                let forms = single.fullfills();
                match self.find_duplicate(&argument_key, &forms) {
                    Some(u) => {
                        return Err(
                            Error::DuplicateArgument(
                                TypedArgumentKey::new(argument_key.to_argument_key(), u),
                            ),
                        );
                    },
                    None => {},
                }
                self.push_binding(argument_key.to_argument_key(), single);
            }
            i = i + 1;
        }
        Ok(())
    }

    /// The amount that the value bound to `key` gives as a width or precision.
    fn resolve_amount(&self, key: &ArgumentKey) -> (r: Result<u16, Error>)
        ensures
            match resolve_amount(self@, key@) {
                Ok(n) => r == Ok::<u16, Error>(n as u16) && n <= u16::MAX,
                Err(e) => r matches Err(x) && x@ == e,
            },
    {
        let av = match self.find_argument_value(key, Type::WidthOrPrecisionAmount) {
            Ok(av) => av,
            Err(e) => return Err(e),
        };
        match av.to_u16() {
            Some(n) => Ok(n),
            None => Err(Error::UnexpectedArgumentValue),
        }
    }

    /// The layout of a placeholder's field.
    fn field_options(&self, specifier: &Option<Specifier>) -> (r: Result<FieldOptions, Error>)
        ensures
            match field_options(
                match specifier {
                    Some(sp) => Some(sp@),
                    None => None,
                },
                self@,
            ) {
                Ok(o) => r == Ok::<FieldOptions, Error>(o),
                Err(e) => r matches Err(x) && x@ == e,
            },
    {
        match specifier {
            None => Ok(
                FieldOptions {
                    fill: ' ',
                    alignment: Alignment::Auto,
                    sign: false,
                    alternate: false,
                    pad_zero: false,
                    width: 0,
                    precision: None,
                },
            ),
            Some(sp) => {
                let mut o = sp.formatting_options();
                match &sp.width {
                    Width::Dynamic(k) => match self.resolve_amount(k) {
                        Ok(n) => {
                            o.width = n as usize;
                        },
                        Err(e) => return Err(e),
                    },
                    Width::Fixed(_) => {},
                }
                match &sp.precision {
                    Precision::Dynamic(k) => match self.resolve_amount(k) {
                        Ok(n) => {
                            o.precision = Some(n);
                        },
                        Err(e) => return Err(e),
                    },
                    _ => {},
                }
                Ok(o)
            },
        }
    }

    /// Appends what one piece renders to.
    fn render_piece_into(&self, out: &mut Vec<char>, piece: &Piece) -> (r: Result<(), Error>)
        ensures
            match render_piece(piece@, self@) {
                Ok(s) => r is Ok && final(out)@ == old(out)@ + s,
                Err(e) => r matches Err(x) && x@ == e,
            },
    {
        match piece {
            Piece::Literal(s) => {
                let chars = crate::text::chars_of(s.as_str());
                let mut i: usize = 0;
                while i < chars.len()
                    invariant
                        i <= chars@.len(),
                        out@ == old(out)@ + chars@.take(i as int),
                    decreases chars@.len() - i,
                {
                    out.push(chars[i]);
                    i = i + 1;
                    assert(chars@.take(i as int) =~= chars@.take(i - 1).push(chars@[i - 1]));
                }
                assert(chars@.take(chars@.len() as int) =~= chars@);
                Ok(())
            },
            Piece::BracketOpen => {
                out.push('{');
                assert(out@ =~= old(out)@ + seq!['{']);
                Ok(())
            },
            Piece::BracketClose => {
                out.push('}');
                assert(out@ =~= old(out)@ + seq!['}']);
                Ok(())
            },
            Piece::Argument { key, specifier } => {
                let ty = match specifier {
                    Some(sp) => sp.ty,
                    None => Type::Display,
                };
                let av = match self.find_argument_value(key, ty) {
                    Ok(av) => av,
                    Err(e) => return Err(e),
                };
                let o = match self.field_options(specifier) {
                    Ok(o) => o,
                    Err(e) => return Err(e),
                };
                if push_value(out, av.value(), ty, o) {
                    Ok(())
                } else {
                    Err(Error::UnexpectedArgumentValue)
                }
            },
        }
    }

    /// Renders the template with the bound values.
    pub fn format(&self) -> (r: Result<String, Error>)
        requires
            self.wf(),
        ensures
            match render(self.template@, self@) {
                Ok(s) => r matches Ok(x) && x@ == s,
                Err(e) => r matches Err(x) && x@ == e,
            },
    {
        let pieces = self.template.pieces();
        let ghost ps = self.template@;
        let mut out: Vec<char> = Vec::new();
        let mut i: usize = 0;
        while i < pieces.len()
            invariant
                i <= pieces@.len(),
                ps == self.template@,
                crate::piece::pieces_view(pieces@) == ps,
                render(ps, self@) == (match render_from(ps, self@, i as int) {
                    Ok(rest) => Ok(out@ + rest),
                    Err(e) => Err(e),
                }),
            decreases pieces@.len() - i,
        {
            let ghost before = out@;
            assert(ps[i as int] == pieces@[i as int]@);
            match self.render_piece_into(&mut out, &pieces[i]) {
                Ok(()) => {},
                Err(e) => return Err(e),
            }
            proof {
                let piece_text = render_piece(ps[i as int], self@)->Ok_0;
                assert(out@ == before + piece_text);
                match render_from(ps, self@, i + 1) {
                    Ok(rest) => {
                        assert(before + (piece_text + rest) =~= out@ + rest);
                    },
                    Err(_) => {},
                }
            }
            i = i + 1;
        }
        assert(out@ + Seq::<char>::empty() =~= out@);
        Ok(string_of(&out))
    }

    /// Starts a chain of checked builder calls.
    pub fn builder(self) -> (r: Result<Self, Error>)
        ensures
            r matches Ok(a) && a == self,
    {
        Ok(self)
    }

    /// Starts a chain of unchecked builder calls.
    pub fn builder_unchecked(self) -> (r: Self)
        ensures
            r == self,
    {
        self
    }
}

} // verus!
