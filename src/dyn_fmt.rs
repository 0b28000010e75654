//! Rendering in one call, from a template or from template text, with a list of bindings.
use vstd::prelude::*;

use crate::arguments::{add_checked, render, BoundModel};
use crate::error::{Error, ErrorModel};
use crate::key::{ArgumentKey, KeyModel, ToArgumentKey};
use crate::piece::{parse_pieces, PieceModel};
use crate::template::Template;
use crate::value::{bundle_forms, ArgumentValue};

verus! {

pub open spec fn entries_view(v: Seq<(ArgumentKey, ArgumentValue)>) -> Seq<(KeyModel, ArgumentValue)> {
    v.map_values(|e: (ArgumentKey, ArgumentValue)| (e.0@, e.1))
}

/// Checked binding of each entry in turn; the first error stops it.
pub open spec fn add_all(ps: Seq<PieceModel>, vals: Seq<(KeyModel, ArgumentValue)>) -> Result<
    Seq<BoundModel>,
    ErrorModel,
>
    decreases vals.len(),
{
    if vals.len() == 0 {
        Ok(seq![])
    } else {
        match add_all(ps, vals.drop_last()) {
            Err(e) => Err(e),
            Ok(b) => add_checked(ps, b, vals.last().0, vals.last().1),
        }
    }
}

/// What a template renders to with the entries bound, checked, in order.
pub open spec fn format_checked(ps: Seq<PieceModel>, vals: Seq<(KeyModel, ArgumentValue)>) -> Result<
    Seq<char>,
    ErrorModel,
> {
    match add_all(ps, vals) {
        Err(e) => Err(e),
        Ok(b) => render(ps, b),
    }
}

/// The bindings that unchecked binding of the entries makes: one per entry, in order.
pub open spec fn bindings_unchecked(vals: Seq<(KeyModel, ArgumentValue)>) -> Seq<BoundModel> {
    vals.map_values(
        |e: (KeyModel, ArgumentValue)|
            BoundModel { key: e.0, forms: bundle_forms(e.1), value: e.1.payload() },
    )
}

/// Rendering in one call from a list of bindings.
pub trait DynFmt {
    /// The receiver can be used: a template must match its requirement table.
    spec fn ready(&self) -> bool;

    /// The pieces the receiver denotes, or `None` when it does not parse.
    spec fn template_model(&self) -> Option<Seq<PieceModel>>;

    /// Binds each entry, checked and in order, then renders.
    fn format(&self, argument_values: Vec<(ArgumentKey, ArgumentValue)>) -> (r: Result<String, Error>)
        requires
            self.ready(),
        ensures
            match self.template_model() {
                None => r matches Err(x) && x@ == ErrorModel::UnexpectedToken,
                Some(ps) => match format_checked(ps, entries_view(argument_values@)) {
                    Ok(s) => r matches Ok(x) && x@ == s,
                    Err(e) => r matches Err(x) && x@ == e,
                },
            },
    ;

    /// Binds each entry without checks, then renders; a mismatch shows only here,
    /// as the render's error.
    fn format_unchecked(&self, argument_values: Vec<(ArgumentKey, ArgumentValue)>) -> (r: Result<
        String,
        Error,
    >)
        requires
            self.ready(),
        ensures
            match self.template_model() {
                None => r matches Err(x) && x@ == ErrorModel::UnexpectedToken,
                Some(ps) => match render(ps, bindings_unchecked(entries_view(argument_values@))) {
                    Ok(s) => r matches Ok(x) && x@ == s,
                    Err(e) => r matches Err(x) && x@ == e,
                },
            },
    ;
}

impl DynFmt for Template {
    open spec fn ready(&self) -> bool {
        self.wf()
    }

    open spec fn template_model(&self) -> Option<Seq<PieceModel>> {
        Some(self@)
    }

    fn format(&self, argument_values: Vec<(ArgumentKey, ArgumentValue)>) -> (r: Result<String, Error>) {
        let ghost vals = entries_view(argument_values@);
        let ghost ps = self@;
        let mut arguments = self.arguments();
        let mut i: usize = 0;
        while i < argument_values.len()
            invariant
                i <= argument_values@.len(),
                vals == entries_view(argument_values@),
                ps == self@,
                arguments.wf(),
                arguments.template == self,
                add_all(ps, vals.take(i as int)) == Ok::<Seq<BoundModel>, ErrorModel>(arguments@),
            decreases argument_values@.len() - i,
        {
            let key = argument_values[i].0.to_argument_key();
            let value = argument_values[i].1.duplicate();
            assert(vals.take(i + 1).drop_last() =~= vals.take(i as int));
            assert(vals.take(i + 1).last() == vals[i as int]);
            match arguments.add_argument_value(key, value) {
                Ok(()) => {},
                Err(e) => {
                    proof {
                        lemma_add_all_stops(ps, vals, i as int + 1);
                    }
                    return Err(e);
                },
            }
            i = i + 1;
        }
        assert(vals.take(argument_values@.len() as int) =~= vals);
        arguments.format()
    }

    fn format_unchecked(&self, argument_values: Vec<(ArgumentKey, ArgumentValue)>) -> (r: Result<
        String,
        Error,
    >) {
        let ghost vals = entries_view(argument_values@);
        let mut arguments = self.arguments();
        let mut i: usize = 0;
        assert(bindings_unchecked(vals.take(0)) =~= arguments@);
        while i < argument_values.len()
            invariant
                i <= argument_values@.len(),
                vals == entries_view(argument_values@),
                arguments.wf(),
                arguments.template == self,
                arguments@ == bindings_unchecked(vals.take(i as int)),
            decreases argument_values@.len() - i,
        {
            let key = argument_values[i].0.to_argument_key();
            let value = argument_values[i].1.duplicate();
            arguments.add_argument_value_unchecked(key, value);
            i = i + 1;
            assert(arguments@ =~= bindings_unchecked(vals.take(i as int)));
        }
        assert(vals.take(argument_values@.len() as int) =~= vals);
        arguments.format()
    }
}

/// Once a binding fails, binding more entries fails the same way.
proof fn lemma_add_all_stops(ps: Seq<PieceModel>, vals: Seq<(KeyModel, ArgumentValue)>, i: int)
    requires
        0 <= i <= vals.len(),
        add_all(ps, vals.take(i)) is Err,
    ensures
        add_all(ps, vals) == add_all(ps, vals.take(i)),
    decreases vals.len() - i,
{
    if i < vals.len() {
        assert(vals.take(i + 1).drop_last() =~= vals.take(i));
        lemma_add_all_stops(ps, vals, i + 1);
    } else {
        assert(vals.take(i) =~= vals);
    }
}

impl<'a> DynFmt for &'a str {
    open spec fn ready(&self) -> bool {
        true
    }

    open spec fn template_model(&self) -> Option<Seq<PieceModel>> {
        parse_pieces((**self)@)
    }

    fn format(&self, argument_values: Vec<(ArgumentKey, ArgumentValue)>) -> (r: Result<String, Error>) {
        let template = match Template::parse(*self) {
            Ok(t) => t,
            Err(e) => return Err(e),
        };
        template.format(argument_values)
    }

    fn format_unchecked(&self, argument_values: Vec<(ArgumentKey, ArgumentValue)>) -> (r: Result<
        String,
        Error,
    >) {
        let template = match Template::parse(*self) {
            Ok(t) => t,
            Err(e) => return Err(e),
        };
        template.format_unchecked(argument_values)
    }
}

impl DynFmt for String {
    open spec fn ready(&self) -> bool {
        true
    }

    open spec fn template_model(&self) -> Option<Seq<PieceModel>> {
        parse_pieces(self@)
    }

    fn format(&self, argument_values: Vec<(ArgumentKey, ArgumentValue)>) -> (r: Result<String, Error>) {
        let template = match Template::parse(self.as_str()) {
            Ok(t) => t,
            Err(e) => return Err(e),
        };
        template.format(argument_values)
    }

    fn format_unchecked(&self, argument_values: Vec<(ArgumentKey, ArgumentValue)>) -> (r: Result<
        String,
        Error,
    >) {
        let template = match Template::parse(self.as_str()) {
            Ok(t) => t,
            Err(e) => return Err(e),
        };
        template.format_unchecked(argument_values)
    }
}

/// Something that denotes a template: a template itself, or its text.
pub trait ToTemplate: Sized {
    /// The pieces the receiver denotes, or `None` when it does not parse.
    spec fn template_model(self) -> Option<Seq<PieceModel>>;

    /// The receiver can be used: a template must match its requirement table.
    spec fn ready(self) -> bool;

    fn to_template(self) -> (r: Result<Template, Error>)
        requires
            self.ready(),
        ensures
            match self.template_model() {
                Some(ps) => r matches Ok(t) && t.wf() && t@ == ps,
                None => r matches Err(x) && x@ == ErrorModel::UnexpectedToken,
            },
    ;
}

impl ToTemplate for Template {
    open spec fn template_model(self) -> Option<Seq<PieceModel>> {
        Some(self@)
    }

    open spec fn ready(self) -> bool {
        self.wf()
    }

    fn to_template(self) -> (r: Result<Template, Error>) {
        Ok(self)
    }
}

impl<'a> ToTemplate for &'a str {
    open spec fn template_model(self) -> Option<Seq<PieceModel>> {
        parse_pieces(self@)
    }

    open spec fn ready(self) -> bool {
        true
    }

    fn to_template(self) -> (r: Result<Template, Error>) {
        Template::parse(self)
    }
}

} // verus!
