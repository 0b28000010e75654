//! A parsed template and the table of forms that each key is required to render as.
use vstd::prelude::*;

use crate::arguments::{Arguments, BoundModel};
use crate::error::Error;
use crate::form::{ArgumentTypeRequirements, Type};
use crate::key::{ArgumentKey, KeyModel, ToArgumentKey};
use crate::piece::{parse_pieces, pieces_view, Piece, PieceModel};
use crate::specifier::{PrecisionModel, Specifier, SpecifierModel, Precision, Width, WidthModel};
use crate::text::{chars_of, string_of};

verus! {

/// The form a placeholder renders its value in.
pub open spec fn form_of(specifier: Option<SpecifierModel>) -> Type {
    match specifier {
        Some(sp) => sp.ty,
        None => Type::Display,
    }
}

/// The piece asks key `k` to render as form `t`: as its own value, or as the
/// amount of a dynamic width or precision.
pub open spec fn piece_requires(p: PieceModel, k: KeyModel, t: Type) -> bool {
    match p {
        PieceModel::Argument { key, specifier } => (key == k && t == form_of(specifier)) || (t
            == Type::WidthOrPrecisionAmount && match specifier {
            Some(sp) => sp.width == WidthModel::Dynamic(k) || sp.precision
                == PrecisionModel::Dynamic(k),
            None => false,
        }),
        _ => false,
    }
}

/// The piece refers to key `k`.
pub open spec fn piece_mentions(p: PieceModel, k: KeyModel) -> bool {
    match p {
        PieceModel::Argument { key, specifier } => key == k || match specifier {
            Some(sp) => sp.width == WidthModel::Dynamic(k) || sp.precision
                == PrecisionModel::Dynamic(k),
            None => false,
        },
        _ => false,
    }
}

/// Some piece asks key `k` to render as form `t`.
pub open spec fn required(ps: Seq<PieceModel>, k: KeyModel, t: Type) -> bool {
    exists|i: int| 0 <= i < ps.len() && #[trigger] piece_requires(ps[i], k, t)
}

/// Some piece refers to key `k`.
pub open spec fn mentioned(ps: Seq<PieceModel>, k: KeyModel) -> bool {
    exists|i: int| 0 <= i < ps.len() && #[trigger] piece_mentions(ps[i], k)
}

pub type RequirementTable = Vec<(ArgumentKey, ArgumentTypeRequirements)>;

pub open spec fn keys_unique(reqs: Seq<(ArgumentKey, ArgumentTypeRequirements)>) -> bool {
    forall|a: int, b: int|
        0 <= a < reqs.len() && 0 <= b < reqs.len() && #[trigger] reqs[a].0@ == #[trigger] reqs[b].0@
            ==> a == b
}

pub open spec fn table_has_key(reqs: Seq<(ArgumentKey, ArgumentTypeRequirements)>, k: KeyModel) -> bool {
    exists|j: int| 0 <= j < reqs.len() && #[trigger] reqs[j].0@ == k
}

pub open spec fn table_requires(
    reqs: Seq<(ArgumentKey, ArgumentTypeRequirements)>,
    k: KeyModel,
    t: Type,
) -> bool {
    exists|j: int| 0 <= j < reqs.len() && #[trigger] reqs[j].0@ == k && reqs[j].1.has(t)
}

/// The table lists each key that the pieces refer to once, with exactly the forms
/// that the pieces ask of it.
pub open spec fn describes(
    reqs: Seq<(ArgumentKey, ArgumentTypeRequirements)>,
    ps: Seq<PieceModel>,
) -> bool {
    &&& keys_unique(reqs)
    &&& forall|k: KeyModel| #[trigger] table_has_key(reqs, k) == mentioned(ps, k)
    &&& forall|k: KeyModel, t: Type| #[trigger] table_requires(reqs, k, t) == required(ps, k, t)
}

proof fn lemma_required_push(ps: Seq<PieceModel>, p: PieceModel)
    ensures
        forall|k: KeyModel, t: Type|
            #[trigger] required(ps.push(p), k, t) == (required(ps, k, t) || piece_requires(p, k, t)),
        forall|k: KeyModel|
            #[trigger] mentioned(ps.push(p), k) == (mentioned(ps, k) || piece_mentions(p, k)),
{
    let qs = ps.push(p);
    assert forall|k: KeyModel, t: Type| #[trigger]
        required(qs, k, t) == (required(ps, k, t) || piece_requires(p, k, t)) by {
        if required(qs, k, t) {
            let i = choose|i: int| 0 <= i < qs.len() && #[trigger] piece_requires(qs[i], k, t);
            if i < ps.len() {
                assert(piece_requires(ps[i], k, t));
            }
        }
        if required(ps, k, t) {
            let i = choose|i: int| 0 <= i < ps.len() && #[trigger] piece_requires(ps[i], k, t);
            assert(piece_requires(qs[i], k, t));
        }
        if piece_requires(p, k, t) {
            assert(piece_requires(qs[ps.len() as int], k, t));
        }
    }
    assert forall|k: KeyModel| #[trigger]
        mentioned(qs, k) == (mentioned(ps, k) || piece_mentions(p, k)) by {
        if mentioned(qs, k) {
            let i = choose|i: int| 0 <= i < qs.len() && #[trigger] piece_mentions(qs[i], k);
            if i < ps.len() {
                assert(piece_mentions(ps[i], k));
            }
        }
        if mentioned(ps, k) {
            let i = choose|i: int| 0 <= i < ps.len() && #[trigger] piece_mentions(ps[i], k);
            assert(piece_mentions(qs[i], k));
        }
        if piece_mentions(p, k) {
            assert(piece_mentions(qs[ps.len() as int], k));
        }
    }
}

/// The position of `key`'s entry in the table, if it has one.
fn find_entry(requirements: &RequirementTable, key: &ArgumentKey) -> (r: Option<usize>)
    ensures
        r matches Some(j) ==> j < requirements@.len() && requirements@[j as int].0@ == key@,
        r is None ==> !table_has_key(requirements@, key@),
{
    let mut j: usize = 0;
    while j < requirements.len()
        invariant
            j <= requirements@.len(),
            forall|i: int| 0 <= i < j ==> #[trigger] requirements@[i].0@ != key@,
        decreases requirements@.len() - j,
    {
        if requirements[j].0.same_as(key) {
            return Some(j);
        }
        j = j + 1;
    }
    None
}

/// Adds form `ty` to the entry of `key`, making an entry when there is none.
fn add_requirement(requirements: &mut RequirementTable, key: &ArgumentKey, ty: Type)
    requires
        keys_unique(old(requirements)@),
    ensures
        keys_unique(final(requirements)@),
        forall|k: KeyModel| #[trigger]
            table_has_key(final(requirements)@, k) == (table_has_key(old(requirements)@, k) || k
                == key@),
        forall|k: KeyModel, t: Type| #[trigger]
            table_requires(final(requirements)@, k, t) == (table_requires(old(requirements)@, k, t)
                || (k == key@ && t == ty)),
{
    let ghost old_reqs = requirements@;
    match find_entry(requirements, key) {
        Some(j) => {
            let mut entry = requirements[j].1;
            entry.add_requirement(ty);
            let k = requirements[j].0.to_argument_key();
            requirements.set(j, (k, entry));
            proof {
                let reqs = requirements@;
                assert forall|a: int, b: int|
                    0 <= a < reqs.len() && 0 <= b < reqs.len() && #[trigger] reqs[a].0@
                        == #[trigger] reqs[b].0@ implies a == b by {
                    assert(old_reqs[a].0@ == reqs[a].0@);
                    assert(old_reqs[b].0@ == reqs[b].0@);
                }
                assert forall|k: KeyModel| #[trigger]
                    table_has_key(reqs, k) == (table_has_key(old_reqs, k) || k == key@) by {
                    if table_has_key(reqs, k) {
                        let i = choose|i: int| 0 <= i < reqs.len() && #[trigger] reqs[i].0@ == k;
                        assert(old_reqs[i].0@ == k);
                    }
                    if table_has_key(old_reqs, k) {
                        let i = choose|i: int| 0 <= i < old_reqs.len() && #[trigger] old_reqs[i].0@
                            == k;
                        assert(reqs[i].0@ == k);
                    }
                    if k == key@ {
                        assert(reqs[j as int].0@ == k);
                    }
                }
                assert forall|k: KeyModel, t: Type| #[trigger]
                    table_requires(reqs, k, t) == (table_requires(old_reqs, k, t) || (k == key@
                        && t == ty)) by {
                    if table_requires(reqs, k, t) {
                        let i = choose|i: int|
                            0 <= i < reqs.len() && #[trigger] reqs[i].0@ == k && reqs[i].1.has(t);
                        if i != j {
                            assert(old_reqs[i].0@ == k && old_reqs[i].1.has(t));
                        } else if t != ty {
                            assert(old_reqs[i].0@ == k && old_reqs[i].1.has(t));
                        }
                    }
                    if table_requires(old_reqs, k, t) {
                        let i = choose|i: int|
                            0 <= i < old_reqs.len() && #[trigger] old_reqs[i].0@ == k
                                && old_reqs[i].1.has(t);
                        assert(reqs[i].0@ == k && reqs[i].1.has(t));
                    }
                    if k == key@ && t == ty {
                        assert(reqs[j as int].0@ == k && reqs[j as int].1.has(t));
                    }
                }
            }
        },
        None => {
            let mut entry = ArgumentTypeRequirements::none();
            entry.add_requirement(ty);
            requirements.push((key.to_argument_key(), entry));
            proof {
                let reqs = requirements@;
                let n = old_reqs.len() as int;
                assert(reqs[n].0@ == key@);
                assert forall|a: int, b: int|
                    0 <= a < reqs.len() && 0 <= b < reqs.len() && #[trigger] reqs[a].0@
                        == #[trigger] reqs[b].0@ implies a == b by {
                    if a < n {
                        assert(old_reqs[a].0@ == reqs[a].0@);
                    }
                    if b < n {
                        assert(old_reqs[b].0@ == reqs[b].0@);
                    }
                }
                assert forall|k: KeyModel| #[trigger]
                    table_has_key(reqs, k) == (table_has_key(old_reqs, k) || k == key@) by {
                    if table_has_key(reqs, k) {
                        let i = choose|i: int| 0 <= i < reqs.len() && #[trigger] reqs[i].0@ == k;
                        if i < n {
                            assert(old_reqs[i].0@ == k);
                        }
                    }
                    if table_has_key(old_reqs, k) {
                        let i = choose|i: int| 0 <= i < old_reqs.len() && #[trigger] old_reqs[i].0@
                            == k;
                        assert(reqs[i].0@ == k);
                    }
                }
                assert forall|k: KeyModel, t: Type| #[trigger]
                    table_requires(reqs, k, t) == (table_requires(old_reqs, k, t) || (k == key@
                        && t == ty)) by {
                    if table_requires(reqs, k, t) {
                        let i = choose|i: int|
                            0 <= i < reqs.len() && #[trigger] reqs[i].0@ == k && reqs[i].1.has(t);
                        if i < n {
                            assert(old_reqs[i].0@ == k && old_reqs[i].1.has(t));
                        }
                    }
                    if table_requires(old_reqs, k, t) {
                        let i = choose|i: int|
                            0 <= i < old_reqs.len() && #[trigger] old_reqs[i].0@ == k
                                && old_reqs[i].1.has(t);
                        assert(reqs[i].0@ == k && reqs[i].1.has(t));
                    }
                    if k == key@ && t == ty {
                        assert(reqs[n].0@ == k && reqs[n].1.has(t));
                    }
                }
            }
        },
    }
}

/// Records in the table what one piece asks of its keys.
fn record_piece(requirements: &mut RequirementTable, piece: &Piece)
    requires
        keys_unique(old(requirements)@),
    ensures
        keys_unique(final(requirements)@),
        forall|k: KeyModel| #[trigger]
            table_has_key(final(requirements)@, k) == (table_has_key(old(requirements)@, k)
                || piece_mentions(piece@, k)),
        forall|k: KeyModel, t: Type| #[trigger]
            table_requires(final(requirements)@, k, t) == (table_requires(old(requirements)@, k, t)
                || piece_requires(piece@, k, t)),
{
    match piece {
        Piece::Argument { key, specifier } => match specifier {
            Some(sp) => {
                add_requirement(requirements, key, sp.ty);
                match &sp.precision {
                    Precision::Dynamic(pk) => add_requirement(
                        requirements,
                        pk,
                        Type::WidthOrPrecisionAmount,
                    ),
                    _ => {},
                }
                match &sp.width {
                    Width::Dynamic(wk) => add_requirement(
                        requirements,
                        wk,
                        Type::WidthOrPrecisionAmount,
                    ),
                    _ => {},
                }
            },
            None => add_requirement(requirements, key, Type::Display),
        },
        _ => {},
    }
}

/// A parsed template: its pieces, and for each key the forms that it must render as.
/// Built once, then rendered any number of times.
#[derive(Debug, Clone)]
pub struct Template {
    pieces: Vec<Piece>,
    requirements: RequirementTable,
}

impl View for Template {
    type V = Seq<PieceModel>;

    closed spec fn view(&self) -> Seq<PieceModel> {
        pieces_view(self.pieces@)
    }
}

impl Template {
    /// The requirement table matches the pieces.
    pub closed spec fn wf(&self) -> bool {
        describes(self.requirements@, self@)
    }

    /// An empty template, to be filled with the builders.
    pub fn new() -> (r: Self)
        ensures
            r.wf(),
            r@ == Seq::<PieceModel>::empty(),
    {
        let r = Template { pieces: Vec::new(), requirements: Vec::new() };
        assert(r@ =~= Seq::<PieceModel>::empty());
        r
    }

    /// Appends a piece, recording what it asks of its keys.
    fn push_piece(&mut self, piece: Piece)
        requires
            old(self).wf(),
        ensures
            final(self).wf(),
            final(self)@ == old(self)@.push(piece@),
    {
        let ghost old_ps = self@;
        record_piece(&mut self.requirements, &piece);
        self.pieces.push(piece);
        proof {
            assert(self@ =~= old_ps.push(piece@));
            lemma_required_push(old_ps, piece@);
        }
    }

    /// Parses a template string.
    pub fn parse(template: &str) -> (r: Result<Self, Error>)
        ensures
            match parse_pieces(template@) {
                Some(ps) => r matches Ok(t) && t.wf() && t@ == ps,
                None => r == Err::<Self, Error>(Error::UnexpectedToken),
            },
    {
        let pieces = match Piece::parse(template) {
            Ok(ps) => ps,
            Err(e) => return Err(e),
        };
        let mut requirements: RequirementTable = Vec::new();
        let mut i: usize = 0;
        assert(pieces_view(pieces@.subrange(0, 0)) =~= Seq::<PieceModel>::empty());
        while i < pieces.len()
            invariant
                i <= pieces@.len(),
                describes(requirements@, pieces_view(pieces@.subrange(0, i as int))),
            decreases pieces@.len() - i,
        {
            let ghost before = pieces_view(pieces@.subrange(0, i as int));
            record_piece(&mut requirements, &pieces[i]);
            proof {
                assert(pieces_view(pieces@.subrange(0, i + 1)) =~= before.push(pieces@[i as int]@));
                lemma_required_push(before, pieces@[i as int]@);
            }
            i = i + 1;
        }
        assert(pieces@.subrange(0, pieces@.len() as int) =~= pieces@);
        Ok(Template { pieces, requirements })
    }

    /// Parses a template string; the same as [`Template::parse`].
    pub fn parse_str(template: &str) -> (r: Result<Self, Error>)
        ensures
            match parse_pieces(template@) {
                Some(ps) => r matches Ok(t) && t.wf() && t@ == ps,
                None => r == Err::<Self, Error>(Error::UnexpectedToken),
            },
    {
        Template::parse(template)
    }

    /// An empty set of bindings for rendering this template.
    pub fn arguments(&self) -> (r: Arguments<'_>)
        requires
            self.wf(),
        ensures
            r.wf(),
            r.template == self,
            r@ == Seq::<BoundModel>::empty(),
    {
        Arguments::new(self)
    }

    /// The pieces in render order.
    pub fn pieces(&self) -> (r: &Vec<Piece>)
        ensures
            pieces_view(r@) == self@,
    {
        &self.pieces
    }

    /// Returns the template itself, for callers that take a template or a string alike.
    pub fn to_template(&self) -> (r: Result<&Self, Error>)
        ensures
            r == Ok::<&Self, Error>(self),
    {
        Ok(self)
    }

    /// Builder that appends literal text.
    pub fn literal(self, literal: &str) -> (r: Self)
        requires
            self.wf(),
        ensures
            r.wf(),
            r@ == self@.push(PieceModel::Literal(literal@)),
    {
        let mut t = self;
        let text = string_of(&chars_of(literal));
        t.push_piece(Piece::Literal(text));
        t
    }

    /// Builder that appends a placeholder with a specifier.
    pub fn specified_argument<K: ToArgumentKey>(self, key: K, specifier: Specifier) -> (r: Self)
        requires
            self.wf(),
        ensures
            r.wf(),
            r@ == self@.push(
                PieceModel::Argument { key: key.key_model(), specifier: Some(specifier@) },
            ),
    {
        let mut t = self;
        let k = key.to_argument_key();
        t.push_piece(Piece::Argument { key: k, specifier: Some(specifier) });
        t
    }

    /// Builder that appends a placeholder without a specifier.
    pub fn argument<K: ToArgumentKey>(self, key: K) -> (r: Self)
        requires
            self.wf(),
        ensures
            r.wf(),
            r@ == self@.push(PieceModel::Argument { key: key.key_model(), specifier: None }),
    {
        let mut t = self;
        let k = key.to_argument_key();
        t.push_piece(Piece::Argument { key: k, specifier: None });
        t
    }

    /// The forms that `argument_key` must render as, or `ArgumentNotFound` when the
    /// template never refers to it.
    pub fn argument_type_requirements(&self, argument_key: &ArgumentKey) -> (r: Result<
        &ArgumentTypeRequirements,
        Error,
    >)
        requires
            self.wf(),
        ensures
            mentioned(self@, argument_key@) ==> (r matches Ok(req) && forall|t: Type|
                #[trigger] req.has(t) == required(self@, argument_key@, t)),
            !mentioned(self@, argument_key@) ==> (r matches Err(Error::ArgumentNotFound(k))
                && k@ == argument_key@),
    {
        match find_entry(&self.requirements, argument_key) {
            Some(j) => {
                let r = &self.requirements[j as usize].1;
                proof {
                    let reqs = self.requirements@;
                    assert(table_has_key(reqs, argument_key@));
                    assert forall|t: Type| #[trigger] r.has(t) == required(self@, argument_key@, t) by {
                        assert(table_requires(reqs, argument_key@, t) == required(self@, argument_key@, t));
                        if table_requires(reqs, argument_key@, t) {
                            let i = choose|i: int|
                                0 <= i < reqs.len() && #[trigger] reqs[i].0@ == argument_key@
                                    && reqs[i].1.has(t);
                            assert(i == j);
                        }
                        if r.has(t) {
                            assert(reqs[j as int].0@ == argument_key@ && reqs[j as int].1.has(t));
                        }
                    }
                }
                Ok(r)
            },
            None => Err(Error::ArgumentNotFound(argument_key.to_argument_key())),
        }
    }
}

} // verus!
