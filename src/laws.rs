//! Properties that relate several operations of the engine.
use vstd::prelude::*;

use crate::arguments::{
    add_checked, bind_from, bind_value, duplicate, duplicate_from, first_shared, first_shared_from,
    form_order, BoundModel,
};
use crate::error::ErrorModel;
use crate::form::{ArgumentTypeRequirements, Type};
use crate::key::KeyModel;
use crate::piece::{key_of, parse_pieces, PieceModel};
use crate::text::{brace_at_or_after, find_from};
use crate::render::{fill_run, padded};
use crate::specifier::Alignment;
use crate::template::{mentioned, piece_mentions, piece_requires, required};
use crate::value::{
    bundle_forms, bundle_has, lemma_bundle_forms_has, lemma_single_forms_has, offers, single_forms,
    ArgumentValue, ValueModel,
};

verus! {

/// The position of each form in the binding order.
pub open spec fn order_index(t: Type) -> int {
    match t {
        Type::Display => 0,
        Type::Debug => 1,
        Type::Pointer => 2,
        Type::Binary => 3,
        Type::Octal => 4,
        Type::LowerHex => 5,
        Type::UpperHex => 6,
        Type::LowerExp => 7,
        Type::UpperExp => 8,
        Type::WidthOrPrecisionAmount => 9,
    }
}

proof fn lemma_order_index(t: Type)
    ensures
        0 <= order_index(t) < 10,
        form_order()[order_index(t)] == t,
{
}

/// Each parse starts its implicit-index counter afresh: a template that begins with
/// `{}` binds that placeholder to position 0, whatever was parsed before.
pub proof fn lemma_implicit_index_restarts(s: Seq<char>)
    requires
        s.len() >= 2,
        s[0] == '{',
        s[1] == '}',
        parse_pieces(s) is Some,
    ensures
        parse_pieces(s)->0[0] == (PieceModel::Argument { key: KeyModel::Index(0), specifier: None }),
{
    assert(brace_at_or_after(s, 1) == 1);
    let content = s.subrange(1, 1);
    assert(content.len() == 0);
    assert(find_from(content, 0, ':') == 0);
    assert(key_of(content, 0) == Some((KeyModel::Index(0), 1nat)));
}

/// The placeholders of a template, in order.
pub open spec fn placeholders(ps: Seq<PieceModel>) -> Seq<PieceModel> {
    ps.filter(|p: PieceModel| p is Argument)
}

/// Literal text and escaped braces ask nothing of any key.
pub proof fn lemma_requirements_of_placeholders(ps: Seq<PieceModel>)
    ensures
        forall|k: KeyModel, t: Type| #[trigger] required(ps, k, t) == required(placeholders(ps), k, t),
        forall|k: KeyModel| #[trigger] mentioned(ps, k) == mentioned(placeholders(ps), k),
{
    let pred = |p: PieceModel| p is Argument;
    let qs = placeholders(ps);
    ps.filter_lemma(pred);
    assert forall|k: KeyModel, t: Type| #[trigger] required(ps, k, t) == required(qs, k, t) by {
        if required(ps, k, t) {
            let i = choose|i: int| 0 <= i < ps.len() && #[trigger] piece_requires(ps[i], k, t);
            assert(pred(ps[i]));
            assert(qs.contains(ps[i]));
            let j = choose|j: int| 0 <= j < qs.len() && qs[j] == ps[i];
            assert(piece_requires(qs[j], k, t));
        }
        if required(qs, k, t) {
            let i = choose|i: int| 0 <= i < qs.len() && #[trigger] piece_requires(qs[i], k, t);
            assert(qs.contains(qs[i]));
            ps.lemma_filter_contains_rev(pred, qs[i]);
            let j = choose|j: int| 0 <= j < ps.len() && ps[j] == qs[i];
            assert(piece_requires(ps[j], k, t));
        }
    }
    assert forall|k: KeyModel| #[trigger] mentioned(ps, k) == mentioned(qs, k) by {
        if mentioned(ps, k) {
            let i = choose|i: int| 0 <= i < ps.len() && #[trigger] piece_mentions(ps[i], k);
            assert(pred(ps[i]));
            assert(qs.contains(ps[i]));
            let j = choose|j: int| 0 <= j < qs.len() && qs[j] == ps[i];
            assert(piece_mentions(qs[j], k));
        }
        if mentioned(qs, k) {
            let i = choose|i: int| 0 <= i < qs.len() && #[trigger] piece_mentions(qs[i], k);
            assert(qs.contains(qs[i]));
            ps.lemma_filter_contains_rev(pred, qs[i]);
            let j = choose|j: int| 0 <= j < ps.len() && ps[j] == qs[i];
            assert(piece_mentions(ps[j], k));
        }
    }
}

/// Two templates that hold the same placeholders, in any order and with any literal
/// text between them, require the same forms of every key and refer to the same keys.
pub proof fn lemma_placeholder_order_independent(ps1: Seq<PieceModel>, ps2: Seq<PieceModel>)
    requires
        placeholders(ps1).to_multiset() == placeholders(ps2).to_multiset(),
    ensures
        forall|k: KeyModel, t: Type| #[trigger] required(ps1, k, t) == required(ps2, k, t),
        forall|k: KeyModel| #[trigger] mentioned(ps1, k) == mentioned(ps2, k),
{
    lemma_requirements_of_placeholders(ps1);
    lemma_requirements_of_placeholders(ps2);
    lemma_requirements_order_independent(placeholders(ps1), placeholders(ps2));
    assert forall|k: KeyModel, t: Type| #[trigger] required(ps1, k, t) == required(ps2, k, t) by {
        assert(required(ps1, k, t) == required(placeholders(ps1), k, t));
        assert(required(ps2, k, t) == required(placeholders(ps2), k, t));
        assert(required(placeholders(ps1), k, t) == required(placeholders(ps2), k, t));
    }
    assert forall|k: KeyModel| #[trigger] mentioned(ps1, k) == mentioned(ps2, k) by {
        assert(mentioned(ps1, k) == mentioned(placeholders(ps1), k));
        assert(mentioned(ps2, k) == mentioned(placeholders(ps2), k));
        assert(mentioned(placeholders(ps1), k) == mentioned(placeholders(ps2), k));
    }
}

/// The forms a key is required to render as depend only on which placeholders a
/// template holds, not on their order.
pub proof fn lemma_requirements_order_independent(ps1: Seq<PieceModel>, ps2: Seq<PieceModel>)
    requires
        ps1.to_multiset() == ps2.to_multiset(),
    ensures
        forall|k: KeyModel, t: Type| #[trigger] required(ps1, k, t) == required(ps2, k, t),
        forall|k: KeyModel| #[trigger] mentioned(ps1, k) == mentioned(ps2, k),
{
    ps1.to_multiset_ensures();
    ps2.to_multiset_ensures();
    assert forall|k: KeyModel, t: Type| #[trigger] required(ps1, k, t) == required(ps2, k, t) by {
        if required(ps1, k, t) {
            let i = choose|i: int| 0 <= i < ps1.len() && #[trigger] piece_requires(ps1[i], k, t);
            assert(ps1.contains(ps1[i]));
            assert(ps1.to_multiset().count(ps1[i]) > 0);
            assert(ps2.to_multiset().count(ps1[i]) > 0);
            assert(ps2.contains(ps1[i]));
            let j = choose|j: int| 0 <= j < ps2.len() && ps2[j] == ps1[i];
            assert(piece_requires(ps2[j], k, t));
        }
        if required(ps2, k, t) {
            let i = choose|i: int| 0 <= i < ps2.len() && #[trigger] piece_requires(ps2[i], k, t);
            assert(ps2.contains(ps2[i]));
            assert(ps2.to_multiset().count(ps2[i]) > 0);
            assert(ps1.to_multiset().count(ps2[i]) > 0);
            assert(ps1.contains(ps2[i]));
            let j = choose|j: int| 0 <= j < ps1.len() && ps1[j] == ps2[i];
            assert(piece_requires(ps1[j], k, t));
        }
    }
    assert forall|k: KeyModel| #[trigger] mentioned(ps1, k) == mentioned(ps2, k) by {
        if mentioned(ps1, k) {
            let i = choose|i: int| 0 <= i < ps1.len() && #[trigger] piece_mentions(ps1[i], k);
            assert(ps1.contains(ps1[i]));
            assert(ps1.to_multiset().count(ps1[i]) > 0);
            assert(ps2.to_multiset().count(ps1[i]) > 0);
            assert(ps2.contains(ps1[i]));
            let j = choose|j: int| 0 <= j < ps2.len() && ps2[j] == ps1[i];
            assert(piece_mentions(ps2[j], k));
        }
        if mentioned(ps2, k) {
            let i = choose|i: int| 0 <= i < ps2.len() && #[trigger] piece_mentions(ps2[i], k);
            assert(ps2.contains(ps2[i]));
            assert(ps2.to_multiset().count(ps2[i]) > 0);
            assert(ps1.to_multiset().count(ps2[i]) > 0);
            assert(ps1.contains(ps2[i]));
            let j = choose|j: int| 0 <= j < ps1.len() && ps1[j] == ps2[i];
            assert(piece_mentions(ps1[j], k));
        }
    }
}

/// How many fill characters go before and after a body of `len` characters.
pub open spec fn pad_split(len: nat, alignment: Alignment, default: Alignment, width: nat) -> (
    nat,
    nat,
) {
    if len >= width {
        (0, 0)
    } else {
        let n = (width - len) as nat;
        let a = if alignment == Alignment::Auto {
            default
        } else {
            alignment
        };
        if a == Alignment::Left {
            (0, n)
        } else if a == Alignment::Center {
            (n / 2, (n - n / 2) as nat)
        } else {
            (n, 0)
        }
    }
}

/// Any fill character, the sentinel code point U+A66E included, lands in the padding
/// and nowhere else: the field is fill, then the body untouched, then fill, and how
/// much fill goes on each side does not depend on the character.
pub proof fn lemma_fill_only_in_padding(
    body: Seq<char>,
    fill: char,
    alignment: Alignment,
    default: Alignment,
    width: nat,
)
    ensures
        ({
            let (l, r) = pad_split(body.len(), alignment, default, width);
            &&& padded(body, fill, alignment, default, width) == fill_run(fill, l) + body
                + fill_run(fill, r)
            &&& body.len() < width ==> l + r + body.len() == width
        }),
{
    let (l, r) = pad_split(body.len(), alignment, default, width);
    let p = padded(body, fill, alignment, default, width);
    if body.len() >= width {
        assert(fill_run(fill, 0) + body + fill_run(fill, 0) =~= body);
    } else {
        let a = if alignment == Alignment::Auto {
            default
        } else {
            alignment
        };
        if a == Alignment::Left {
            assert(fill_run(fill, 0) + body + fill_run(fill, r) =~= body + fill_run(fill, r));
        } else if a == Alignment::Center {
        } else {
            assert(fill_run(fill, l) + body + fill_run(fill, 0) =~= fill_run(fill, l) + body);
        }
    }
}

proof fn lemma_first_shared_from(a: ArgumentTypeRequirements, c: ArgumentTypeRequirements, j: int, i: int)
    requires
        0 <= j <= i < 10,
        a.has(form_order()[i]),
        c.has(form_order()[i]),
    ensures
        first_shared_from(a, c, j) is Some,
    decreases i - j,
{
    if j < i && !(a.has(form_order()[j]) && c.has(form_order()[j])) {
        lemma_first_shared_from(a, c, j + 1, i);
    }
}

proof fn lemma_duplicate_from(b: Seq<BoundModel>, k: KeyModel, f: ArgumentTypeRequirements, j: int, j0: int)
    requires
        0 <= j <= j0 < b.len(),
        b[j0].key == k,
        first_shared(b[j0].forms, f) is Some,
    ensures
        duplicate_from(b, k, f, j) is Some,
    decreases j0 - j,
{
    if j < j0 && !(b[j].key == k && first_shared(b[j].forms, f) is Some) {
        lemma_duplicate_from(b, k, f, j + 1, j0);
    }
}

/// Checked binding rejects a second bundle for a key that shares a form with one
/// bound before, with `DuplicateArgument` for that key; the binder is then left as
/// it was, the first binding with it.
pub proof fn lemma_checked_rebinding_rejected(
    ps: Seq<PieceModel>,
    b: Seq<BoundModel>,
    k: KeyModel,
    first: ArgumentValue,
    second: ArgumentValue,
    t: Type,
)
    requires
        add_checked(ps, b, k, first) is Ok,
        bundle_has(first, t),
        bundle_has(second, t),
    ensures
        ({
            let b1 = add_checked(ps, b, k, first)->Ok_0;
            &&& b1.last() == (BoundModel { key: k, forms: bundle_forms(first), value: first.payload() })
            &&& add_checked(ps, b1, k, second) matches Err(ErrorModel::DuplicateArgument(k2, _))
                && k2 == k
        }),
{
    let b1 = add_checked(ps, b, k, first)->Ok_0;
    lemma_bundle_forms_has(first);
    lemma_bundle_forms_has(second);
    lemma_order_index(t);
    let n = b.len() as int;
    assert(b1[n].forms == bundle_forms(first));
    lemma_first_shared_from(bundle_forms(first), bundle_forms(second), 0, order_index(t));
    lemma_duplicate_from(b1, k, bundle_forms(second), 0, n);
}

proof fn lemma_bind_skips(ps: Seq<PieceModel>, b: Seq<BoundModel>, k: KeyModel, v: ValueModel, i: int)
    requires
        0 <= i <= 10,
        forall|j: int| i <= j < 10 ==> !required(ps, k, #[trigger] form_order()[j]),
    ensures
        bind_from(ps, b, k, v, i) == (b, None::<ErrorModel>),
    decreases 10 - i,
{
    if i < 10 {
        lemma_bind_skips(ps, b, k, v, i + 1);
    }
}

/// A value that a template requires only as `Display` binds through the smallest
/// bundle, the one of `Display` alone.
pub proof fn lemma_display_only_binds_smallest_bundle(
    ps: Seq<PieceModel>,
    b: Seq<BoundModel>,
    k: KeyModel,
    v: ValueModel,
)
    requires
        forall|t: Type| #[trigger] required(ps, k, t) == (t == Type::Display),
        offers(v, Type::Display),
        duplicate(b, k, single_forms(Type::Display)) is None,
    ensures
        bind_value(ps, b, k, v) == (
            b.push(BoundModel { key: k, forms: single_forms(Type::Display), value: v }),
            None::<ErrorModel>,
        ),
        forall|t: Type| #[trigger] single_forms(Type::Display).has(t) == (t == Type::Display),
{
    lemma_single_forms_has(Type::Display);
    assert(required(ps, k, Type::Display));
    let i = choose|i: int| 0 <= i < ps.len() && #[trigger] piece_requires(ps[i], k, Type::Display);
    assert(piece_mentions(ps[i], k));
    let b1 = b.push(BoundModel { key: k, forms: single_forms(Type::Display), value: v });
    assert forall|j: int| 1 <= j < 10 implies !required(ps, k, #[trigger] form_order()[j]) by {
        assert(form_order()[j] != Type::Display);
    }
    lemma_bind_skips(ps, b1, k, v, 1);
    assert(form_order()[0] == Type::Display);
}

proof fn lemma_bind_from_offers(ps: Seq<PieceModel>, b: Seq<BoundModel>, k: KeyModel, v: ValueModel, i: int)
    requires
        0 <= i <= 10,
        bind_from(ps, b, k, v, i).1 is None,
    ensures
        forall|j: int| i <= j < 10 && required(ps, k, #[trigger] form_order()[j]) ==> offers(v, form_order()[j]),
    decreases 10 - i,
{
    if i < 10 {
        let t = form_order()[i];
        if !required(ps, k, t) {
            lemma_bind_from_offers(ps, b, k, v, i + 1);
        } else {
            let b1 = b.push(BoundModel { key: k, forms: single_forms(t), value: v });
            lemma_bind_from_offers(ps, b1, k, v, i + 1);
        }
    }
}

/// A checked bind succeeds only if the value offers every form the template
/// requires of the key: one required as both `Debug` and `Display` must offer both.
pub proof fn lemma_bind_needs_every_required_form(
    ps: Seq<PieceModel>,
    b: Seq<BoundModel>,
    k: KeyModel,
    v: ValueModel,
)
    requires
        bind_value(ps, b, k, v).1 is None,
    ensures
        forall|t: Type| #[trigger] required(ps, k, t) ==> offers(v, t),
{
    if mentioned(ps, k) {
        lemma_bind_from_offers(ps, b, k, v, 0);
        assert forall|t: Type| #[trigger] required(ps, k, t) implies offers(v, t) by {
            lemma_order_index(t);
        }
    }
}

} // verus!
