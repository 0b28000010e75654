//! Writing parsed values back as template text, and errors as messages.
use vstd::prelude::*;

use crate::error::{Error, ErrorModel};
use crate::form::Type;
use crate::key::{ArgumentKey, KeyModel};
use crate::piece::{pieces_view, Piece, PieceModel};
use crate::render::{digits, push_all, push_digits};
use crate::specifier::{
    Alignment, Precision, PrecisionModel, Specifier, SpecifierModel, Width, WidthModel,
};
use crate::template::Template;
use crate::text::{chars_of, string_of};

verus! {

/// The form letter; `Display` and the width/precision form have none.
pub open spec fn type_source(t: Type) -> Seq<char> {
    match t {
        Type::Binary => seq!['b'],
        Type::Octal => seq!['o'],
        Type::LowerHex => seq!['x'],
        Type::UpperHex => seq!['X'],
        Type::Pointer => seq!['p'],
        Type::LowerExp => seq!['e'],
        Type::UpperExp => seq!['E'],
        Type::Debug => seq!['?'],
        Type::Display | Type::WidthOrPrecisionAmount => seq![],
    }
}

pub open spec fn alignment_source(a: Alignment) -> Seq<char> {
    match a {
        Alignment::Left => seq!['<'],
        Alignment::Center => seq!['^'],
        Alignment::Right => seq!['>'],
        Alignment::Auto => seq![],
    }
}

pub open spec fn key_source(k: KeyModel) -> Seq<char> {
    match k {
        KeyModel::Index(n) => digits(n, 10, false),
        KeyModel::Name(s) => s,
    }
}

/// A width of 0 sets no minimum and is written as nothing.
pub open spec fn width_source(w: WidthModel) -> Seq<char> {
    match w {
        WidthModel::Dynamic(k) => key_source(k).push('$'),
        WidthModel::Fixed(n) => if n == 0 {
            seq![]
        } else {
            digits(n, 10, false)
        },
    }
}

pub open spec fn precision_source(p: PrecisionModel) -> Seq<char> {
    match p {
        PrecisionModel::Auto => seq![],
        PrecisionModel::Dynamic(k) => seq!['.'] + key_source(k) + seq!['$'],
        PrecisionModel::Fixed(n) => seq!['.'] + digits(n, 10, false),
    }
}

pub open spec fn flag_source(on: bool, c: char) -> Seq<char> {
    if on {
        seq![c]
    } else {
        seq![]
    }
}

/// The directive text; the fill character is written only together with an alignment.
pub open spec fn specifier_source(m: SpecifierModel) -> Seq<char> {
    (if m.alignment == Alignment::Auto {
        seq![]
    } else {
        seq![m.fill_character] + alignment_source(m.alignment)
    }) + flag_source(m.sign, '+') + flag_source(m.alternate_form, '#') + flag_source(
        m.pad_zero,
        '0',
    ) + width_source(m.width) + precision_source(m.precision) + type_source(m.ty)
}

pub open spec fn piece_source(p: PieceModel) -> Seq<char> {
    match p {
        PieceModel::Literal(s) => s,
        PieceModel::BracketOpen => seq!['{', '{'],
        PieceModel::BracketClose => seq!['}', '}'],
        PieceModel::Argument { key, specifier } => seq!['{'] + key_source(key) + match specifier {
            Some(sp) => seq![':'] + specifier_source(sp),
            None => seq![],
        } + seq!['}'],
    }
}

pub open spec fn template_source(ps: Seq<PieceModel>) -> Seq<char>
    decreases ps.len(),
{
    if ps.len() == 0 {
        seq![]
    } else {
        template_source(ps.drop_last()) + piece_source(ps.last())
    }
}

fn push_str(out: &mut Vec<char>, s: &str)
    ensures
        final(out)@ == old(out)@ + s@,
{
    let chars = chars_of(s);
    push_all(out, &chars);
}

fn push_char(out: &mut Vec<char>, c: char)
    ensures
        final(out)@ == old(out)@ + seq![c],
{
    out.push(c);
    assert(out@ =~= old(out)@ + seq![c]);
}

impl Type {
    /// The form letter of a directive.
    pub fn to_source(&self) -> (r: String)
        ensures
            r@ == type_source(*self),
    {
        let mut out: Vec<char> = Vec::new();
        match self {
            Type::Binary => push_char(&mut out, 'b'),
            Type::Octal => push_char(&mut out, 'o'),
            Type::LowerHex => push_char(&mut out, 'x'),
            Type::UpperHex => push_char(&mut out, 'X'),
            Type::Pointer => push_char(&mut out, 'p'),
            Type::LowerExp => push_char(&mut out, 'e'),
            Type::UpperExp => push_char(&mut out, 'E'),
            Type::Debug => push_char(&mut out, '?'),
            Type::Display | Type::WidthOrPrecisionAmount => {},
        }
        assert(out@ =~= type_source(*self));
        string_of(&out)
    }
}

impl Alignment {
    /// The alignment character of a directive.
    pub fn to_source(&self) -> (r: String)
        ensures
            r@ == alignment_source(*self),
    {
        let mut out: Vec<char> = Vec::new();
        match self {
            Alignment::Left => push_char(&mut out, '<'),
            Alignment::Center => push_char(&mut out, '^'),
            Alignment::Right => push_char(&mut out, '>'),
            Alignment::Auto => {},
        }
        assert(out@ =~= alignment_source(*self));
        string_of(&out)
    }
}

impl ArgumentKey {
    fn push_source(&self, out: &mut Vec<char>)
        ensures
            final(out)@ == old(out)@ + key_source(self@),
    {
        match self {
            ArgumentKey::Index(n) => push_digits(out, *n as u128, 10, false),
            ArgumentKey::Name(s) => push_str(out, s.as_str()),
        }
    }

    /// The key as written in a template.
    pub fn to_source(&self) -> (r: String)
        ensures
            r@ == key_source(self@),
    {
        let mut out: Vec<char> = Vec::new();
        self.push_source(&mut out);
        assert(out@ =~= key_source(self@));
        string_of(&out)
    }
}

impl Width {
    fn push_source(&self, out: &mut Vec<char>)
        ensures
            final(out)@ == old(out)@ + width_source(self@),
    {
        match self {
            Width::Dynamic(k) => {
                k.push_source(out);
                push_char(out, '$');
                assert(out@ =~= old(out)@ + key_source(k@).push('$'));
            },
            Width::Fixed(n) => {
                if *n != 0 {
                    push_digits(out, *n as u128, 10, false);
                } else {
                    assert(out@ =~= old(out)@ + seq![]);
                }
            },
        }
    }

    /// The width as written in a directive.
    pub fn to_source(&self) -> (r: String)
        ensures
            r@ == width_source(self@),
    {
        let mut out: Vec<char> = Vec::new();
        self.push_source(&mut out);
        assert(out@ =~= width_source(self@));
        string_of(&out)
    }
}

impl Precision {
    fn push_source(&self, out: &mut Vec<char>)
        ensures
            final(out)@ == old(out)@ + precision_source(self@),
    {
        match self {
            Precision::Auto => {
                assert(out@ =~= old(out)@ + seq![]);
            },
            Precision::Dynamic(k) => {
                push_char(out, '.');
                k.push_source(out);
                push_char(out, '$');
                assert(out@ =~= old(out)@ + (seq!['.'] + key_source(k@) + seq!['$']));
            },
            Precision::Fixed(n) => {
                push_char(out, '.');
                push_digits(out, *n as u128, 10, false);
                assert(out@ =~= old(out)@ + (seq!['.'] + digits(*n as nat, 10, false)));
            },
        }
    }

    /// The precision as written in a directive.
    pub fn to_source(&self) -> (r: String)
        ensures
            r@ == precision_source(self@),
    {
        let mut out: Vec<char> = Vec::new();
        self.push_source(&mut out);
        assert(out@ =~= precision_source(self@));
        string_of(&out)
    }
}

fn push_flag(out: &mut Vec<char>, on: bool, c: char)
    ensures
        final(out)@ == old(out)@ + flag_source(on, c),
{
    if on {
        push_char(out, c);
    } else {
        assert(out@ =~= old(out)@ + seq![]);
    }
}

impl Specifier {
    #[verifier::spinoff_prover]
    #[verifier::rlimit(40)]
    fn push_source(&self, out: &mut Vec<char>)
        ensures
            final(out)@ == old(out)@ + specifier_source(self@),
    {
        let ghost start = out@;
        let ghost m = self@;
        let ghost head = if m.alignment == Alignment::Auto {
            Seq::<char>::empty()
        } else {
            seq![m.fill_character] + alignment_source(m.alignment)
        };
        if self.alignment != Alignment::Auto {
            push_char(out, self.fill_character);
            let a = self.alignment.to_source();
            push_str(out, a.as_str());
            assert(out@ =~= start + head);
        } else {
            assert(out@ =~= start + head);
        }
        let ghost s1 = head;
        push_flag(out, self.sign, '+');
        let ghost s2 = s1 + flag_source(m.sign, '+');
        assert(out@ =~= start + s2);
        push_flag(out, self.alternate_form, '#');
        let ghost s3 = s2 + flag_source(m.alternate_form, '#');
        assert(out@ =~= start + s3);
        push_flag(out, self.pad_zero, '0');
        let ghost s4 = s3 + flag_source(m.pad_zero, '0');
        assert(out@ =~= start + s4);
        self.width.push_source(out);
        let ghost s5 = s4 + width_source(m.width);
        assert(out@ =~= start + s5);
        self.precision.push_source(out);
        let ghost s6 = s5 + precision_source(m.precision);
        assert(out@ =~= start + s6);
        let t = self.ty.to_source();
        push_str(out, t.as_str());
        let ghost s7 = s6 + type_source(m.ty);
        assert(out@ =~= start + s7);
        assert(s7 == specifier_source(m));
    }

    /// The directive as written after the `:` of a placeholder.
    pub fn to_source(&self) -> (r: String)
        ensures
            r@ == specifier_source(self@),
    {
        let mut out: Vec<char> = Vec::new();
        self.push_source(&mut out);
        assert(out@ =~= specifier_source(self@));
        string_of(&out)
    }
}

impl Piece {
    fn push_source(&self, out: &mut Vec<char>)
        ensures
            final(out)@ == old(out)@ + piece_source(self@),
    {
        let ghost start = out@;
        match self {
            Piece::Literal(s) => push_str(out, s.as_str()),
            Piece::BracketOpen => {
                push_char(out, '{');
                push_char(out, '{');
                assert(out@ =~= start + seq!['{', '{']);
            },
            Piece::BracketClose => {
                push_char(out, '}');
                push_char(out, '}');
                assert(out@ =~= start + seq!['}', '}']);
            },
            Piece::Argument { key, specifier } => {
                push_char(out, '{');
                key.push_source(out);
                let ghost mid = out@;
                match specifier {
                    Some(sp) => {
                        push_char(out, ':');
                        sp.push_source(out);
                        assert(out@ =~= mid + (seq![':'] + specifier_source(sp@)));
                    },
                    None => {
                        assert(out@ =~= mid + seq![]);
                    },
                }
                push_char(out, '}');
                assert(out@ =~= start + piece_source(self@));
            },
        }
    }

    /// The piece as written in a template.
    pub fn to_source(&self) -> (r: String)
        ensures
            r@ == piece_source(self@),
    {
        let mut out: Vec<char> = Vec::new();
        self.push_source(&mut out);
        assert(out@ =~= piece_source(self@));
        string_of(&out)
    }
}

impl Template {
    /// The template written back as text, piece by piece.
    pub fn to_source(&self) -> (r: String)
        ensures
            r@ == template_source(self@),
    {
        let pieces = self.pieces();
        let mut out: Vec<char> = Vec::new();
        let mut i: usize = 0;
        while i < pieces.len()
            invariant
                i <= pieces@.len(),
                pieces_view(pieces@) == self@,
                out@ == template_source(self@.take(i as int)),
            decreases pieces@.len() - i,
        {
            pieces[i].push_source(&mut out);
            assert(self@.take(i + 1).drop_last() =~= self@.take(i as int));
            i = i + 1;
        }
        assert(self@.take(pieces@.len() as int) =~= self@);
        string_of(&out)
    }
}

/// The message of an error, as shown to a person.
pub open spec fn error_message(e: ErrorModel) -> Seq<char> {
    match e {
        ErrorModel::ArgumentNotFound(k) => "Argument for key '"@ + key_source(k) + "' not found"@,
        ErrorModel::DuplicateArgument(k, t) => "Duplicate argument value for key '"@ + key_source(k)
            + "'"@,
        ErrorModel::UnexpectedArgumentValue => "Unexpected argument value"@,
        ErrorModel::Fmt => "an error occurred when formatting an argument"@,
        ErrorModel::UnexpectedToken => "Unexpected token encountered while parsing"@,
    }
}

impl Error {
    /// The message of the error.
    pub fn message(&self) -> (r: String)
        ensures
            r@ == error_message(self@),
    {
        let mut out: Vec<char> = Vec::new();
        match self {
            Error::ArgumentNotFound(k) => {
                push_str(&mut out, "Argument for key '");
                k.push_source(&mut out);
                push_str(&mut out, "' not found");
            },
            Error::DuplicateArgument(tk) => {
                push_str(&mut out, "Duplicate argument value for key '");
                tk.key.push_source(&mut out);
                push_str(&mut out, "'");
            },
            Error::UnexpectedArgumentValue => push_str(&mut out, "Unexpected argument value"),
            Error::Fmt => push_str(&mut out, "an error occurred when formatting an argument"),
            Error::UnexpectedToken => push_str(
                &mut out,
                "Unexpected token encountered while parsing",
            ),
        }
        assert(out@ =~= error_message(self@));
        string_of(&out)
    }
}

} // verus!
