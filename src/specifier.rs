//! The directive inside one placeholder: `[[fill]align][sign]['#']['0'][width]['.' precision][form]`.
use vstd::prelude::*;

use crate::error::Error;
use crate::form::Type;
use crate::render::FieldOptions;
use crate::key::{ArgumentKey, KeyModel};
use crate::text::{
    chars_of, decimal_value, digit_run_end, ident_run_end, is_digit, is_digit_char, lemma_digit_run,
    lemma_ident_run, parse_decimal, scan_digits, scan_ident, string_of, sub_chars, all_digits,
};

verus! {

/// Alignment of a value inside its field.
#[derive(Debug, Clone, Copy, PartialEq, Eq, Structural)]
pub enum Alignment {
    Left,
    Center,
    Right,
    /// The form's default: numbers to the right, text to the left.
    Auto,
}

/// The minimum width of a field.
#[derive(Debug, Clone)]
pub enum Width {
    /// Read from the argument with this key.
    Dynamic(ArgumentKey),
    /// A fixed number of characters; 0 sets no minimum.
    Fixed(u16),
}

pub enum WidthModel {
    Dynamic(KeyModel),
    Fixed(nat),
}

impl View for Width {
    type V = WidthModel;

    open spec fn view(&self) -> WidthModel {
        match self {
            Width::Dynamic(k) => WidthModel::Dynamic(k@),
            Width::Fixed(n) => WidthModel::Fixed(*n as nat),
        }
    }
}

/// The precision of a field: fractional digits, or the most characters of text.
#[derive(Debug, Clone)]
pub enum Precision {
    Auto,
    /// Read from the argument with this key.
    Dynamic(ArgumentKey),
    Fixed(u16),
}

pub enum PrecisionModel {
    Auto,
    Dynamic(KeyModel),
    Fixed(nat),
}

impl View for Precision {
    type V = PrecisionModel;

    open spec fn view(&self) -> PrecisionModel {
        match self {
            Precision::Auto => PrecisionModel::Auto,
            Precision::Dynamic(k) => PrecisionModel::Dynamic(k@),
            Precision::Fixed(n) => PrecisionModel::Fixed(*n as nat),
        }
    }
}

/// How one placeholder renders its value.
#[derive(Debug, Clone)]
pub struct Specifier {
    pub ty: Type,
    pub alternate_form: bool,
    pub fill_character: char,
    pub alignment: Alignment,
    pub sign: bool,
    pub pad_zero: bool,
    pub width: Width,
    pub precision: Precision,
}

pub struct SpecifierModel {
    pub ty: Type,
    pub alternate_form: bool,
    pub fill_character: char,
    pub alignment: Alignment,
    pub sign: bool,
    pub pad_zero: bool,
    pub width: WidthModel,
    pub precision: PrecisionModel,
}

impl View for Specifier {
    type V = SpecifierModel;

    open spec fn view(&self) -> SpecifierModel {
        SpecifierModel {
            ty: self.ty,
            alternate_form: self.alternate_form,
            fill_character: self.fill_character,
            alignment: self.alignment,
            sign: self.sign,
            pad_zero: self.pad_zero,
            width: self.width@,
            precision: self.precision@,
        }
    }
}

/// The specifier that an empty directive denotes.
pub open spec fn default_specifier() -> SpecifierModel {
    SpecifierModel {
        ty: Type::Display,
        alternate_form: false,
        fill_character: ' ',
        alignment: Alignment::Auto,
        sign: false,
        pad_zero: false,
        width: WidthModel::Fixed(0),
        precision: PrecisionModel::Auto,
    }
}

pub open spec fn is_align(c: char) -> bool {
    c == '<' || c == '^' || c == '>'
}

pub open spec fn align_of(c: char) -> Alignment {
    if c == '<' {
        Alignment::Left
    } else if c == '^' {
        Alignment::Center
    } else {
        Alignment::Right
    }
}

/// The form that a form letter selects.
pub open spec fn type_of(c: char) -> Option<Type> {
    if c == '?' {
        Some(Type::Debug)
    } else if c == 'b' {
        Some(Type::Binary)
    } else if c == 'o' {
        Some(Type::Octal)
    } else if c == 'e' {
        Some(Type::LowerExp)
    } else if c == 'E' {
        Some(Type::UpperExp)
    } else if c == 'x' {
        Some(Type::LowerHex)
    } else if c == 'X' {
        Some(Type::UpperHex)
    } else if c == 'p' {
        Some(Type::Pointer)
    } else {
        None
    }
}

/// A fill character at `p`: one that an alignment character follows.
pub open spec fn fill_at(s: Seq<char>, p: int) -> Option<char> {
    if 0 <= p && p + 1 < s.len() && is_align(s[p + 1]) {
        Some(s[p])
    } else {
        None
    }
}

pub open spec fn align_at(s: Seq<char>, p: int) -> Option<Alignment> {
    if 0 <= p < s.len() && is_align(s[p]) {
        Some(align_of(s[p]))
    } else {
        None
    }
}

/// `+` asks for a sign, `-` explicitly asks for none.
pub open spec fn sign_at(s: Seq<char>, p: int) -> Option<bool> {
    if 0 <= p < s.len() && s[p] == '+' {
        Some(true)
    } else if 0 <= p < s.len() && s[p] == '-' {
        Some(false)
    } else {
        None
    }
}

pub open spec fn char_at(s: Seq<char>, p: int, c: char) -> bool {
    0 <= p < s.len() && s[p] == c
}

/// `name$` at `p`: the name and the position after the `$`.
pub open spec fn dynamic_name_at(s: Seq<char>, p: int) -> Option<(Seq<char>, int)> {
    let e = ident_run_end(s, p);
    if e > p && char_at(s, e, '$') {
        Some((s.subrange(p, e), e + 1))
    } else {
        None
    }
}

/// The width at `p` and the position after it; `None` when its number does not fit in 16 bits.
pub open spec fn width_at(s: Seq<char>, p: int) -> Option<(WidthModel, int)> {
    if 0 <= p < s.len() && is_digit(s[p]) {
        let e = digit_run_end(s, p);
        let v = decimal_value(s.subrange(p, e));
        if v <= u16::MAX {
            Some((WidthModel::Fixed(v), e))
        } else {
            None
        }
    } else {
        match dynamic_name_at(s, p) {
            Some((name, e)) => Some((WidthModel::Dynamic(KeyModel::Name(name)), e)),
            None => Some((WidthModel::Fixed(0), p)),
        }
    }
}

/// The precision at `p`, the position after it, and the implicit-index counter after it;
/// `None` when a `.` is not followed by a valid precision.
pub open spec fn precision_at(s: Seq<char>, p: int, counter: nat) -> Option<
    (PrecisionModel, int, nat),
> {
    if char_at(s, p, '.') {
        if char_at(s, p + 1, '*') {
            Some((PrecisionModel::Dynamic(KeyModel::Index(counter)), p + 2, counter + 1))
        } else if p + 1 < s.len() && is_digit(s[p + 1]) {
            let e = digit_run_end(s, p + 1);
            let v = decimal_value(s.subrange(p + 1, e));
            if v <= u16::MAX {
                Some((PrecisionModel::Fixed(v), e, counter))
            } else {
                None
            }
        } else {
            match dynamic_name_at(s, p + 1) {
                Some((name, e)) => Some(
                    (PrecisionModel::Dynamic(KeyModel::Name(name)), e, counter),
                ),
                None => None,
            }
        }
    } else {
        Some((PrecisionModel::Auto, p, counter))
    }
}

/// The specifier that the directive `s` denotes, with the implicit-index counter after it,
/// or `None` when `s` is malformed.
pub open spec fn parse_specifier(s: Seq<char>, counter: nat) -> Option<(SpecifierModel, nat)> {
    let fill = fill_at(s, 0);
    let after_fill: int = if fill is Some {
        1
    } else {
        0
    };
    let align = align_at(s, after_fill);
    let after_align = if align is Some {
        after_fill + 1
    } else {
        after_fill
    };
    let sign = sign_at(s, after_align);
    let after_sign = if sign is Some {
        after_align + 1
    } else {
        after_align
    };
    let alternate = char_at(s, after_sign, '#');
    let after_alternate = if alternate {
        after_sign + 1
    } else {
        after_sign
    };
    let zero = char_at(s, after_alternate, '0');
    let after_zero = if zero {
        after_alternate + 1
    } else {
        after_alternate
    };
    match width_at(s, after_zero) {
        None => None,
        Some((width, after_width)) => match precision_at(s, after_width, counter) {
            None => None,
            Some((precision, after_precision, c)) => {
                let ty = if 0 <= after_precision < s.len() {
                    type_of(s[after_precision])
                } else {
                    None
                };
                let after_form = if ty is Some {
                    after_precision + 1
                } else {
                    after_precision
                };
                if after_form == s.len() {
                    Some(
                        (
                            SpecifierModel {
                                ty: match ty {
                                    Some(t) => t,
                                    None => Type::Display,
                                },
                                alternate_form: alternate,
                                fill_character: match fill {
                                    Some(f) => f,
                                    None => ' ',
                                },
                                alignment: match align {
                                    Some(a) => a,
                                    None => Alignment::Auto,
                                },
                                sign: sign == Some(true),
                                pad_zero: zero,
                                width,
                                precision,
                            },
                            c,
                        ),
                    )
                } else {
                    None
                }
            },
        },
    }
}

fn is_align_char(c: char) -> (r: bool)
    ensures
        r == is_align(c),
{
    c == '<' || c == '^' || c == '>'
}

fn parse_fill_character(s: &Vec<char>, p: usize) -> (r: Option<char>)
    ensures
        r == fill_at(s@, p as int),
{
    if p < s.len() && s.len() - p > 1 && is_align_char(s[p + 1]) {
        Some(s[p])
    } else {
        None
    }
}

fn parse_alignment(s: &Vec<char>, p: usize) -> (r: Option<Alignment>)
    ensures
        r == align_at(s@, p as int),
{
    if p < s.len() {
        let c = s[p];
        if c == '<' {
            Some(Alignment::Left)
        } else if c == '^' {
            Some(Alignment::Center)
        } else if c == '>' {
            Some(Alignment::Right)
        } else {
            None
        }
    } else {
        None
    }
}

fn parse_sign(s: &Vec<char>, p: usize) -> (r: Option<bool>)
    ensures
        r == sign_at(s@, p as int),
{
    if p < s.len() && s[p] == '+' {
        Some(true)
    } else if p < s.len() && s[p] == '-' {
        Some(false)
    } else {
        None
    }
}

fn parse_flag(s: &Vec<char>, p: usize, c: char) -> (r: bool)
    ensures
        r == char_at(s@, p as int, c),
{
    p < s.len() && s[p] == c
}

fn parse_ty(s: &Vec<char>, p: usize) -> (r: Option<Type>)
    ensures
        r == (if p < s@.len() {
            type_of(s@[p as int])
        } else {
            None
        }),
{
    if p >= s.len() {
        return None;
    }
    let c = s[p];
    if c == '?' {
        Some(Type::Debug)
    } else if c == 'b' {
        Some(Type::Binary)
    } else if c == 'o' {
        Some(Type::Octal)
    } else if c == 'e' {
        Some(Type::LowerExp)
    } else if c == 'E' {
        Some(Type::UpperExp)
    } else if c == 'x' {
        Some(Type::LowerHex)
    } else if c == 'X' {
        Some(Type::UpperHex)
    } else if c == 'p' {
        Some(Type::Pointer)
    } else {
        None
    }
}

fn parse_dynamic_name(s: &Vec<char>, p: usize) -> (r: Option<(ArgumentKey, usize)>)
    requires
        p <= s@.len(),
    ensures
        match dynamic_name_at(s@, p as int) {
            Some((name, e)) => r matches Some((k, e2)) && k@ == KeyModel::Name(name) && e2 == e,
            None => r is None,
        },
        r matches Some((_, e)) ==> p < e <= s@.len(),
{
    let e = scan_ident(s, p);
    proof {
        lemma_ident_run(s@, p as int);
    }
    if e > p && e < s.len() && s[e] == '$' {
        let name = string_of(&sub_chars(s, p, e));
        Some((ArgumentKey::Name(name), e + 1))
    } else {
        None
    }
}

fn parse_number(s: &Vec<char>, p: usize) -> (r: Option<(u16, usize)>)
    requires
        p < s@.len(),
        is_digit(s@[p as int]),
    ensures
        ({
            let e = digit_run_end(s@, p as int);
            let v = decimal_value(s@.subrange(p as int, e));
            if v <= u16::MAX {
                r == Some((v as u16, e as usize))
            } else {
                r is None
            }
        }),
        r matches Some((_, e)) ==> p < e <= s@.len(),
{
    let e = scan_digits(s, p);
    proof {
        lemma_digit_run(s@, p as int);
        assert(all_digits(s@.subrange(p as int, e as int)));
    }
    match parse_decimal(s, p, e, 65535) {
        Some(v) => Some((v as u16, e)),
        None => None,
    }
}

fn parse_width(s: &Vec<char>, p: usize) -> (r: Result<(Width, usize), Error>)
    requires
        p <= s@.len(),
    ensures
        match width_at(s@, p as int) {
            Some((w, e)) => r matches Ok((w2, e2)) && w2@ == w && e2 == e,
            None => r == Err::<(Width, usize), Error>(Error::UnexpectedToken),
        },
        r matches Ok((_, e)) ==> p <= e <= s@.len(),
{
    proof {
        lemma_digit_run(s@, p as int);
        lemma_ident_run(s@, p as int);
    }
    if p < s.len() && is_digit_char(s[p]) {
        match parse_number(s, p) {
            Some((v, e)) => Ok((Width::Fixed(v), e)),
            None => Err(Error::UnexpectedToken),
        }
    } else {
        match parse_dynamic_name(s, p) {
            Some((key, e)) => Ok((Width::Dynamic(key), e)),
            None => Ok((Width::Fixed(0), p)),
        }
    }
}

fn parse_precision(s: &Vec<char>, p: usize, internal_index: &mut usize) -> (r: Result<
    (Precision, usize),
    Error,
>)
    requires
        p <= s@.len(),
        *old(internal_index) < usize::MAX,
    ensures
        match precision_at(s@, p as int, *old(internal_index) as nat) {
            Some((pr, e, c)) => r matches Ok((pr2, e2)) && pr2@ == pr && e2 == e
                && *final(internal_index) == c,
            None => r == Err::<(Precision, usize), Error>(Error::UnexpectedToken),
        },
        r matches Ok((_, e)) ==> p <= e <= s@.len(),
{
    if !parse_flag(s, p, '.') {
        return Ok((Precision::Auto, p));
    }
    let n = s.len();
    assert(p < n);
    proof {
        lemma_digit_run(s@, p + 1);
        lemma_ident_run(s@, p + 1);
    }
    if parse_flag(s, p + 1, '*') {
        let index = *internal_index;
        *internal_index = index + 1;
        return Ok((Precision::Dynamic(ArgumentKey::Index(index)), p + 2));
    }
    if p + 1 < s.len() && is_digit_char(s[p + 1]) {
        match parse_number(s, p + 1) {
            Some((v, e)) => Ok((Precision::Fixed(v), e)),
            None => Err(Error::UnexpectedToken),
        }
    } else {
        match parse_dynamic_name(s, p + 1) {
            Some((key, e)) => Ok((Precision::Dynamic(key), e)),
            None => Err(Error::UnexpectedToken),
        }
    }
}

impl Specifier {
    /// Parses a directive, the text after the `:` of a placeholder. A `.*` precision
    /// takes the next implicit index from `internal_index`.
    pub fn parse(input: &str, internal_index: &mut usize) -> (r: Result<Self, Error>)
        requires
            *old(internal_index) < usize::MAX,
        ensures
            match parse_specifier(input@, *old(internal_index) as nat) {
                Some((m, c)) => r is Ok && r->Ok_0@ == m && *final(internal_index) == c,
                None => r == Err::<Self, Error>(Error::UnexpectedToken),
            },
    {
        let chars = chars_of(input);
        Self::parse_chars(&chars, internal_index)
    }

    /// Parses a directive given as characters.
    pub fn parse_chars(s: &Vec<char>, internal_index: &mut usize) -> (r: Result<Self, Error>)
        requires
            *old(internal_index) < usize::MAX,
        ensures
            match parse_specifier(s@, *old(internal_index) as nat) {
                Some((m, c)) => r is Ok && r->Ok_0@ == m && *final(internal_index) == c,
                None => r == Err::<Self, Error>(Error::UnexpectedToken),
            },
    {
        let n = s.len();
        let fill = parse_fill_character(s, 0);
        let after_fill: usize = if fill.is_some() {
            1
        } else {
            0
        };
        let align = parse_alignment(s, after_fill);
        let after_align = if align.is_some() {
            after_fill + 1
        } else {
            after_fill
        };
        let sign = parse_sign(s, after_align);
        let after_sign = if sign.is_some() {
            after_align + 1
        } else {
            after_align
        };
        let alternate = parse_flag(s, after_sign, '#');
        let after_alternate = if alternate {
            after_sign + 1
        } else {
            after_sign
        };
        let zero = parse_flag(s, after_alternate, '0');
        let after_zero = if zero {
            after_alternate + 1
        } else {
            after_alternate
        };
        let (width, after_width) = match parse_width(s, after_zero) {
            Ok(x) => x,
            Err(e) => return Err(e),
        };
        let (precision, after_precision) = match parse_precision(s, after_width, internal_index) {
            Ok(x) => x,
            Err(e) => return Err(e),
        };
        let ty = parse_ty(s, after_precision);
        assert(ty is Some ==> after_precision < n);
        let after_form = if ty.is_some() {
            after_precision + 1
        } else {
            after_precision
        };
        if after_form != s.len() {
            return Err(Error::UnexpectedToken);
        }
        Ok(
            Specifier {
                ty: match ty {
                    Some(t) => t,
                    None => Type::Display,
                },
                alternate_form: alternate,
                fill_character: match fill {
                    Some(f) => f,
                    None => ' ',
                },
                alignment: match align {
                    Some(a) => a,
                    None => Alignment::Auto,
                },
                sign: match sign {
                    Some(b) => b,
                    None => false,
                },
                pad_zero: zero,
                width,
                precision,
            },
        )
    }
}

impl Default for Specifier {
    fn default() -> (r: Self)
        ensures
            r@ == default_specifier(),
    {
        Specifier {
            ty: Type::Display,
            alternate_form: false,
            fill_character: ' ',
            alignment: Alignment::Auto,
            sign: false,
            pad_zero: false,
            width: Width::Fixed(0),
            precision: Precision::Auto,
        }
    }
}

impl Specifier {
    /// The field layout this specifier gives by itself: a dynamic width or precision
    /// is left unset here, to be resolved against the bound values.
    pub fn formatting_options(&self) -> (r: FieldOptions)
        ensures
            r.fill == self.fill_character,
            r.alignment == self.alignment,
            r.sign == self.sign,
            r.alternate == self.alternate_form,
            r.pad_zero == self.pad_zero,
            r.width == match self.width {
                Width::Fixed(n) => n as usize,
                Width::Dynamic(_) => 0usize,
            },
            r.precision == match self.precision {
                Precision::Fixed(n) => Some(n),
                _ => None::<u16>,
            },
    {
        FieldOptions {
            fill: self.fill_character,
            alignment: self.alignment,
            sign: self.sign,
            alternate: self.alternate_form,
            pad_zero: self.pad_zero,
            width: match &self.width {
                Width::Fixed(n) => *n as usize,
                Width::Dynamic(_) => 0,
            },
            precision: match &self.precision {
                Precision::Fixed(n) => Some(*n),
                _ => None,
            },
        }
    }

    /// Builder that sets the form.
    pub fn ty(self, ty: Type) -> (r: Self)
        ensures
            r@ == (SpecifierModel { ty, ..self@ }),
    {
        Specifier { ty, ..self }
    }

    /// Builder that sets the alternate form.
    pub fn alternate_form(self, alternate_form: bool) -> (r: Self)
        ensures
            r@ == (SpecifierModel { alternate_form, ..self@ }),
    {
        Specifier { alternate_form, ..self }
    }

    /// Builder that sets the fill character.
    pub fn fill_character(self, fill_character: char) -> (r: Self)
        ensures
            r@ == (SpecifierModel { fill_character, ..self@ }),
    {
        Specifier { fill_character, ..self }
    }

    /// Builder that sets the alignment.
    pub fn alignment(self, alignment: Alignment) -> (r: Self)
        ensures
            r@ == (SpecifierModel { alignment, ..self@ }),
    {
        Specifier { alignment, ..self }
    }

    /// Builder that sets whether a `+` is shown on non-negative numbers.
    pub fn sign(self, sign: bool) -> (r: Self)
        ensures
            r@ == (SpecifierModel { sign, ..self@ }),
    {
        Specifier { sign, ..self }
    }

    /// Builder that sets padding with zeros after the sign.
    pub fn pad_zero(self, pad_zero: bool) -> (r: Self)
        ensures
            r@ == (SpecifierModel { pad_zero, ..self@ }),
    {
        Specifier { pad_zero, ..self }
    }

    /// Builder that sets the width.
    pub fn width(self, width: Width) -> (r: Self)
        ensures
            r@ == (SpecifierModel { width: width@, ..self@ }),
    {
        Specifier { width, ..self }
    }

    /// Builder that sets the precision.
    pub fn precision(self, precision: Precision) -> (r: Self)
        ensures
            r@ == (SpecifierModel { precision: precision@, ..self@ }),
    {
        Specifier { precision, ..self }
    }
}

} // verus!
