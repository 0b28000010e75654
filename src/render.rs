//! Rendering one value into its field: digits, signs, prefixes, precision and padding.
use vstd::prelude::*;

use crate::form::Type;
use vstd::arithmetic::power2::{
    lemma2_to64, lemma2_to64_rest, lemma_pow2_adds, lemma_pow2_pos, lemma_pow2_strictly_increases, lemma_pow2_unfold,
    pow2,
};
use crate::specifier::Alignment;
use crate::text::{chars_of, string_of, sub_chars};
use crate::value::{bundle_has, ArgumentValue, Value, ValueModel};

verus! {

/// How a field is laid out, with width and precision already resolved.
#[derive(Debug, Clone, Copy, PartialEq, Eq, Structural)]
pub struct FieldOptions {
    pub fill: char,
    pub alignment: Alignment,
    pub sign: bool,
    pub alternate: bool,
    pub pad_zero: bool,
    /// The least number of characters; 0 sets no minimum.
    pub width: usize,
    pub precision: Option<u16>,
}

/// What `{:e}` gives for a non-negative integer, with `precision` fractional digits.
pub uninterp spec fn lower_exp_text(n: nat, precision: nat) -> Seq<char>;

/// What `{:E}` gives for a non-negative integer, with `precision` fractional digits.
pub uninterp spec fn upper_exp_text(n: nat, precision: nat) -> Seq<char>;

/// What `{:?}` gives for a string: quoted, with escapes.
pub uninterp spec fn str_debug_text(s: Seq<char>) -> Seq<char>;

/// What `{:?}` gives for a character: quoted, with escapes.
pub uninterp spec fn char_debug_text(c: char) -> Seq<char>;

/// Relies on `<u128 as LowerExp>::fmt`, whose result depends on the number and the precision alone.
#[verifier::external_body]
fn lower_exp_of(n: u128, precision: usize) -> (r: String)
    requires
        precision <= u16::MAX,
    ensures
        r@ == lower_exp_text(n as nat, precision as nat),
{
    format!("{:.*e}", precision, n)
}

/// Relies on `<u128 as UpperExp>::fmt`, whose result depends on the number and the precision alone.
#[verifier::external_body]
fn upper_exp_of(n: u128, precision: usize) -> (r: String)
    requires
        precision <= u16::MAX,
    ensures
        r@ == upper_exp_text(n as nat, precision as nat),
{
    format!("{:.*E}", precision, n)
}

/// Relies on `<str as Debug>::fmt`, whose result depends on the characters alone.
#[verifier::external_body]
fn str_debug_of(s: &str) -> (r: String)
    ensures
        r@ == str_debug_text(s@),
{
    format!("{:?}", s)
}

/// Relies on `<char as Debug>::fmt`, whose result depends on the character alone.
#[verifier::external_body]
fn char_debug_of(c: char) -> (r: String)
    ensures
        r@ == char_debug_text(c),
{
    format!("{:?}", c)
}

pub open spec fn fill_run(c: char, n: nat) -> Seq<char> {
    Seq::new(n, |i: int| c)
}

/// `body` padded with `fill` to `width` characters; `Auto` takes `default`.
pub open spec fn padded(
    body: Seq<char>,
    fill: char,
    alignment: Alignment,
    default: Alignment,
    width: nat,
) -> Seq<char> {
    if body.len() >= width {
        body
    } else {
        let n = (width - body.len()) as nat;
        let a = if alignment == Alignment::Auto {
            default
        } else {
            alignment
        };
        if a == Alignment::Left {
            body + fill_run(fill, n)
        } else if a == Alignment::Center {
            fill_run(fill, n / 2) + body + fill_run(fill, (n - n / 2) as nat)
        } else {
            fill_run(fill, n) + body
        }
    }
}

/// A number: sign, prefix and digits, padded with zeros between prefix and digits
/// when asked, else with the fill character, to the right by default.
pub open spec fn integral(sign: Seq<char>, prefix: Seq<char>, digits: Seq<char>, o: FieldOptions) -> Seq<
    char,
> {
    let body = sign + prefix + digits;
    if o.pad_zero && body.len() < o.width {
        sign + prefix + fill_run('0', (o.width - body.len()) as nat) + digits
    } else {
        padded(body, o.fill, o.alignment, Alignment::Right, o.width as nat)
    }
}

/// Text: cut to the precision, padded with the fill character, to the left by default.
pub open spec fn text_field(s: Seq<char>, o: FieldOptions) -> Seq<char> {
    let cut = match o.precision {
        Some(p) => if p < s.len() {
            s.take(p as int)
        } else {
            s
        },
        None => s,
    };
    padded(cut, o.fill, o.alignment, Alignment::Left, o.width as nat)
}

pub open spec fn digit_char(d: nat, upper: bool) -> char {
    if d == 0 {
        '0'
    } else if d == 1 {
        '1'
    } else if d == 2 {
        '2'
    } else if d == 3 {
        '3'
    } else if d == 4 {
        '4'
    } else if d == 5 {
        '5'
    } else if d == 6 {
        '6'
    } else if d == 7 {
        '7'
    } else if d == 8 {
        '8'
    } else if d == 9 {
        '9'
    } else if d == 10 {
        if upper {
            'A'
        } else {
            'a'
        }
    } else if d == 11 {
        if upper {
            'B'
        } else {
            'b'
        }
    } else if d == 12 {
        if upper {
            'C'
        } else {
            'c'
        }
    } else if d == 13 {
        if upper {
            'D'
        } else {
            'd'
        }
    } else if d == 14 {
        if upper {
            'E'
        } else {
            'e'
        }
    } else {
        if upper {
            'F'
        } else {
            'f'
        }
    }
}

/// The digits of `n` in base `radix`, most significant first.
pub open spec fn digits(n: nat, radix: nat, upper: bool) -> Seq<char>
    decreases n,
    via digits_decreases
{
    if radix < 2 || n < radix {
        seq![digit_char(n, upper)]
    } else {
        digits(n / radix, radix, upper).push(digit_char(n % radix, upper))
    }
}

#[via_fn]
proof fn digits_decreases(n: nat, radix: nat, upper: bool) {
    if radix >= 2 && n >= radix {
        assert(n / radix < n) by (nonlinear_arith)
            requires
                radix >= 2,
                n >= radix,
        ;
    }
}

pub open spec fn sign_text(negative: bool, plus: bool) -> Seq<char> {
    if negative {
        seq!['-']
    } else if plus {
        seq!['+']
    } else {
        seq![]
    }
}

pub open spec fn abs(v: int) -> nat {
    if v < 0 {
        (-v) as nat
    } else {
        v as nat
    }
}

/// The width in bits the radix forms use: 0 or more than 128 count as 128.
pub open spec fn int_bits(bits: nat) -> nat {
    if 1 <= bits <= 128 {
        bits
    } else {
        128
    }
}

/// What the radix forms show of a signed integer: its two's complement in `bits` bits.
pub open spec fn low_bits(v: int, bits: nat) -> nat {
    let b = int_bits(bits);
    if b == 128 {
        if v < 0 {
            (v + 0x1_0000_0000_0000_0000_0000_0000_0000_0000) as nat
        } else {
            v as nat
        }
    } else {
        let m = pow2(b);
        if v >= 0 {
            (v % m as int) as nat
        } else {
            ((m - abs(v) % m) % m as int) as nat
        }
    }
}

/// 2 to the power `bits`, for widths below 128.
fn pow2_of(bits: u32) -> (r: u128)
    requires
        1 <= bits < 128,
    ensures
        r as nat == pow2(bits as nat),
        r >= 1,
{
    proof {
        lemma2_to64();
        lemma2_to64_rest();
        lemma_pow2_adds(63, 64);
        assert(pow2(63) * pow2(64) == 0x8000_0000_0000_0000_0000_0000_0000_0000) by (nonlinear_arith)
            requires
                pow2(63) == 0x8000_0000_0000_0000,
                pow2(64) == 0x1_0000_0000_0000_0000,
        ;
    }
    let mut r: u128 = 1;
    let mut i: u32 = 0;
    assert(pow2(0) == 1) by {
        lemma2_to64();
    }
    while i < bits
        invariant
            i <= bits < 128,
            r as nat == pow2(i as nat),
            pow2(127) == 0x8000_0000_0000_0000_0000_0000_0000_0000,
        decreases bits - i,
    {
        proof {
            lemma_pow2_unfold((i + 1) as nat);
            if i + 1 < 127 {
                lemma_pow2_strictly_increases((i + 1) as nat, 127);
            }
        }
        r = r * 2;
        i = i + 1;
    }
    proof {
        lemma_pow2_pos(bits as nat);
    }
    r
}

/// The two's complement of `v` in `bits` bits.
fn low_bits_of(v: i128, bits: u32, magnitude: u128) -> (r: u128)
    requires
        magnitude as nat == abs(v as int),
    ensures
        r as nat == low_bits(v as int, bits as nat),
{
    if bits == 0 || bits >= 128 {
        if v < 0 {
            u128::MAX - (magnitude - 1)
        } else {
            magnitude
        }
    } else {
        let m = pow2_of(bits);
        let rem = magnitude % m;
        if v < 0 {
            (m - rem) % m
        } else {
            rem
        }
    }
}

/// `n` without its trailing decimal zeros.
pub open spec fn strip_zeros(n: nat) -> nat
    decreases n,
{
    if n >= 10 && n % 10 == 0 {
        strip_zeros(n / 10)
    } else {
        n
    }
}

pub open spec fn decimal_len(n: nat) -> nat
    decreases n,
{
    if n < 10 {
        1
    } else {
        1 + decimal_len(n / 10)
    }
}

/// The fractional digits of `n` in scientific notation: the precision asked for, or
/// as many as `n` needs.
pub open spec fn exp_precision(n: nat, precision: Option<u16>) -> nat {
    match precision {
        Some(p) => p as nat,
        None => (decimal_len(strip_zeros(n)) - 1) as nat,
    }
}

pub open spec fn radix_prefix(alternate: bool, p: Seq<char>) -> Seq<char> {
    if alternate {
        p
    } else {
        seq![]
    }
}

/// An integer rendered in form `t`; `radix_value` is what the radix forms show.
pub open spec fn render_integer(v: int, radix_value: nat, t: Type, o: FieldOptions) -> Option<
    Seq<char>,
> {
    match t {
        Type::Display | Type::Debug => Some(
            integral(sign_text(v < 0, o.sign), seq![], digits(abs(v), 10, false), o),
        ),
        Type::Binary => Some(
            integral(
                sign_text(false, o.sign),
                radix_prefix(o.alternate, seq!['0', 'b']),
                digits(radix_value, 2, false),
                o,
            ),
        ),
        Type::Octal => Some(
            integral(
                sign_text(false, o.sign),
                radix_prefix(o.alternate, seq!['0', 'o']),
                digits(radix_value, 8, false),
                o,
            ),
        ),
        Type::LowerHex => Some(
            integral(
                sign_text(false, o.sign),
                radix_prefix(o.alternate, seq!['0', 'x']),
                digits(radix_value, 16, false),
                o,
            ),
        ),
        Type::UpperHex => Some(
            integral(
                sign_text(false, o.sign),
                radix_prefix(o.alternate, seq!['0', 'x']),
                digits(radix_value, 16, true),
                o,
            ),
        ),
        Type::LowerExp => Some(
            integral(
                sign_text(v < 0, o.sign),
                seq![],
                lower_exp_text(abs(v), exp_precision(abs(v), o.precision)),
                o,
            ),
        ),
        Type::UpperExp => Some(
            integral(
                sign_text(v < 0, o.sign),
                seq![],
                upper_exp_text(abs(v), exp_precision(abs(v), o.precision)),
                o,
            ),
        ),
        _ => None,
    }
}

/// The width that `{:#p}` uses when none is given: `0x` and two digits per byte.
pub open spec fn pointer_width() -> nat {
    if vstd::layout::size_of::<usize>() <= 16 {
        2 + 2 * vstd::layout::size_of::<usize>()
    } else {
        0
    }
}

/// The alternate form of `Pointer` pads with zeros, to the full width of an address by default.
pub open spec fn pointer_options(o: FieldOptions) -> FieldOptions {
    if o.alternate {
        FieldOptions {
            pad_zero: true,
            width: if o.width == 0 {
                pointer_width() as usize
            } else {
                o.width
            },
            ..o
        }
    } else {
        o
    }
}

pub open spec fn bool_text(b: bool) -> Seq<char> {
    if b {
        seq!['t', 'r', 'u', 'e']
    } else {
        seq!['f', 'a', 'l', 's', 'e']
    }
}

/// The field that value `v` renders to in form `t`, or `None` when `v` does not offer `t`.
pub open spec fn render_value(v: ValueModel, t: Type, o: FieldOptions) -> Option<Seq<char>> {
    match v {
        ValueModel::Signed(i, bits) => render_integer(i, low_bits(i, bits), t, o),
        ValueModel::Unsigned(n) => render_integer(n as int, n, t, o),
        ValueModel::Text(s) => if t == Type::Display {
            Some(text_field(s, o))
        } else if t == Type::Debug {
            Some(str_debug_text(s))
        } else {
            None
        },
        ValueModel::Char(c) => if t == Type::Display {
            Some(text_field(seq![c], o))
        } else if t == Type::Debug {
            Some(char_debug_text(c))
        } else {
            None
        },
        ValueModel::Bool(b) => if t == Type::Display || t == Type::Debug {
            Some(text_field(bool_text(b), o))
        } else {
            None
        },
        ValueModel::Address(a) => if t == Type::Pointer {
            Some(
                integral(
                    sign_text(false, o.sign),
                    seq!['0', 'x'],
                    digits(a, 16, false),
                    pointer_options(o),
                ),
            )
        } else {
            None
        },
    }
}

pub(crate) fn push_all(out: &mut Vec<char>, s: &Vec<char>)
    ensures
        final(out)@ == old(out)@ + s@,
{
    let mut i: usize = 0;
    while i < s.len()
        invariant
            i <= s@.len(),
            out@ == old(out)@ + s@.take(i as int),
        decreases s@.len() - i,
    {
        out.push(s[i]);
        i = i + 1;
        assert(s@.take(i as int) =~= s@.take(i - 1).push(s@[i - 1]));
    }
    assert(s@.take(s@.len() as int) =~= s@);
}

fn push_fill(out: &mut Vec<char>, c: char, n: usize)
    ensures
        final(out)@ == old(out)@ + fill_run(c, n as nat),
{
    let mut i: usize = 0;
    while i < n
        invariant
            i <= n,
            out@ == old(out)@ + fill_run(c, i as nat),
        decreases n - i,
    {
        out.push(c);
        i = i + 1;
        assert(fill_run(c, i as nat) =~= fill_run(c, (i - 1) as nat).push(c));
    }
}

/// Appends `body` padded to `width` characters.
fn push_padded(
    out: &mut Vec<char>,
    body: &Vec<char>,
    fill: char,
    alignment: Alignment,
    default: Alignment,
    width: usize,
)
    requires
        default != Alignment::Auto,
    ensures
        final(out)@ == old(out)@ + padded(body@, fill, alignment, default, width as nat),
{
    if body.len() >= width {
        push_all(out, body);
        return;
    }
    let n = width - body.len();
    let a = if alignment == Alignment::Auto {
        default
    } else {
        alignment
    };
    if a == Alignment::Left {
        push_all(out, body);
        push_fill(out, fill, n);
        assert(out@ =~= old(out)@ + (body@ + fill_run(fill, n as nat)));
    } else if a == Alignment::Center {
        push_fill(out, fill, n / 2);
        push_all(out, body);
        push_fill(out, fill, n - n / 2);
        assert(out@ =~= old(out)@ + (fill_run(fill, (n / 2) as nat) + body@ + fill_run(
            fill,
            (n - n / 2) as nat,
        )));
    } else {
        push_fill(out, fill, n);
        push_all(out, body);
        assert(out@ =~= old(out)@ + (fill_run(fill, n as nat) + body@));
    }
}

/// Appends a number laid out from its sign, prefix and digits.
fn push_integral(out: &mut Vec<char>, sign: &Vec<char>, prefix: &Vec<char>, digits: &Vec<char>, o: FieldOptions)
    ensures
        final(out)@ == old(out)@ + integral(sign@, prefix@, digits@, o),
{
    let mut body: Vec<char> = Vec::new();
    push_all(&mut body, sign);
    push_all(&mut body, prefix);
    let head_len = body.len();
    push_all(&mut body, digits);
    assert(body@ =~= sign@ + prefix@ + digits@);
    if o.pad_zero && body.len() < o.width {
        push_all(out, sign);
        push_all(out, prefix);
        push_fill(out, '0', o.width - body.len());
        push_all(out, digits);
        assert(out@ =~= old(out)@ + (sign@ + prefix@ + fill_run('0', (o.width - body@.len()) as nat)
            + digits@));
    } else {
        push_padded(out, &body, o.fill, o.alignment, Alignment::Right, o.width);
    }
}

fn digit_of(d: u128, upper: bool) -> (c: char)
    requires
        d < 16,
    ensures
        c == digit_char(d as nat, upper),
{
    if d == 0 {
        '0'
    } else if d == 1 {
        '1'
    } else if d == 2 {
        '2'
    } else if d == 3 {
        '3'
    } else if d == 4 {
        '4'
    } else if d == 5 {
        '5'
    } else if d == 6 {
        '6'
    } else if d == 7 {
        '7'
    } else if d == 8 {
        '8'
    } else if d == 9 {
        '9'
    } else if d == 10 {
        if upper {
            'A'
        } else {
            'a'
        }
    } else if d == 11 {
        if upper {
            'B'
        } else {
            'b'
        }
    } else if d == 12 {
        if upper {
            'C'
        } else {
            'c'
        }
    } else if d == 13 {
        if upper {
            'D'
        } else {
            'd'
        }
    } else if d == 14 {
        if upper {
            'E'
        } else {
            'e'
        }
    } else {
        if upper {
            'F'
        } else {
            'f'
        }
    }
}

/// Appends the digits of `n` in base `radix`.
pub(crate) fn push_digits(out: &mut Vec<char>, n: u128, radix: u128, upper: bool)
    requires
        2 <= radix <= 16,
    ensures
        final(out)@ == old(out)@ + digits(n as nat, radix as nat, upper),
    decreases n,
{
    if n < radix {
        out.push(digit_of(n, upper));
        assert(out@ =~= old(out)@ + seq![digit_char(n as nat, upper)]);
    } else {
        assert(n / radix < n) by (nonlinear_arith)
            requires
                radix >= 2,
                n >= radix,
        ;
        push_digits(out, n / radix, radix, upper);
        out.push(digit_of(n % radix, upper));
        assert(out@ =~= old(out)@ + digits((n / radix) as nat, radix as nat, upper).push(
            digit_char((n % radix) as nat, upper),
        ));
    }
}

fn digits_of(n: u128, radix: u128, upper: bool) -> (r: Vec<char>)
    requires
        2 <= radix <= 16,
    ensures
        r@ == digits(n as nat, radix as nat, upper),
{
    let mut r: Vec<char> = Vec::new();
    push_digits(&mut r, n, radix, upper);
    assert(r@ =~= digits(n as nat, radix as nat, upper));
    r
}

fn strip_trailing_zeros(n: u128) -> (r: u128)
    ensures
        r as nat == strip_zeros(n as nat),
    decreases n,
{
    if n >= 10 && n % 10 == 0 {
        strip_trailing_zeros(n / 10)
    } else {
        n
    }
}

fn decimal_length(n: u128) -> (r: usize)
    ensures
        r as nat == decimal_len(n as nat),
        r <= 39,
    decreases n,
{
    proof {
        lemma_decimal_len_le(n as nat);
    }
    if n < 10 {
        1
    } else {
        proof {
            lemma_decimal_len_le((n / 10) as nat);
        }
        1 + decimal_length(n / 10)
    }
}

pub open spec fn pow10(k: nat) -> nat
    decreases k,
{
    if k == 0 {
        1
    } else {
        10 * pow10((k - 1) as nat)
    }
}

proof fn lemma_decimal_len_bound(n: nat, k: nat)
    requires
        1 <= k,
        n < pow10(k),
    ensures
        decimal_len(n) <= k,
    decreases n,
{
    if n >= 10 {
        if k == 1 {
            assert(pow10(1) == 10 * pow10(0));
        }
        let j = (k - 1) as nat;
        assert(pow10(k) == 10 * pow10(j));
        assert(n / 10 < pow10(j)) by (nonlinear_arith)
            requires
                n < 10 * pow10(j),
        ;
        lemma_decimal_len_bound(n / 10, j);
    }
}

/// A 128-bit number has at most 39 decimal digits.
proof fn lemma_decimal_len_le(n: nat)
    requires
        n < 0x1_0000_0000_0000_0000_0000_0000_0000_0000,
    ensures
        decimal_len(n) <= 39,
{
    reveal_with_fuel(pow10, 40);
    assert(pow10(39) == 1_000_000_000_000_000_000_000_000_000_000_000_000_000);
    lemma_decimal_len_bound(n, 39);
}

fn sign_of(negative: bool, plus: bool) -> (r: Vec<char>)
    ensures
        r@ == sign_text(negative, plus),
{
    if negative {
        vec!['-']
    } else if plus {
        vec!['+']
    } else {
        Vec::new()
    }
}

fn prefix_of(alternate: bool, c: char) -> (r: Vec<char>)
    ensures
        r@ == radix_prefix(alternate, seq!['0', c]),
{
    if alternate {
        vec!['0', c]
    } else {
        Vec::new()
    }
}

fn push_chars_of_string(out: &mut Vec<char>, s: &String)
    ensures
        final(out)@ == old(out)@ + s@,
{
    let chars = chars_of(s.as_str());
    push_all(out, &chars);
}

/// Appends an integer in form `t`; `negative` and `magnitude` give `v`, `radix_value`
/// is what the radix forms show.
fn push_integer(
    out: &mut Vec<char>,
    Ghost(v): Ghost<int>,
    negative: bool,
    magnitude: u128,
    radix_value: u128,
    t: Type,
    o: FieldOptions,
) -> (r: bool)
    requires
        negative == (v < 0),
        magnitude as nat == abs(v),
    ensures
        r == render_integer(v, radix_value as nat, t, o) is Some,
        render_integer(v, radix_value as nat, t, o) matches Some(s) ==> final(out)@ == old(out)@ + s,
        render_integer(v, radix_value as nat, t, o) is None ==> final(out)@ == old(out)@,
{
    match t {
        Type::Display | Type::Debug => {
            let sign = sign_of(negative, o.sign);
            let ds = digits_of(magnitude, 10, false);
            push_integral(out, &sign, &Vec::new(), &ds, o);
            assert(Seq::<char>::empty() =~= seq![]);
        },
        Type::Binary | Type::Octal | Type::LowerHex | Type::UpperHex => {
            let sign = sign_of(false, o.sign);
            let (radix, letter, upper): (u128, char, bool) = match t {
                Type::Binary => (2, 'b', false),
                Type::Octal => (8, 'o', false),
                Type::LowerHex => (16, 'x', false),
                _ => (16, 'x', true),
            };
            let prefix = prefix_of(o.alternate, letter);
            let ds = digits_of(radix_value, radix, upper);
            push_integral(out, &sign, &prefix, &ds, o);
        },
        Type::LowerExp | Type::UpperExp => {
            let sign = sign_of(negative, o.sign);
            let precision: usize = match o.precision {
                Some(p) => p as usize,
                None => decimal_length(strip_trailing_zeros(magnitude)) - 1,
            };
            let text = if t == Type::LowerExp {
                lower_exp_of(magnitude, precision)
            } else {
                upper_exp_of(magnitude, precision)
            };
            let body = chars_of(text.as_str());
            push_scientific(out, negative, &body, o);
        },
        _ => {
            return false;
        },
    }
    true
}

/// Appends a number in scientific notation, from its sign and the mantissa-and-exponent
/// text of its magnitude.
fn push_scientific(out: &mut Vec<char>, negative: bool, text: &Vec<char>, o: FieldOptions)
    ensures
        final(out)@ == old(out)@ + integral(sign_text(negative, o.sign), seq![], text@, o),
{
    let sign = sign_of(negative, o.sign);
    push_integral(out, &sign, &Vec::new(), text, o);
    assert(Seq::<char>::empty() =~= seq![]);
}

/// Lays out a number in scientific notation in its field: `text` is what `{:e}` or
/// `{:E}` gives for the magnitude; the sign, zero padding and fill are added here.
pub fn scientific_field(negative: bool, text: &str, o: FieldOptions) -> (r: String)
    ensures
        r@ == integral(sign_text(negative, o.sign), seq![], text@, o),
{
    let mut out: Vec<char> = Vec::new();
    push_scientific(&mut out, negative, &chars_of(text), o);
    assert(out@ =~= integral(sign_text(negative, o.sign), seq![], text@, o));
    string_of(&out)
}

/// Appends text cut to the precision and padded.
fn push_text(out: &mut Vec<char>, s: &Vec<char>, o: FieldOptions)
    ensures
        final(out)@ == old(out)@ + text_field(s@, o),
{
    let cut = match o.precision {
        Some(p) => if (p as usize) < s.len() {
            sub_chars(s, 0, p as usize)
        } else {
            sub_chars(s, 0, s.len())
        },
        None => sub_chars(s, 0, s.len()),
    };
    assert(s@.subrange(0, s@.len() as int) =~= s@);
    push_padded(out, &cut, o.fill, o.alignment, Alignment::Left, o.width);
}

fn pointer_width_of() -> (r: usize)
    ensures
        r as nat == pointer_width(),
{
    let size = core::mem::size_of::<usize>();
    if size <= 16 {
        2 + 2 * size
    } else {
        0
    }
}

/// Appends the field that `v` renders to in form `t`. Returns false, appending
/// nothing, when `v` does not offer `t`.
pub fn push_value(out: &mut Vec<char>, v: &Value, t: Type, o: FieldOptions) -> (r: bool)
    ensures
        r == render_value(v@, t, o) is Some,
        render_value(v@, t, o) matches Some(s) ==> final(out)@ == old(out)@ + s,
        render_value(v@, t, o) is None ==> final(out)@ == old(out)@,
{
    match v {
        Value::Signed(i, bits) => {
            let negative = *i < 0;
            let magnitude: u128 = if negative {
                ((-(*i + 1)) as u128) + 1
            } else {
                *i as u128
            };
            let radix_value = low_bits_of(*i, *bits, magnitude);
            push_integer(out, Ghost(*i as int), negative, magnitude, radix_value, t, o)
        },
        Value::Unsigned(n) => push_integer(out, Ghost(*n as int), false, *n, *n, t, o),
        Value::Text(s) => {
            if t == Type::Display {
                let chars = chars_of(s.as_str());
                push_text(out, &chars, o);
                true
            } else if t == Type::Debug {
                let text = str_debug_of(s.as_str());
                push_chars_of_string(out, &text);
                true
            } else {
                false
            }
        },
        Value::Char(c) => {
            if t == Type::Display {
                let chars = vec![*c];
                assert(chars@ =~= seq![*c]);
                push_text(out, &chars, o);
                true
            } else if t == Type::Debug {
                let text = char_debug_of(*c);
                push_chars_of_string(out, &text);
                true
            } else {
                false
            }
        },
        Value::Bool(b) => {
            if t == Type::Display || t == Type::Debug {
                let chars = if *b {
                    vec!['t', 'r', 'u', 'e']
                } else {
                    vec!['f', 'a', 'l', 's', 'e']
                };
                assert(chars@ =~= bool_text(*b));
                push_text(out, &chars, o);
                true
            } else {
                false
            }
        },
        Value::Address(a) => {
            if t == Type::Pointer {
                let po = if o.alternate {
                    FieldOptions {
                        pad_zero: true,
                        width: if o.width == 0 {
                            pointer_width_of()
                        } else {
                            o.width
                        },
                        ..o
                    }
                } else {
                    o
                };
                let sign = sign_of(false, o.sign);
                let prefix = vec!['0', 'x'];
                assert(prefix@ =~= seq!['0', 'x']);
                let ds = digits_of(*a as u128, 16, false);
                push_integral(out, &sign, &prefix, &ds, po);
                true
            } else {
                false
            }
        },
    }
}

/// A bound value together with the form one placeholder renders it in.
pub struct TypedValue<'ct> {
    pub argument_value: &'ct ArgumentValue,
    pub ty: Type,
}

impl<'ct> TypedValue<'ct> {
    /// The field the value renders to, or `None` when its bundle does not include the
    /// form or the value does not offer it.
    pub fn render(&self, o: FieldOptions) -> (r: Option<String>)
        ensures
            match render_value(self.argument_value.payload(), self.ty, o) {
                Some(s) => if bundle_has(*self.argument_value, self.ty) {
                    r matches Some(x) && x@ == s
                } else {
                    r is None
                },
                None => r is None,
            },
    {
        if !self.argument_value.bundles(self.ty) {
            return None;
        }
        let mut out: Vec<char> = Vec::new();
        if push_value(&mut out, self.argument_value.value(), self.ty, o) {
            assert(out@ =~= Seq::<char>::empty() + out@);
            Some(string_of(&out))
        } else {
            None
        }
    }
}

} // verus!
