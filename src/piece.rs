//! Scanning a whole template into literal text, escaped braces and placeholders.
use vstd::prelude::*;

use crate::error::Error;
use crate::key::{ArgumentKey, KeyModel};
use crate::specifier::{parse_specifier, Specifier, SpecifierModel};
use crate::text::{
    all_digits, brace_at_or_after, chars_of, decimal_value, find_from,
    lemma_brace_scan, lemma_digit_run, lemma_find_from, parse_decimal, scan_digits, scan_to,
    scan_to_brace, string_of, sub_chars,
};

verus! {

/// One piece of a parsed template.
#[derive(Debug, Clone)]
pub enum Piece {
    Literal(String),
    /// `{{`, rendered as `{`.
    BracketOpen,
    /// `}}`, rendered as `}`.
    BracketClose,
    /// A placeholder; `specifier` is absent when the placeholder has no `:`.
    Argument { key: ArgumentKey, specifier: Option<Specifier> },
}

pub enum PieceModel {
    Literal(Seq<char>),
    BracketOpen,
    BracketClose,
    Argument { key: KeyModel, specifier: Option<SpecifierModel> },
}

impl View for Piece {
    type V = PieceModel;

    open spec fn view(&self) -> PieceModel {
        match self {
            Piece::Literal(s) => PieceModel::Literal(s@),
            Piece::BracketOpen => PieceModel::BracketOpen,
            Piece::BracketClose => PieceModel::BracketClose,
            Piece::Argument { key, specifier } => PieceModel::Argument {
                key: key@,
                specifier: match specifier {
                    Some(sp) => Some(sp@),
                    None => None,
                },
            },
        }
    }
}

pub open spec fn pieces_view(ps: Seq<Piece>) -> Seq<PieceModel> {
    ps.map_values(|p: Piece| p@)
}

pub open spec fn prepend(p: PieceModel, rest: Option<Seq<PieceModel>>) -> Option<Seq<PieceModel>> {
    match rest {
        Some(r) => Some(seq![p] + r),
        None => None,
    }
}

/// The key that the text before a placeholder's `:` denotes: empty takes the next
/// implicit index, digits give an index, anything else a name. An index too large
/// for `usize` is malformed.
pub open spec fn key_of(text: Seq<char>, counter: nat) -> Option<(KeyModel, nat)> {
    if text.len() == 0 {
        Some((KeyModel::Index(counter), counter + 1))
    } else if all_digits(text) {
        if decimal_value(text) <= usize::MAX {
            Some((KeyModel::Index(decimal_value(text)), counter))
        } else {
            None
        }
    } else {
        Some((KeyModel::Name(text), counter))
    }
}

/// The placeholder that the text between its braces denotes. The directive is read
/// before the key, so that a `.*` takes its implicit index first.
pub open spec fn parse_placeholder(content: Seq<char>, counter: nat) -> Option<(PieceModel, nat)> {
    let colon = find_from(content, 0, ':');
    if colon < content.len() {
        match parse_specifier(content.subrange(colon + 1, content.len() as int), counter) {
            None => None,
            Some((m, c1)) => match key_of(content.subrange(0, colon), c1) {
                Some((key, c2)) => Some((PieceModel::Argument { key, specifier: Some(m) }, c2)),
                None => None,
            },
        }
    } else {
        match key_of(content, counter) {
            Some((key, c2)) => Some((PieceModel::Argument { key, specifier: None }, c2)),
            None => None,
        }
    }
}

/// The pieces of `s` from position `i` on, with `counter` implicit indices taken so far;
/// `None` when the template is malformed.
pub open spec fn parse_pieces_from(s: Seq<char>, i: int, counter: nat) -> Option<Seq<PieceModel>>
    decreases s.len() - i,
    via parse_pieces_from_decreases
{
    if i < 0 || i >= s.len() {
        Some(seq![])
    } else if s[i] == '{' {
        if i + 1 < s.len() && s[i + 1] == '{' {
            prepend(PieceModel::BracketOpen, parse_pieces_from(s, i + 2, counter))
        } else {
            let close = brace_at_or_after(s, i + 1);
            if close < s.len() && s[close] == '}' {
                match parse_placeholder(s.subrange(i + 1, close), counter) {
                    None => None,
                    Some((p, c)) => prepend(p, parse_pieces_from(s, close + 1, c)),
                }
            } else {
                None
            }
        }
    } else if s[i] == '}' {
        if i + 1 < s.len() && s[i + 1] == '}' {
            prepend(PieceModel::BracketClose, parse_pieces_from(s, i + 2, counter))
        } else {
            None
        }
    } else {
        let e = brace_at_or_after(s, i);
        prepend(PieceModel::Literal(s.subrange(i, e)), parse_pieces_from(s, e, counter))
    }
}

#[via_fn]
proof fn parse_pieces_from_decreases(s: Seq<char>, i: int, counter: nat) {
    if 0 <= i < s.len() {
        lemma_brace_scan(s, i);
        if i + 1 <= s.len() {
            lemma_brace_scan(s, i + 1);
        }
    }
}

/// The pieces of a whole template, or `None` when it is malformed.
pub open spec fn parse_pieces(s: Seq<char>) -> Option<Seq<PieceModel>> {
    parse_pieces_from(s, 0, 0)
}

fn parse_key(text: &Vec<char>, counter: usize) -> (r: Result<(ArgumentKey, usize), Error>)
    requires
        counter < usize::MAX,
    ensures
        match key_of(text@, counter as nat) {
            Some((k, c)) => r matches Ok((key, c2)) && key@ == k && c2 == c,
            None => r == Err::<(ArgumentKey, usize), Error>(Error::UnexpectedToken),
        },
{
    if text.len() == 0 {
        return Ok((ArgumentKey::Index(counter), counter + 1));
    }
    let e = scan_digits(text, 0);
    proof {
        lemma_digit_run(text@, 0);
    }
    if e == text.len() {
        assert(text@.subrange(0, text@.len() as int) =~= text@);
        match parse_decimal(text, 0, e, usize::MAX as u64) {
            Some(v) => Ok((ArgumentKey::Index(v as usize), counter)),
            None => Err(Error::UnexpectedToken),
        }
    } else {
        assert(!all_digits(text@));
        Ok((ArgumentKey::Name(string_of(text)), counter))
    }
}

fn parse_placeholder_chars(content: &Vec<char>, counter: usize) -> (r: Result<(Piece, usize), Error>)
    requires
        counter + 1 < usize::MAX,
    ensures
        match parse_placeholder(content@, counter as nat) {
            Some((p, c)) => r matches Ok((parsed, c2)) && parsed@ == p && c2 == c,
            None => r == Err::<(Piece, usize), Error>(Error::UnexpectedToken),
        },
        r matches Ok((_, c2)) ==> c2 <= counter + 2,
{
    let colon = scan_to(content, 0, ':');
    proof {
        lemma_find_from(content@, 0, ':');
    }
    if colon < content.len() {
        let directive = sub_chars(content, colon + 1, content.len());
        let mut index = counter;
        let specifier = match Specifier::parse_chars(&directive, &mut index) {
            Ok(sp) => sp,
            Err(e) => return Err(e),
        };
        let key_text = sub_chars(content, 0, colon);
        let (key, c2) = match parse_key(&key_text, index) {
            Ok(x) => x,
            Err(e) => return Err(e),
        };
        Ok((Piece::Argument { key, specifier: Some(specifier) }, c2))
    } else {
        let (key, c2) = match parse_key(content, counter) {
            Ok(x) => x,
            Err(e) => return Err(e),
        };
        Ok((Piece::Argument { key, specifier: None }, c2))
    }
}

impl Piece {
    /// Parses a template into its pieces.
    pub fn parse(input: &str) -> (r: Result<Vec<Self>, Error>)
        ensures
            match parse_pieces(input@) {
                Some(ps) => r matches Ok(v) && pieces_view(v@) == ps,
                None => r == Err::<Vec<Self>, Error>(Error::UnexpectedToken),
            },
    {
        let s = chars_of(input);
        Self::parse_chars(&s)
    }

    /// Parses a template given as characters into its pieces.
    pub fn parse_chars(s: &Vec<char>) -> (r: Result<Vec<Self>, Error>)
        ensures
            match parse_pieces(s@) {
                Some(ps) => r matches Ok(v) && pieces_view(v@) == ps,
                None => r == Err::<Vec<Self>, Error>(Error::UnexpectedToken),
            },
    {
        let n = s.len();
        let mut pieces: Vec<Piece> = Vec::new();
        let mut i: usize = 0;
        let mut counter: usize = 0;
        while i < n
            invariant
                n == s@.len(),
                i <= n,
                counter <= i,
                parse_pieces(s@) == (match parse_pieces_from(s@, i as int, counter as nat) {
                    Some(rest) => Some(pieces_view(pieces@) + rest),
                    None => None,
                }),
            decreases n - i,
        {
            let ghost old_pieces = pieces@;
            let c = s[i];
            if c == '{' {
                if i + 1 < n && s[i + 1] == '{' {
                    pieces.push(Piece::BracketOpen);
                    i = i + 2;
                } else {
                    let close = scan_to_brace(s, i + 1);
                    proof {
                        lemma_brace_scan(s@, i + 1);
                    }
                    if close >= n || s[close] != '}' {
                        return Err(Error::UnexpectedToken);
                    }
                    let content = sub_chars(s, i + 1, close);
                    let (p, c2) = match parse_placeholder_chars(&content, counter) {
                        Ok(x) => x,
                        Err(e) => return Err(e),
                    };
                    pieces.push(p);
                    i = close + 1;
                    counter = c2;
                }
            } else if c == '}' {
                if i + 1 < n && s[i + 1] == '}' {
                    pieces.push(Piece::BracketClose);
                    i = i + 2;
                } else {
                    return Err(Error::UnexpectedToken);
                }
            } else {
                let e = scan_to_brace(s, i);
                proof {
                    lemma_brace_scan(s@, i as int);
                }
                let text = string_of(&sub_chars(s, i, e));
                pieces.push(Piece::Literal(text));
                i = e;
            }
            proof {
                assert(pieces_view(pieces@) =~= pieces_view(old_pieces) + seq![pieces@.last()@]);
            }
        }
        Ok(pieces)
    }
}

} // verus!
