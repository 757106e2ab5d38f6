//! The layout compiler: parses a declarative field-list description of a
//! record type and emits the record's accessor list.
//!
//! A description is a sequence of `Name = BackingType { field* }` blocks,
//! where each field is `name : start ;` (a one-bit flag),
//! `name : start - end ;` (an inclusive bit range), optionally followed by a
//! bracketed mutability annotation `[mut = true]` or `[mut = false]` before
//! the semicolon. The token model ([`Token`]) mirrors what a tokenizer
//! produces: identifiers, punctuation, numeric literals, and delimited
//! groups.
//!
//! Parsing either yields the record's field list or fails with a diagnostic
//! naming what was expected and what was found; nothing is emitted for a
//! description with an error. Emission is deterministic: per record, the
//! zero-valued default, the raw-value constructor and the raw get/set come
//! first, then one accessor group per field in declaration order — a getter
//! always, plus a setter (and for flags a clearer) only for mutable fields.
//! Overlapping fields and out-of-range bit indices are accepted as written:
//! the layout is the user's own decision.

use vstd::prelude::*;
use vstd::string::StringExecFns;

verus! {

/// The delimiter of a token group.
#[derive(Clone, Copy, Debug, PartialEq, Eq)]
pub enum GroupKind {
    Brace,
    Bracket,
    Paren,
}

/// One token of a record description.
#[derive(Debug, PartialEq, Eq)]
pub enum Token {
    Ident(String),
    Punct(char),
    Literal(u128),
    Group(GroupKind, Vec<Token>),
}

/// The kind of a token, for diagnostics.
#[derive(Clone, Copy, Debug, PartialEq, Eq)]
pub enum TokenKind {
    Ident,
    Punct,
    Literal,
    Group,
}

/// The kind of `t`.
pub open spec fn kind_of(t: Token) -> TokenKind {
    match t {
        Token::Ident(_) => TokenKind::Ident,
        Token::Punct(_) => TokenKind::Punct,
        Token::Literal(_) => TokenKind::Literal,
        Token::Group(_, _) => TokenKind::Group,
    }
}

/// The kind of `t`.
pub fn token_kind(t: &Token) -> (k: TokenKind)
    ensures
        k == kind_of(*t),
{
    match t {
        Token::Ident(_) => TokenKind::Ident,
        Token::Punct(_) => TokenKind::Punct,
        Token::Literal(_) => TokenKind::Literal,
        Token::Group(_, _) => TokenKind::Group,
    }
}

/// A parse diagnostic: what was expected, and what was found instead.
#[derive(Clone, Debug, PartialEq, Eq)]
pub enum ParseError {
    /// The tokens ended where another token was wanted.
    UnexpectedEnd { wanted: TokenKind },
    /// A token of the wrong kind stood where `wanted` was expected.
    WrongKind { wanted: TokenKind, found: TokenKind },
    /// The wrong punctuation character was found.
    WrongPunct { wanted: char, found: char },
    /// A group with the wrong delimiter stood where `wanted` was expected.
    WrongDelim { wanted: GroupKind },
    /// The wrong keyword was found.
    WrongIdent { wanted: String, found: String },
    /// The mutability annotation holds neither `true` nor `false`.
    UnknownMutability { found: String },
}

/// The specification-level view of a [`ParseError`].
pub enum ParseErrorV {
    UnexpectedEnd { wanted: TokenKind },
    WrongKind { wanted: TokenKind, found: TokenKind },
    WrongPunct { wanted: char, found: char },
    WrongDelim { wanted: GroupKind },
    WrongIdent { wanted: Seq<char>, found: Seq<char> },
    UnknownMutability { found: Seq<char> },
}

impl View for ParseError {
    type V = ParseErrorV;

    open spec fn view(&self) -> ParseErrorV {
        match self {
            ParseError::UnexpectedEnd { wanted } => ParseErrorV::UnexpectedEnd { wanted: *wanted },
            ParseError::WrongKind { wanted, found } => ParseErrorV::WrongKind {
                wanted: *wanted,
                found: *found,
            },
            ParseError::WrongPunct { wanted, found } => ParseErrorV::WrongPunct {
                wanted: *wanted,
                found: *found,
            },
            ParseError::WrongDelim { wanted } => ParseErrorV::WrongDelim { wanted: *wanted },
            ParseError::WrongIdent { wanted, found } => ParseErrorV::WrongIdent {
                wanted: wanted@,
                found: found@,
            },
            ParseError::UnknownMutability { found } => ParseErrorV::UnknownMutability {
                found: found@,
            },
        }
    }
}

/// One parsed field: a flag when `end` is absent, an inclusive bit range
/// when it is present; mutable unless annotated otherwise.
#[derive(Clone, Debug, PartialEq, Eq)]
pub struct FieldSpec {
    pub name: String,
    pub start: u128,
    pub end: Option<u128>,
    pub mutable: bool,
}

/// The specification-level view of a [`FieldSpec`].
pub struct FieldSpecV {
    pub name: Seq<char>,
    pub start: u128,
    pub end: Option<u128>,
    pub mutable: bool,
}

impl View for FieldSpec {
    type V = FieldSpecV;

    open spec fn view(&self) -> FieldSpecV {
        FieldSpecV { name: self.name@, start: self.start, end: self.end, mutable: self.mutable }
    }
}

/// One parsed record description: its name, its backing type's name, and its
/// fields in declaration order.
#[derive(Clone, Debug, PartialEq, Eq)]
pub struct RecordSpec {
    pub name: String,
    pub backing: String,
    pub fields: Vec<FieldSpec>,
}

/// The specification-level view of a [`RecordSpec`].
pub struct RecordSpecV {
    pub name: Seq<char>,
    pub backing: Seq<char>,
    pub fields: Seq<FieldSpecV>,
}

impl View for RecordSpec {
    type V = RecordSpecV;

    open spec fn view(&self) -> RecordSpecV {
        RecordSpecV {
            name: self.name@,
            backing: self.backing@,
            fields: self.fields@.map_values(|f: FieldSpec| f@),
        }
    }
}

/// One emitted item of a record: the record-level pieces that every record
/// gets, and the per-field accessors. `name` is the emitted method's name.
#[derive(Clone, Debug, PartialEq, Eq)]
pub enum Accessor {
    /// The zero-valued default constructor.
    DefaultZero,
    /// The constructor from a raw backing value.
    NewRaw,
    /// The raw getter of the whole backing value.
    GetInner,
    /// The raw setter of the whole backing value.
    SetInner,
    /// A flag getter, reading the bit at `index`.
    GetFlag { name: String, index: u128 },
    /// A flag setter, setting the bit at `index`.
    SetFlag { name: String, index: u128 },
    /// A flag clearer, clearing the bit at `index`.
    ClearFlag { name: String, index: u128 },
    /// A range getter, reading bits `start..=end`.
    GetRange { name: String, start: u128, end: u128 },
    /// A range setter, writing bits `start..=end`.
    SetRange { name: String, start: u128, end: u128 },
}

/// The specification-level view of an [`Accessor`].
pub enum AccessorV {
    DefaultZero,
    NewRaw,
    GetInner,
    SetInner,
    GetFlag { name: Seq<char>, index: u128 },
    SetFlag { name: Seq<char>, index: u128 },
    ClearFlag { name: Seq<char>, index: u128 },
    GetRange { name: Seq<char>, start: u128, end: u128 },
    SetRange { name: Seq<char>, start: u128, end: u128 },
}

impl View for Accessor {
    type V = AccessorV;

    open spec fn view(&self) -> AccessorV {
        match self {
            Accessor::DefaultZero => AccessorV::DefaultZero,
            Accessor::NewRaw => AccessorV::NewRaw,
            Accessor::GetInner => AccessorV::GetInner,
            Accessor::SetInner => AccessorV::SetInner,
            Accessor::GetFlag { name, index } => AccessorV::GetFlag {
                name: name@,
                index: *index,
            },
            Accessor::SetFlag { name, index } => AccessorV::SetFlag {
                name: name@,
                index: *index,
            },
            Accessor::ClearFlag { name, index } => AccessorV::ClearFlag {
                name: name@,
                index: *index,
            },
            Accessor::GetRange { name, start, end } => AccessorV::GetRange {
                name: name@,
                start: *start,
                end: *end,
            },
            Accessor::SetRange { name, start, end } => AccessorV::SetRange {
                name: name@,
                start: *start,
                end: *end,
            },
        }
    }
}

/// One compiled record: its name, its backing type's name, and every emitted
/// item, in emission order.
#[derive(Clone, Debug, PartialEq, Eq)]
pub struct RecordDef {
    pub name: String,
    pub backing: String,
    pub items: Vec<Accessor>,
}

/// The specification-level view of a [`RecordDef`].
pub struct RecordDefV {
    pub name: Seq<char>,
    pub backing: Seq<char>,
    pub items: Seq<AccessorV>,
}

impl View for RecordDef {
    type V = RecordDefV;

    open spec fn view(&self) -> RecordDefV {
        RecordDefV {
            name: self.name@,
            backing: self.backing@,
            items: self.items@.map_values(|a: Accessor| a@),
        }
    }
}

/// What the bracketed mutability annotation `[mut = true|false]` parses to:
/// the keyword `mut`, an equals sign, and one of the two literals. Tokens
/// after the annotation inside the bracket are ignored.
pub open spec fn spec_parse_mut(inner: Seq<Token>) -> Result<bool, ParseErrorV> {
    if inner.len() == 0 {
        Err(ParseErrorV::UnexpectedEnd { wanted: TokenKind::Ident })
    } else {
        match inner[0] {
            Token::Ident(w) => if w@ != "mut"@ {
                Err(ParseErrorV::WrongIdent { wanted: "mut"@, found: w@ })
            } else if inner.len() <= 1 {
                Err(ParseErrorV::UnexpectedEnd { wanted: TokenKind::Punct })
            } else {
                match inner[1] {
                    Token::Punct(c) => if c != '=' {
                        Err(ParseErrorV::WrongPunct { wanted: '=', found: c })
                    } else if inner.len() <= 2 {
                        Err(ParseErrorV::UnexpectedEnd { wanted: TokenKind::Ident })
                    } else {
                        match inner[2] {
                            Token::Ident(v) => if v@ == "true"@ {
                                Ok(true)
                            } else if v@ == "false"@ {
                                Ok(false)
                            } else {
                                Err(ParseErrorV::UnknownMutability { found: v@ })
                            },
                            t => Err(ParseErrorV::WrongKind {
                                wanted: TokenKind::Ident,
                                found: kind_of(t),
                            }),
                        }
                    },
                    t => Err(ParseErrorV::WrongKind {
                        wanted: TokenKind::Punct,
                        found: kind_of(t),
                    }),
                }
            },
            t => Err(ParseErrorV::WrongKind { wanted: TokenKind::Ident, found: kind_of(t) }),
        }
    }
}

/// The closing semicolon of a field, and the finished field.
pub open spec fn spec_parse_semi(
    ts: Seq<Token>,
    p: int,
    name: Seq<char>,
    start: u128,
    end: Option<u128>,
    mutable: bool,
) -> Result<(FieldSpecV, int), ParseErrorV> {
    if p >= ts.len() {
        Err(ParseErrorV::UnexpectedEnd { wanted: TokenKind::Punct })
    } else {
        match ts[p] {
            Token::Punct(c) => if c == ';' {
                Ok((FieldSpecV { name, start, end, mutable }, p + 1))
            } else {
                Err(ParseErrorV::WrongPunct { wanted: ';', found: c })
            },
            t => Err(ParseErrorV::WrongKind { wanted: TokenKind::Punct, found: kind_of(t) }),
        }
    }
}

/// The optional mutability annotation of a field. A group of any delimiter
/// standing here is consumed; only a bracket group carries the annotation.
pub open spec fn spec_parse_annot(
    ts: Seq<Token>,
    p: int,
    name: Seq<char>,
    start: u128,
    end: Option<u128>,
) -> Result<(FieldSpecV, int), ParseErrorV> {
    if p < ts.len() {
        match ts[p] {
            Token::Group(d, inner) => if d == GroupKind::Bracket {
                match spec_parse_mut(inner@) {
                    Ok(m) => spec_parse_semi(ts, p + 1, name, start, end, m),
                    Err(e) => Err(e),
                }
            } else {
                spec_parse_semi(ts, p + 1, name, start, end, true)
            },
            _ => spec_parse_semi(ts, p, name, start, end, true),
        }
    } else {
        spec_parse_semi(ts, p, name, start, end, true)
    }
}

/// The optional `- end` part of a field. A `-` here must be followed by a
/// literal; any other token is left for the annotation and semicolon.
pub open spec fn spec_parse_tail(
    ts: Seq<Token>,
    p: int,
    name: Seq<char>,
    start: u128,
) -> Result<(FieldSpecV, int), ParseErrorV> {
    if p < ts.len() && (ts[p] matches Token::Punct('-')) {
        if p + 1 >= ts.len() {
            Err(ParseErrorV::UnexpectedEnd { wanted: TokenKind::Literal })
        } else {
            match ts[p + 1] {
                Token::Literal(e) => spec_parse_annot(ts, p + 2, name, start, Some(e)),
                t => Err(ParseErrorV::WrongKind {
                    wanted: TokenKind::Literal,
                    found: kind_of(t),
                }),
            }
        }
    } else {
        spec_parse_annot(ts, p, name, start, None)
    }
}

/// One field declaration starting at `p`: `name : start [- end] [annot] ;`.
/// On success the parse stands just past the semicolon.
pub open spec fn spec_parse_field(ts: Seq<Token>, p: int) -> Result<
    (FieldSpecV, int),
    ParseErrorV,
> {
    if p >= ts.len() {
        Err(ParseErrorV::UnexpectedEnd { wanted: TokenKind::Ident })
    } else {
        match ts[p] {
            Token::Ident(name) => if p + 1 >= ts.len() {
                Err(ParseErrorV::UnexpectedEnd { wanted: TokenKind::Punct })
            } else {
                match ts[p + 1] {
                    Token::Punct(c) => if c != ':' {
                        Err(ParseErrorV::WrongPunct { wanted: ':', found: c })
                    } else if p + 2 >= ts.len() {
                        Err(ParseErrorV::UnexpectedEnd { wanted: TokenKind::Literal })
                    } else {
                        match ts[p + 2] {
                            Token::Literal(start) => spec_parse_tail(ts, p + 3, name@, start),
                            t => Err(ParseErrorV::WrongKind {
                                wanted: TokenKind::Literal,
                                found: kind_of(t),
                            }),
                        }
                    },
                    t => Err(ParseErrorV::WrongKind {
                        wanted: TokenKind::Punct,
                        found: kind_of(t),
                    }),
                }
            },
            t => Err(ParseErrorV::WrongKind { wanted: TokenKind::Ident, found: kind_of(t) }),
        }
    }
}

/// The whole field list of a record body, parsed from `p` to the end of the
/// tokens.
pub open spec fn spec_parse_fields(ts: Seq<Token>, p: int) -> Result<Seq<FieldSpecV>, ParseErrorV>
    decreases ts.len() - p,
{
    if p >= ts.len() {
        Ok(Seq::empty())
    } else {
        match spec_parse_field(ts, p) {
            Err(e) => Err(e),
            Ok((f, p2)) => if p < p2 <= ts.len() {
                match spec_parse_fields(ts, p2) {
                    Ok(fs) => Ok(seq![f] + fs),
                    Err(e) => Err(e),
                }
            } else {
                // a successful field parse always advances; never reached
                Ok(seq![f])
            },
        }
    }
}

/// One record block starting at `p`: `Name = BackingType { field* }`. On
/// success the parse stands just past the braced body.
pub open spec fn spec_parse_record(ts: Seq<Token>, p: int) -> Result<
    (RecordSpecV, int),
    ParseErrorV,
> {
    if p >= ts.len() {
        Err(ParseErrorV::UnexpectedEnd { wanted: TokenKind::Ident })
    } else {
        match ts[p] {
            Token::Ident(name) => if p + 1 >= ts.len() {
                Err(ParseErrorV::UnexpectedEnd { wanted: TokenKind::Punct })
            } else {
                match ts[p + 1] {
                    Token::Punct(c) => if c != '=' {
                        Err(ParseErrorV::WrongPunct { wanted: '=', found: c })
                    } else if p + 2 >= ts.len() {
                        Err(ParseErrorV::UnexpectedEnd { wanted: TokenKind::Ident })
                    } else {
                        match ts[p + 2] {
                            Token::Ident(ty) => if p + 3 >= ts.len() {
                                Err(ParseErrorV::UnexpectedEnd { wanted: TokenKind::Group })
                            } else {
                                match ts[p + 3] {
                                    Token::Group(d, inner) => if d != GroupKind::Brace {
                                        Err(ParseErrorV::WrongDelim { wanted: GroupKind::Brace })
                                    } else {
                                        match spec_parse_fields(inner@, 0) {
                                            Ok(fs) => Ok((
                                                RecordSpecV {
                                                    name: name@,
                                                    backing: ty@,
                                                    fields: fs,
                                                },
                                                p + 4,
                                            )),
                                            Err(e) => Err(e),
                                        }
                                    },
                                    t => Err(ParseErrorV::WrongKind {
                                        wanted: TokenKind::Group,
                                        found: kind_of(t),
                                    }),
                                }
                            },
                            t => Err(ParseErrorV::WrongKind {
                                wanted: TokenKind::Ident,
                                found: kind_of(t),
                            }),
                        }
                    },
                    t => Err(ParseErrorV::WrongKind {
                        wanted: TokenKind::Punct,
                        found: kind_of(t),
                    }),
                }
            },
            t => Err(ParseErrorV::WrongKind { wanted: TokenKind::Ident, found: kind_of(t) }),
        }
    }
}

/// Every record block of a description, parsed from `p` to the end of the
/// tokens. The first error aborts the whole description.
pub open spec fn spec_parse_records(ts: Seq<Token>, p: int) -> Result<
    Seq<RecordSpecV>,
    ParseErrorV,
>
    decreases ts.len() - p,
{
    if p >= ts.len() {
        Ok(Seq::empty())
    } else {
        match spec_parse_record(ts, p) {
            Err(e) => Err(e),
            Ok((r, p2)) => if p < p2 <= ts.len() {
                match spec_parse_records(ts, p2) {
                    Ok(rs) => Ok(seq![r] + rs),
                    Err(e) => Err(e),
                }
            } else {
                // a successful record parse always advances; never reached
                Ok(seq![r])
            },
        }
    }
}

/// The accessors emitted for a flag field: a getter always, a setter and a
/// clearer only when the field is mutable.
pub open spec fn spec_flag_accessors(name: Seq<char>, index: u128, mutable: bool) -> Seq<
    AccessorV,
> {
    if mutable {
        seq![
            AccessorV::GetFlag { name: "get_"@ + name, index },
            AccessorV::SetFlag { name: "set_"@ + name, index },
            AccessorV::ClearFlag { name: "clear_"@ + name, index },
        ]
    } else {
        seq![AccessorV::GetFlag { name: "get_"@ + name, index }]
    }
}

/// The accessors emitted for a range field: a getter always, a setter only
/// when the field is mutable.
pub open spec fn spec_range_accessors(
    name: Seq<char>,
    start: u128,
    end: u128,
    mutable: bool,
) -> Seq<AccessorV> {
    if mutable {
        seq![
            AccessorV::GetRange { name: "get_"@ + name, start, end },
            AccessorV::SetRange { name: "set_"@ + name, start, end },
        ]
    } else {
        seq![AccessorV::GetRange { name: "get_"@ + name, start, end }]
    }
}

/// The accessors emitted for one field.
pub open spec fn spec_field_accessors(f: FieldSpecV) -> Seq<AccessorV> {
    match f.end {
        Some(e) => spec_range_accessors(f.name, f.start, e, f.mutable),
        None => spec_flag_accessors(f.name, f.start, f.mutable),
    }
}

/// The accessors emitted for a field list, in declaration order.
pub open spec fn spec_fields_accessors(fs: Seq<FieldSpecV>) -> Seq<AccessorV>
    decreases fs.len(),
{
    if fs.len() == 0 {
        Seq::empty()
    } else {
        spec_fields_accessors(fs.drop_last()) + spec_field_accessors(fs.last())
    }
}

/// Everything emitted for one record: the zero-valued default, the raw-value
/// constructor, the raw get/set of the backing value, then the per-field
/// accessors in declaration order.
pub open spec fn spec_record_items(r: RecordSpecV) -> Seq<AccessorV> {
    seq![AccessorV::DefaultZero, AccessorV::NewRaw, AccessorV::GetInner, AccessorV::SetInner]
        + spec_fields_accessors(r.fields)
}

/// The compiled form of one record.
pub open spec fn spec_emit_record(r: RecordSpecV) -> RecordDefV {
    RecordDefV { name: r.name, backing: r.backing, items: spec_record_items(r) }
}

/// The compiled form of a whole description: every record compiled, or the
/// first parse error.
pub open spec fn spec_bitfield(ts: Seq<Token>) -> Result<Seq<RecordDefV>, ParseErrorV> {
    match spec_parse_records(ts, 0) {
        Ok(rs) => Ok(rs.map_values(|r: RecordSpecV| spec_emit_record(r))),
        Err(e) => Err(e),
    }
}

/// Parses the bracketed mutability annotation: the keyword `mut`, an equals
/// sign, and `true` or `false`. Tokens after the value are ignored.
pub fn parse_mut(inner: &Vec<Token>) -> (r: Result<bool, ParseError>)
    ensures
        (r matches Ok(m) ==> spec_parse_mut(inner@) == Ok::<bool, ParseErrorV>(m)),
        (r matches Err(e) ==> spec_parse_mut(inner@) == Err::<bool, ParseErrorV>(e@)),
{
    if inner.len() == 0 {
        return Err(ParseError::UnexpectedEnd { wanted: TokenKind::Ident });
    }
    let mut_kw: String = "mut".to_owned();
    match &inner[0] {
        Token::Ident(w) => {
            if !(*w == mut_kw) {
                return Err(ParseError::WrongIdent { wanted: mut_kw, found: w.clone() });
            }
        },
        t => {
            return Err(ParseError::WrongKind { wanted: TokenKind::Ident, found: token_kind(t) });
        },
    }
    if inner.len() <= 1 {
        return Err(ParseError::UnexpectedEnd { wanted: TokenKind::Punct });
    }
    match &inner[1] {
        Token::Punct(c) => {
            if *c != '=' {
                return Err(ParseError::WrongPunct { wanted: '=', found: *c });
            }
        },
        t => {
            return Err(ParseError::WrongKind { wanted: TokenKind::Punct, found: token_kind(t) });
        },
    }
    if inner.len() <= 2 {
        return Err(ParseError::UnexpectedEnd { wanted: TokenKind::Ident });
    }
    let true_kw: String = "true".to_owned();
    let false_kw: String = "false".to_owned();
    match &inner[2] {
        Token::Ident(v) => {
            if *v == true_kw {
                Ok(true)
            } else if *v == false_kw {
                Ok(false)
            } else {
                Err(ParseError::UnknownMutability { found: v.clone() })
            }
        },
        t => Err(ParseError::WrongKind { wanted: TokenKind::Ident, found: token_kind(t) }),
    }
}

/// Parses one field declaration starting at `pos`:
/// `name : start [- end] [mut = true|false] ;`.
pub fn parse_field(ts: &Vec<Token>, pos: usize) -> (r: Result<(FieldSpec, usize), ParseError>)
    ensures
        (r matches Ok((f, p2)) ==> (spec_parse_field(ts@, pos as int) == Ok::<
            (FieldSpecV, int),
            ParseErrorV,
        >((f@, p2 as int)) && pos < p2 <= ts@.len())),
        (r matches Err(e) ==> spec_parse_field(ts@, pos as int) == Err::<
            (FieldSpecV, int),
            ParseErrorV,
        >(e@)),
{
    if pos >= ts.len() {
        return Err(ParseError::UnexpectedEnd { wanted: TokenKind::Ident });
    }
    let name: String;
    match &ts[pos] {
        Token::Ident(s) => {
            name = s.clone();
        },
        t => {
            return Err(ParseError::WrongKind { wanted: TokenKind::Ident, found: token_kind(t) });
        },
    }
    if pos + 1 >= ts.len() {
        return Err(ParseError::UnexpectedEnd { wanted: TokenKind::Punct });
    }
    match &ts[pos + 1] {
        Token::Punct(c) => {
            if *c != ':' {
                return Err(ParseError::WrongPunct { wanted: ':', found: *c });
            }
        },
        t => {
            return Err(ParseError::WrongKind { wanted: TokenKind::Punct, found: token_kind(t) });
        },
    }
    if pos + 2 >= ts.len() {
        return Err(ParseError::UnexpectedEnd { wanted: TokenKind::Literal });
    }
    let start: u128;
    match &ts[pos + 2] {
        Token::Literal(n) => {
            start = *n;
        },
        t => {
            return Err(ParseError::WrongKind {
                wanted: TokenKind::Literal,
                found: token_kind(t),
            });
        },
    }
    let mut p: usize = pos + 3;
    let mut end: Option<u128> = None;
    if p < ts.len() {
        let dash = match &ts[p] {
            Token::Punct(c) => *c == '-',
            _ => false,
        };
        if dash {
            if p + 1 >= ts.len() {
                return Err(ParseError::UnexpectedEnd { wanted: TokenKind::Literal });
            }
            match &ts[p + 1] {
                Token::Literal(n) => {
                    end = Some(*n);
                },
                t => {
                    return Err(ParseError::WrongKind {
                        wanted: TokenKind::Literal,
                        found: token_kind(t),
                    });
                },
            }
            p = p + 2;
        }
    }
    let mut mutable = true;
    if p < ts.len() {
        let group = matches!(&ts[p], Token::Group(_, _));
        if group {
            match &ts[p] {
                Token::Group(d, inner) => {
                    if matches!(d, GroupKind::Bracket) {
                        match parse_mut(inner) {
                            Ok(m) => {
                                mutable = m;
                            },
                            Err(e) => {
                                return Err(e);
                            },
                        }
                    }
                },
                _ => {},
            }
            p = p + 1;
        }
    }
    if p >= ts.len() {
        return Err(ParseError::UnexpectedEnd { wanted: TokenKind::Punct });
    }
    match &ts[p] {
        Token::Punct(c) => {
            if *c != ';' {
                return Err(ParseError::WrongPunct { wanted: ';', found: *c });
            }
        },
        t => {
            return Err(ParseError::WrongKind { wanted: TokenKind::Punct, found: token_kind(t) });
        },
    }
    Ok((FieldSpec { name, start, end, mutable }, p + 1))
}

/// Parses one record block starting at `pos`:
/// `Name = BackingType { field* }`.
#[verifier::loop_isolation(false)]
pub fn parse_bitfield(ts: &Vec<Token>, pos: usize) -> (r: Result<(RecordSpec, usize), ParseError>)
    ensures
        (r matches Ok((rec, p2)) ==> (spec_parse_record(ts@, pos as int) == Ok::<
            (RecordSpecV, int),
            ParseErrorV,
        >((rec@, p2 as int)) && pos < p2 <= ts@.len())),
        (r matches Err(e) ==> spec_parse_record(ts@, pos as int) == Err::<
            (RecordSpecV, int),
            ParseErrorV,
        >(e@)),
{
    if pos >= ts.len() {
        return Err(ParseError::UnexpectedEnd { wanted: TokenKind::Ident });
    }
    let name: String;
    match &ts[pos] {
        Token::Ident(s) => {
            name = s.clone();
        },
        t => {
            return Err(ParseError::WrongKind { wanted: TokenKind::Ident, found: token_kind(t) });
        },
    }
    if pos + 1 >= ts.len() {
        return Err(ParseError::UnexpectedEnd { wanted: TokenKind::Punct });
    }
    match &ts[pos + 1] {
        Token::Punct(c) => {
            if *c != '=' {
                return Err(ParseError::WrongPunct { wanted: '=', found: *c });
            }
        },
        t => {
            return Err(ParseError::WrongKind { wanted: TokenKind::Punct, found: token_kind(t) });
        },
    }
    if pos + 2 >= ts.len() {
        return Err(ParseError::UnexpectedEnd { wanted: TokenKind::Ident });
    }
    let backing: String;
    match &ts[pos + 2] {
        Token::Ident(s) => {
            backing = s.clone();
        },
        t => {
            return Err(ParseError::WrongKind { wanted: TokenKind::Ident, found: token_kind(t) });
        },
    }
    if pos + 3 >= ts.len() {
        return Err(ParseError::UnexpectedEnd { wanted: TokenKind::Group });
    }
    let body: &Vec<Token>;
    match &ts[pos + 3] {
        Token::Group(d, inner) => {
            if !matches!(d, GroupKind::Brace) {
                return Err(ParseError::WrongDelim { wanted: GroupKind::Brace });
            }
            proof {
                assert(ts@[pos as int + 3] == Token::Group(*d, *inner));
                assert(*d == GroupKind::Brace);
            }
            body = inner;
        },
        t => {
            return Err(ParseError::WrongKind { wanted: TokenKind::Group, found: token_kind(t) });
        },
    }
    let mut fields: Vec<FieldSpec> = Vec::new();
    let mut p: usize = 0;
    while p < body.len()
        invariant
            p <= body.len(),
            spec_parse_fields(body@, 0) == (match spec_parse_fields(body@, p as int) {
                Ok(fs) => Ok::<Seq<FieldSpecV>, ParseErrorV>(
                    fields@.map_values(|f: FieldSpec| f@) + fs,
                ),
                Err(e) => Err::<Seq<FieldSpecV>, ParseErrorV>(e),
            }),
        decreases body@.len() - p,
    {
        match parse_field(body, p) {
            Ok((f, p2)) => {
                proof {
                    let fsv = fields@.map_values(|ff: FieldSpec| ff@);
                    let sp2 = spec_parse_fields(body@, p2 as int);
                    assert(spec_parse_fields(body@, p as int) == (match sp2 {
                        Ok(fs) => Ok::<Seq<FieldSpecV>, ParseErrorV>(seq![f@] + fs),
                        Err(e) => Err::<Seq<FieldSpecV>, ParseErrorV>(e),
                    }));
                    if sp2 is Ok {
                        assert(fields@.push(f).map_values(|ff: FieldSpec| ff@) =~= fsv.push(f@));
                        assert(fsv + (seq![f@] + sp2->Ok_0) =~= fsv.push(f@) + sp2->Ok_0);
                    }
                }
                fields.push(f);
                p = p2;
            },
            Err(e) => {
                proof {
                    assert(spec_parse_fields(body@, p as int) == Err::<
                        Seq<FieldSpecV>,
                        ParseErrorV,
                    >(e@));
                    assert(spec_parse_fields(body@, 0) == Err::<Seq<FieldSpecV>, ParseErrorV>(
                        e@,
                    ));
                    assert(ts@[pos as int + 3] matches Token::Group(d0, inner0) && inner0@
                        == body@);
                    assert(spec_parse_record(ts@, pos as int) == Err::<
                        (RecordSpecV, int),
                        ParseErrorV,
                    >(e@));
                }
                return Err(e);
            },
        }
    }
    let rec = RecordSpec { name, backing, fields };
    proof {
        assert(spec_parse_fields(body@, p as int) == Ok::<Seq<FieldSpecV>, ParseErrorV>(
            Seq::empty(),
        ));
        assert(rec.fields@.map_values(|f: FieldSpec| f@) + Seq::<FieldSpecV>::empty()
            =~= rec.fields@.map_values(|f: FieldSpec| f@));
    }
    Ok((rec, pos + 4))
}

/// The emitted method name: `prefix` followed by the field's name.
fn accessor_name(prefix: &str, name: &String) -> (r: String)
    ensures
        r@ == prefix@ + name@,
{
    let p: String = prefix.to_owned();
    p.concat(name.as_str())
}

/// Emits the accessors of a flag field: `get_<name>` always, and when the
/// field is mutable also `set_<name>` and `clear_<name>`.
pub fn make_field_single_byte(name: &String, index: u128, mutable: bool) -> (r: Vec<Accessor>)
    ensures
        r@.map_values(|a: Accessor| a@) == spec_flag_accessors(name@, index, mutable),
{
    let mut v: Vec<Accessor> = Vec::new();
    v.push(Accessor::GetFlag { name: accessor_name("get_", name), index });
    if mutable {
        v.push(Accessor::SetFlag { name: accessor_name("set_", name), index });
        v.push(Accessor::ClearFlag { name: accessor_name("clear_", name), index });
    }
    proof {
        assert(v@.map_values(|a: Accessor| a@) =~= spec_flag_accessors(name@, index, mutable));
    }
    v
}

/// Emits the accessors of a range field: `get_<name>` always, and when the
/// field is mutable also `set_<name>`.
pub fn make_field_multi_byte(name: &String, start: u128, end: u128, mutable: bool) -> (r: Vec<
    Accessor,
>)
    ensures
        r@.map_values(|a: Accessor| a@) == spec_range_accessors(name@, start, end, mutable),
{
    let mut v: Vec<Accessor> = Vec::new();
    v.push(Accessor::GetRange { name: accessor_name("get_", name), start, end });
    if mutable {
        v.push(Accessor::SetRange { name: accessor_name("set_", name), start, end });
    }
    proof {
        assert(v@.map_values(|a: Accessor| a@) =~= spec_range_accessors(
            name@,
            start,
            end,
            mutable,
        ));
    }
    v
}

/// Compiles one parsed record: the record-level items first, then one
/// accessor group per field in declaration order.
#[verifier::loop_isolation(false)]
pub fn emit_record(rec: &RecordSpec) -> (r: RecordDef)
    ensures
        r@ == spec_emit_record(rec@),
{
    let mut items: Vec<Accessor> = Vec::new();
    items.push(Accessor::DefaultZero);
    items.push(Accessor::NewRaw);
    items.push(Accessor::GetInner);
    items.push(Accessor::SetInner);
    proof {
        assert(rec.fields@.subrange(0, 0).map_values(|ff: FieldSpec| ff@)
            =~= Seq::<FieldSpecV>::empty());
        assert(items@.map_values(|a: Accessor| a@) =~= seq![
            AccessorV::DefaultZero,
            AccessorV::NewRaw,
            AccessorV::GetInner,
            AccessorV::SetInner,
        ] + spec_fields_accessors(rec.fields@.subrange(0, 0).map_values(|ff: FieldSpec| ff@)));
    }
    let mut i: usize = 0;
    while i < rec.fields.len()
        invariant
            i <= rec.fields.len(),
            items@.map_values(|a: Accessor| a@) == seq![
                AccessorV::DefaultZero,
                AccessorV::NewRaw,
                AccessorV::GetInner,
                AccessorV::SetInner,
            ] + spec_fields_accessors(
                rec.fields@.subrange(0, i as int).map_values(|ff: FieldSpec| ff@),
            ),
        decreases rec.fields@.len() - i,
    {
        let f = &rec.fields[i];
        let mut acc: Vec<Accessor> = match &f.end {
            Some(e) => make_field_multi_byte(&f.name, f.start, *e, f.mutable),
            None => make_field_single_byte(&f.name, f.start, f.mutable),
        };
        let ghost old_items = items@;
        let ghost accv = acc@;
        items.append(&mut acc);
        proof {
            let prefix = rec.fields@.subrange(0, i as int).map_values(|ff: FieldSpec| ff@);
            let withf = rec.fields@.subrange(0, i + 1).map_values(|ff: FieldSpec| ff@);
            assert(rec.fields@.subrange(0, i + 1) =~= rec.fields@.subrange(0, i as int).push(
                rec.fields@[i as int],
            ));
            assert(withf =~= prefix.push(f@));
            assert(withf.drop_last() =~= prefix);
            assert(withf.last() == f@);
            assert(items@ == old_items + accv);
            assert(accv.map_values(|a: Accessor| a@) == spec_field_accessors(f@));
            assert(spec_fields_accessors(withf) == spec_fields_accessors(prefix)
                + spec_field_accessors(f@));
            assert(items@.map_values(|a: Accessor| a@) =~= old_items.map_values(
                |a: Accessor| a@,
            ) + accv.map_values(|a: Accessor| a@));
            assert(items@.map_values(|a: Accessor| a@) =~= seq![
                AccessorV::DefaultZero,
                AccessorV::NewRaw,
                AccessorV::GetInner,
                AccessorV::SetInner,
            ] + spec_fields_accessors(withf));
        }
        i = i + 1;
    }
    proof {
        assert(rec.fields@.subrange(0, rec.fields@.len() as int) =~= rec.fields@);
    }
    RecordDef { name: rec.name.clone(), backing: rec.backing.clone(), items }
}

/// Compiles a whole description: parses every record block in turn and emits
/// each record. The first parse error aborts the whole description and
/// nothing is emitted.
#[verifier::loop_isolation(false)]
pub fn bitfield(ts: &Vec<Token>) -> (r: Result<Vec<RecordDef>, ParseError>)
    ensures
        (r matches Ok(defs) ==> spec_bitfield(ts@) == Ok::<Seq<RecordDefV>, ParseErrorV>(
            defs@.map_values(|d: RecordDef| d@),
        )),
        (r matches Err(e) ==> spec_bitfield(ts@) == Err::<Seq<RecordDefV>, ParseErrorV>(e@)),
{
    let mut recs: Vec<RecordSpec> = Vec::new();
    let mut p: usize = 0;
    while p < ts.len()
        invariant
            p <= ts.len(),
            spec_parse_records(ts@, 0) == (match spec_parse_records(ts@, p as int) {
                Ok(rs) => Ok::<Seq<RecordSpecV>, ParseErrorV>(
                    recs@.map_values(|rr: RecordSpec| rr@) + rs,
                ),
                Err(e) => Err::<Seq<RecordSpecV>, ParseErrorV>(e),
            }),
        decreases ts@.len() - p,
    {
        match parse_bitfield(ts, p) {
            Ok((rec, p2)) => {
                proof {
                    let rsv = recs@.map_values(|rr: RecordSpec| rr@);
                    let sp2 = spec_parse_records(ts@, p2 as int);
                    assert(spec_parse_records(ts@, p as int) == (match sp2 {
                        Ok(rs) => Ok::<Seq<RecordSpecV>, ParseErrorV>(seq![rec@] + rs),
                        Err(e) => Err::<Seq<RecordSpecV>, ParseErrorV>(e),
                    }));
                    if sp2 is Ok {
                        assert(recs@.push(rec).map_values(|rr: RecordSpec| rr@) =~= rsv.push(
                            rec@,
                        ));
                        assert(rsv + (seq![rec@] + sp2->Ok_0) =~= rsv.push(rec@) + sp2->Ok_0);
                    }
                }
                recs.push(rec);
                p = p2;
            },
            Err(e) => {
                proof {
                    assert(spec_parse_records(ts@, p as int) == Err::<
                        Seq<RecordSpecV>,
                        ParseErrorV,
                    >(e@));
                }
                return Err(e);
            },
        }
    }
    proof {
        assert(spec_parse_records(ts@, p as int) == Ok::<Seq<RecordSpecV>, ParseErrorV>(
            Seq::empty(),
        ));
        assert(recs@.map_values(|rr: RecordSpec| rr@) + Seq::<RecordSpecV>::empty()
            =~= recs@.map_values(|rr: RecordSpec| rr@));
    }
    let mut defs: Vec<RecordDef> = Vec::new();
    let mut i: usize = 0;
    proof {
        assert(defs@.map_values(|d: RecordDef| d@) =~= recs@.subrange(0, 0).map_values(
            |rr: RecordSpec| spec_emit_record(rr@),
        ));
    }
    while i < recs.len()
        invariant
            i <= recs.len(),
            spec_parse_records(ts@, 0) == Ok::<Seq<RecordSpecV>, ParseErrorV>(
                recs@.map_values(|rr: RecordSpec| rr@),
            ),
            defs@.map_values(|d: RecordDef| d@) == recs@.subrange(0, i as int).map_values(
                |rr: RecordSpec| spec_emit_record(rr@),
            ),
        decreases recs@.len() - i,
    {
        let d = emit_record(&recs[i]);
        let ghost old_defs = defs@;
        defs.push(d);
        proof {
            assert(d@ == spec_emit_record(recs@[i as int]@));
            assert(recs@.subrange(0, i + 1) =~= recs@.subrange(0, i as int).push(
                recs@[i as int],
            ));
            assert(defs@ == old_defs.push(d));
            let lhs = defs@.map_values(|dd: RecordDef| dd@);
            let rhs = recs@.subrange(0, i + 1).map_values(|rr: RecordSpec| spec_emit_record(rr@));
            assert(lhs.len() == rhs.len());
            assert forall|k: int| 0 <= k < lhs.len() implies lhs[k] == rhs[k] by {
                if k < i {
                    assert(old_defs.map_values(|dd: RecordDef| dd@)[k] == recs@.subrange(
                        0,
                        i as int,
                    ).map_values(|rr: RecordSpec| spec_emit_record(rr@))[k]);
                }
            };
            assert(lhs =~= rhs);
        }
        i = i + 1;
    }
    proof {
        assert(recs@.subrange(0, recs@.len() as int) =~= recs@);
        assert(defs@.map_values(|d: RecordDef| d@) =~= recs@.map_values(
            |rr: RecordSpec| spec_emit_record(rr@),
        ));
        assert(recs@.map_values(|rr: RecordSpec| spec_emit_record(rr@)) =~= recs@.map_values(
            |rr: RecordSpec| rr@,
        ).map_values(|rv: RecordSpecV| spec_emit_record(rv)));
    }
    Ok(defs)
}


} // verus!
