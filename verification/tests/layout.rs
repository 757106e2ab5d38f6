use bitfi::layout::{
    bitfield, make_field_multi_byte, make_field_single_byte, parse_bitfield, parse_field,
    parse_mut, Accessor, GroupKind, ParseError, Token, TokenKind,
};
use bitfi::{range_convrt, BitBound, BitRange};

fn ident(s: &str) -> Token {
    Token::Ident(s.to_string())
}

fn record_tokens() -> Vec<Token> {
    // TestBf = u16 { on: 2; love: 0 - 1; }
    vec![
        ident("TestBf"),
        Token::Punct('='),
        ident("u16"),
        Token::Group(
            GroupKind::Brace,
            vec![
                ident("on"),
                Token::Punct(':'),
                Token::Literal(2),
                Token::Punct(';'),
                ident("love"),
                Token::Punct(':'),
                Token::Literal(0),
                Token::Punct('-'),
                Token::Literal(1),
                Token::Punct(';'),
            ],
        ),
    ]
}

fn record2_tokens() -> Vec<Token> {
    // TestB2 = u32 { love: 0 - 1; love2: 2 - 4; war: 5 - 8 [mut = false]; }
    vec![
        ident("TestB2"),
        Token::Punct('='),
        ident("u32"),
        Token::Group(
            GroupKind::Brace,
            vec![
                ident("love"),
                Token::Punct(':'),
                Token::Literal(0),
                Token::Punct('-'),
                Token::Literal(1),
                Token::Punct(';'),
                ident("love2"),
                Token::Punct(':'),
                Token::Literal(2),
                Token::Punct('-'),
                Token::Literal(4),
                Token::Punct(';'),
                ident("war"),
                Token::Punct(':'),
                Token::Literal(5),
                Token::Punct('-'),
                Token::Literal(8),
                Token::Group(
                    GroupKind::Bracket,
                    vec![ident("mut"), Token::Punct('='), ident("false")],
                ),
                Token::Punct(';'),
            ],
        ),
    ]
}

#[test]
fn parses_one_record() {
    let ts = record_tokens();
    let (rec, next) = parse_bitfield(&ts, 0).unwrap();
    assert_eq!(next, 4);
    assert_eq!(rec.name, "TestBf");
    assert_eq!(rec.backing, "u16");
    assert_eq!(rec.fields.len(), 2);
    assert_eq!(rec.fields[0].name, "on");
    assert_eq!(rec.fields[0].start, 2);
    assert_eq!(rec.fields[0].end, None);
    assert!(rec.fields[0].mutable);
    assert_eq!(rec.fields[1].name, "love");
    assert_eq!(rec.fields[1].start, 0);
    assert_eq!(rec.fields[1].end, Some(1));
    assert!(rec.fields[1].mutable);
}

#[test]
fn parses_mutability_annotation() {
    let ts = record2_tokens();
    let (rec, _) = parse_bitfield(&ts, 0).unwrap();
    assert_eq!(rec.fields.len(), 3);
    assert!(rec.fields[0].mutable);
    assert!(rec.fields[1].mutable);
    assert_eq!(rec.fields[2].name, "war");
    assert_eq!(rec.fields[2].end, Some(8));
    assert!(!rec.fields[2].mutable);
}

#[test]
fn compiles_two_records() {
    let mut ts = record_tokens();
    ts.extend(record2_tokens());
    let defs = bitfield(&ts).unwrap();
    assert_eq!(defs.len(), 2);
    assert_eq!(defs[0].name, "TestBf");
    assert_eq!(defs[1].name, "TestB2");
    assert_eq!(defs[1].backing, "u32");

    // every record gets its fixed items first
    assert_eq!(defs[0].items[0], Accessor::DefaultZero);
    assert_eq!(defs[0].items[1], Accessor::NewRaw);
    assert_eq!(defs[0].items[2], Accessor::GetInner);
    assert_eq!(defs[0].items[3], Accessor::SetInner);

    // the flag `on` gets a getter, a setter and a clearer
    assert_eq!(
        defs[0].items[4],
        Accessor::GetFlag { name: "get_on".to_string(), index: 2 }
    );
    assert_eq!(
        defs[0].items[5],
        Accessor::SetFlag { name: "set_on".to_string(), index: 2 }
    );
    assert_eq!(
        defs[0].items[6],
        Accessor::ClearFlag { name: "clear_on".to_string(), index: 2 }
    );
    assert_eq!(
        defs[0].items[7],
        Accessor::GetRange { name: "get_love".to_string(), start: 0, end: 1 }
    );
    assert_eq!(
        defs[0].items[8],
        Accessor::SetRange { name: "set_love".to_string(), start: 0, end: 1 }
    );
    assert_eq!(defs[0].items.len(), 9);
}

#[test]
fn immutable_field_gets_only_a_getter() {
    let ts = record2_tokens();
    let defs = bitfield(&ts).unwrap();
    let items = &defs[0].items;
    // war: only get_war; no set_war anywhere in the emitted items
    assert!(items.contains(&Accessor::GetRange {
        name: "get_war".to_string(),
        start: 5,
        end: 8
    }));
    for it in items {
        if let Accessor::SetRange { name, .. } = it {
            assert_ne!(name, "set_war");
        }
    }
}

#[test]
fn flag_emission_respects_mutability() {
    let name = "on".to_string();
    let mutable = make_field_single_byte(&name, 2, true);
    assert_eq!(mutable.len(), 3);
    let immutable = make_field_single_byte(&name, 2, false);
    assert_eq!(immutable.len(), 1);
    assert_eq!(
        immutable[0],
        Accessor::GetFlag { name: "get_on".to_string(), index: 2 }
    );
}

#[test]
fn range_emission_respects_mutability() {
    let name = "war".to_string();
    let mutable = make_field_multi_byte(&name, 5, 8, true);
    assert_eq!(mutable.len(), 2);
    let immutable = make_field_multi_byte(&name, 5, 8, false);
    assert_eq!(immutable.len(), 1);
    assert_eq!(
        immutable[0],
        Accessor::GetRange { name: "get_war".to_string(), start: 5, end: 8 }
    );
}

#[test]
fn error_unexpected_end() {
    let ts = vec![ident("A")];
    let e = parse_bitfield(&ts, 0).unwrap_err();
    assert_eq!(e, ParseError::UnexpectedEnd { wanted: TokenKind::Punct });
}

#[test]
fn error_wrong_kind() {
    let ts = vec![Token::Literal(3)];
    let e = parse_bitfield(&ts, 0).unwrap_err();
    assert_eq!(
        e,
        ParseError::WrongKind { wanted: TokenKind::Ident, found: TokenKind::Literal }
    );
}

#[test]
fn error_wrong_punct() {
    let ts = vec![ident("A"), Token::Punct('+'), ident("u8")];
    let e = parse_bitfield(&ts, 0).unwrap_err();
    assert_eq!(e, ParseError::WrongPunct { wanted: '=', found: '+' });
}

#[test]
fn error_wrong_delimiter() {
    let ts = vec![
        ident("A"),
        Token::Punct('='),
        ident("u8"),
        Token::Group(GroupKind::Paren, vec![]),
    ];
    let e = parse_bitfield(&ts, 0).unwrap_err();
    assert_eq!(e, ParseError::WrongDelim { wanted: GroupKind::Brace });
}

#[test]
fn error_wrong_ident() {
    let inner = vec![ident("mtu"), Token::Punct('='), ident("true")];
    let e = parse_mut(&inner).unwrap_err();
    assert_eq!(
        e,
        ParseError::WrongIdent { wanted: "mut".to_string(), found: "mtu".to_string() }
    );
}

#[test]
fn error_unknown_mutability() {
    let inner = vec![ident("mut"), Token::Punct('='), ident("maybe")];
    let e = parse_mut(&inner).unwrap_err();
    assert_eq!(e, ParseError::UnknownMutability { found: "maybe".to_string() });
}

#[test]
fn error_aborts_whole_description() {
    let mut ts = record_tokens();
    ts.push(Token::Literal(7));
    let r = bitfield(&ts);
    assert_eq!(
        r.unwrap_err(),
        ParseError::WrongKind { wanted: TokenKind::Ident, found: TokenKind::Literal }
    );
}

#[test]
fn field_parse_positions() {
    let body = vec![
        ident("on"),
        Token::Punct(':'),
        Token::Literal(2),
        Token::Punct(';'),
    ];
    let (f, next) = parse_field(&body, 0).unwrap();
    assert_eq!(next, 4);
    assert_eq!(f.name, "on");
    assert_eq!(f.start, 2);
    assert_eq!(f.end, None);
    assert!(f.mutable);
}

#[test]
fn non_bracket_group_before_semicolon_is_skipped() {
    let body = vec![
        ident("on"),
        Token::Punct(':'),
        Token::Literal(2),
        Token::Group(GroupKind::Paren, vec![ident("noise")]),
        Token::Punct(';'),
    ];
    let (f, next) = parse_field(&body, 0).unwrap();
    assert_eq!(next, 5);
    assert!(f.mutable);
}

#[test]
fn range_convrt_bounds() {
    let r: (u8, u8) = range_convrt(BitRange {
        start: BitBound::Unbounded,
        end: BitBound::Unbounded,
    });
    assert_eq!(r, (0, 7));

    let r: (u32, u32) = range_convrt(BitRange {
        start: BitBound::Included(3),
        end: BitBound::Excluded(8),
    });
    assert_eq!(r, (3, 7));

    let r: (u16, u16) = range_convrt(BitRange {
        start: BitBound::Excluded(4),
        end: BitBound::Included(9),
    });
    assert_eq!(r, (3, 9));

    let r: (u128, u128) = range_convrt(BitRange {
        start: BitBound::Unbounded,
        end: BitBound::Unbounded,
    });
    assert_eq!(r, (0, 127));
}
