use syntax_model::{lookup_ident, Precedence, Token, TokenType};

fn keyword_table() -> Vec<(&'static str, TokenType)> {
    vec![
        ("let", TokenType::Let),
        ("const", TokenType::Const),
        ("if", TokenType::If),
        ("else", TokenType::Else),
        ("while", TokenType::While),
        ("for", TokenType::For),
        ("loop", TokenType::Loop),
        ("break", TokenType::Break),
        ("continue", TokenType::Continue),
        ("return", TokenType::Return),
        ("fn", TokenType::Fn),
        ("struct", TokenType::Struct),
        ("enum", TokenType::Enum),
        ("trait", TokenType::Trait),
        ("impl", TokenType::Impl),
        ("mod", TokenType::Mod),
        ("use", TokenType::Use),
        ("pub", TokenType::Pub),
        ("self", TokenType::Self_),
        ("Self", TokenType::SelfType),
        ("as", TokenType::As),
        ("type", TokenType::Type),
        ("where", TokenType::Where),
        ("unsafe", TokenType::Unsafe),
        ("mut", TokenType::Mut),
        ("static", TokenType::Static),
        ("extern", TokenType::Extern),
        ("sizeof", TokenType::Sizeof),
        ("match", TokenType::Match),
        ("true", TokenType::True),
        ("false", TokenType::False),
        ("null", TokenType::Null),
    ]
}

fn tok(t: TokenType) -> Token {
    Token::new(t, String::new(), 1, 1)
}

#[test]
fn every_keyword_gets_its_tag() {
    for (text, tag) in keyword_table() {
        assert_eq!(lookup_ident(text), tag, "keyword {}", text);
    }
}

#[test]
fn keyword_tags_are_all_distinct() {
    let table = keyword_table();
    for (i, (_, a)) in table.iter().enumerate() {
        for (j, (_, b)) in table.iter().enumerate() {
            if i != j {
                assert_ne!(a, b);
            }
        }
    }
}

#[test]
fn other_text_is_an_identifier_carrying_it() {
    assert_eq!(lookup_ident("foo"), TokenType::Ident("foo".to_string()));
    assert_eq!(lookup_ident("x"), TokenType::Ident("x".to_string()));
    assert_eq!(lookup_ident("lets"), TokenType::Ident("lets".to_string()));
    assert_eq!(lookup_ident("le"), TokenType::Ident("le".to_string()));
    assert_eq!(lookup_ident("_"), TokenType::Ident("_".to_string()));
    assert_eq!(lookup_ident(""), TokenType::Ident(String::new()));
    assert_eq!(lookup_ident("naïve"), TokenType::Ident("naïve".to_string()));
}

#[test]
fn keyword_lookup_is_case_sensitive() {
    assert_eq!(lookup_ident("self"), TokenType::Self_);
    assert_eq!(lookup_ident("Self"), TokenType::SelfType);
    assert_ne!(lookup_ident("self"), lookup_ident("Self"));
    assert_eq!(lookup_ident("Let"), TokenType::Ident("Let".to_string()));
    assert_eq!(lookup_ident("TRUE"), TokenType::Ident("TRUE".to_string()));
}

#[test]
fn classifying_twice_gives_equal_tags() {
    for text in ["match", "Self", "counter", ""] {
        assert_eq!(lookup_ident(text), lookup_ident(text));
    }
}

#[test]
fn token_new_keeps_its_parts() {
    let t = Token::new(TokenType::IntLiteral("42".to_string()), "42".to_string(), 3, 9);
    assert_eq!(t.token_type, TokenType::IntLiteral("42".to_string()));
    assert_eq!(t.literal, "42");
    assert_eq!(t.line, 3);
    assert_eq!(t.column, 9);
}

#[test]
fn assignments_share_the_assign_level() {
    for t in [
        TokenType::Assign,
        TokenType::PlusAssign,
        TokenType::MinusAssign,
        TokenType::MulAssign,
        TokenType::DivAssign,
        TokenType::ModAssign,
        TokenType::BitOrAssign,
        TokenType::BitAndAssign,
        TokenType::BitXorAssign,
    ] {
        assert_eq!(tok(t).get_precedence(), Precedence::Assign);
    }
}

#[test]
fn operator_classes_get_their_levels() {
    let cases = vec![
        (TokenType::RangeExclusive, Precedence::Range),
        (TokenType::RangeInclusive, Precedence::Range),
        (TokenType::Or, Precedence::Or),
        (TokenType::And, Precedence::And),
        (TokenType::Eq, Precedence::Equals),
        (TokenType::NotEq, Precedence::Equals),
        (TokenType::Lt, Precedence::LessGreater),
        (TokenType::Gt, Precedence::LessGreater),
        (TokenType::LtEq, Precedence::LessGreater),
        (TokenType::GtEq, Precedence::LessGreater),
        (TokenType::BitOr, Precedence::BitOr),
        (TokenType::BitXor, Precedence::BitXor),
        (TokenType::BitAnd, Precedence::BitAnd),
        (TokenType::LeftShift, Precedence::Shift),
        (TokenType::RightShift, Precedence::Shift),
        (TokenType::Plus, Precedence::Sum),
        (TokenType::Minus, Precedence::Sum),
        (TokenType::Asterisk, Precedence::Product),
        (TokenType::Slash, Precedence::Product),
        (TokenType::Percent, Precedence::Product),
        (TokenType::LParen, Precedence::Call),
        (TokenType::LBracket, Precedence::Index),
        (TokenType::Dot, Precedence::Index),
    ];
    for (t, p) in cases {
        assert_eq!(tok(t).get_precedence(), p);
    }
}

#[test]
fn tags_without_an_infix_role_are_lowest() {
    for t in [
        TokenType::Illegal,
        TokenType::Eof,
        TokenType::Ident("x".to_string()),
        TokenType::IntLiteral("1".to_string()),
        TokenType::StringLiteral("s".to_string()),
        TokenType::Semicolon,
        TokenType::Comma,
        TokenType::RParen,
        TokenType::LBrace,
        TokenType::Let,
        TokenType::True,
        TokenType::Not,
        TokenType::BitNot,
    ] {
        assert_eq!(tok(t).get_precedence(), Precedence::Lowest);
    }
}

#[test]
fn precedence_ignores_text_and_position() {
    let a = Token::new(TokenType::Plus, "+".to_string(), 1, 1);
    let b = Token::new(TokenType::Plus, "plus".to_string(), 70, 12);
    assert_eq!(a.get_precedence(), b.get_precedence());
    assert_eq!(a.get_precedence(), a.get_precedence());
}

#[test]
fn assignment_binds_looser_than_addition() {
    let tokens = vec![
        Token::new(TokenType::Ident("x".to_string()), "x".to_string(), 1, 1),
        Token::new(TokenType::Assign, "=".to_string(), 1, 3),
        Token::new(TokenType::IntLiteral("1".to_string()), "1".to_string(), 1, 5),
        Token::new(TokenType::Plus, "+".to_string(), 1, 7),
        Token::new(TokenType::IntLiteral("2".to_string()), "2".to_string(), 1, 9),
    ];
    let assign = tokens[1].get_precedence();
    let plus = tokens[3].get_precedence();
    assert_eq!(assign, Precedence::Assign);
    assert_eq!(plus, Precedence::Sum);
    assert!(assign < plus);
    assert!(plus.binds_tighter_than(&assign));
    assert!(!assign.binds_tighter_than(&plus));
    assert_eq!(tokens[2].get_precedence(), Precedence::Lowest);
}
