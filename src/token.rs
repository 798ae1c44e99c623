//! Tokens: the closed set of lexical tags, keyword lookup, and the binding
//! strength of each tag.
use vstd::prelude::*;
use vstd::utf8::encode_utf8_decode_utf8;
use crate::precedence::Precedence;

verus! {

/// A classified lexical unit with its position in the source.
#[derive(Debug, Clone, PartialEq, Eq)]
pub struct Token {
    pub token_type: TokenType,
    pub literal: String,
    pub line: usize,
    pub column: usize,
}

/// The closed set of token tags.
#[derive(PartialEq, Eq, Debug, Clone)]
pub enum TokenType {
    Illegal,
    Eof,
    Ident(String),
    IntLiteral(String),
    FloatLiteral(String),
    CharLiteral(String),
    StringLiteral(String),
    /// `=`
    Assign,
    /// `+`
    Plus,
    /// `-`
    Minus,
    /// `*`
    Asterisk,
    /// `/`
    Slash,
    /// `%`
    Percent,
    /// `|`
    BitOr,
    /// `&`
    BitAnd,
    /// `^`
    BitXor,
    /// `~`
    BitNot,
    /// `+=`
    PlusAssign,
    /// `-=`
    MinusAssign,
    /// `*=`
    MulAssign,
    /// `/=`
    DivAssign,
    /// `%=`
    ModAssign,
    /// `|=`
    BitOrAssign,
    /// `&=`
    BitAndAssign,
    /// `^=`
    BitXorAssign,
    /// `==`
    Eq,
    /// `!=`
    NotEq,
    /// `<`
    Lt,
    /// `>`
    Gt,
    /// `<=`
    LtEq,
    /// `>=`
    GtEq,
    /// `&&`
    And,
    /// `||`
    Or,
    /// `!`
    Not,
    /// `<<`
    LeftShift,
    /// `>>`
    RightShift,
    /// prefix `&`
    Ampersand,
    /// prefix `*`
    Dereference,
    /// `->` as a pointer operator
    Arrow,
    LParen,
    RParen,
    LBrace,
    RBrace,
    LBracket,
    RBracket,
    Semicolon,
    Colon,
    DoubleColon,
    Comma,
    Dot,
    /// `..`
    RangeExclusive,
    /// `..=`
    RangeInclusive,
    /// `=>`
    FatArrow,
    /// `->` before a return type
    ThinArrow,
    /// `?`
    Question,
    Let,
    Const,
    If,
    Else,
    While,
    For,
    Loop,
    Break,
    Continue,
    Return,
    Fn,
    Struct,
    Enum,
    Trait,
    Impl,
    Mod,
    Use,
    Pub,
    /// `self`
    Self_,
    /// `Self`
    SelfType,
    As,
    Type,
    Where,
    Unsafe,
    Mut,
    Static,
    Extern,
    Sizeof,
    Match,
    True,
    False,
    Null,
}

/// The binding strength of a tag. Assignments share one level, comparisons
/// share one, `(`, `[` and `.` continue an expression at the highest
/// operator levels, and a tag with no infix role stops absorbing.
pub open spec fn precedence_of(t: TokenType) -> Precedence {
    match t {
        TokenType::Assign | TokenType::PlusAssign | TokenType::MinusAssign
        | TokenType::MulAssign | TokenType::DivAssign | TokenType::ModAssign
        | TokenType::BitOrAssign | TokenType::BitAndAssign
        | TokenType::BitXorAssign => Precedence::Assign,
        TokenType::RangeExclusive | TokenType::RangeInclusive => Precedence::Range,
        TokenType::Or => Precedence::Or,
        TokenType::And => Precedence::And,
        TokenType::Eq | TokenType::NotEq => Precedence::Equals,
        TokenType::Lt | TokenType::Gt | TokenType::LtEq
        | TokenType::GtEq => Precedence::LessGreater,
        TokenType::BitOr => Precedence::BitOr,
        TokenType::BitXor => Precedence::BitXor,
        TokenType::BitAnd => Precedence::BitAnd,
        TokenType::LeftShift | TokenType::RightShift => Precedence::Shift,
        TokenType::Plus | TokenType::Minus => Precedence::Sum,
        TokenType::Asterisk | TokenType::Slash | TokenType::Percent => Precedence::Product,
        TokenType::LParen => Precedence::Call,
        TokenType::LBracket | TokenType::Dot => Precedence::Index,
        _ => Precedence::Lowest,
    }
}

/// The keyword tag that a spelling stands for, if it is a keyword.
pub open spec fn keyword_of(s: Seq<char>) -> Option<TokenType> {
    if s == "let"@ {
        Some(TokenType::Let)
    } else if s == "const"@ {
        Some(TokenType::Const)
    } else if s == "if"@ {
        Some(TokenType::If)
    } else if s == "else"@ {
        Some(TokenType::Else)
    } else if s == "while"@ {
        Some(TokenType::While)
    } else if s == "for"@ {
        Some(TokenType::For)
    } else if s == "loop"@ {
        Some(TokenType::Loop)
    } else if s == "break"@ {
        Some(TokenType::Break)
    } else if s == "continue"@ {
        Some(TokenType::Continue)
    } else if s == "return"@ {
        Some(TokenType::Return)
    } else if s == "fn"@ {
        Some(TokenType::Fn)
    } else if s == "struct"@ {
        Some(TokenType::Struct)
    } else if s == "enum"@ {
        Some(TokenType::Enum)
    } else if s == "trait"@ {
        Some(TokenType::Trait)
    } else if s == "impl"@ {
        Some(TokenType::Impl)
    } else if s == "mod"@ {
        Some(TokenType::Mod)
    } else if s == "use"@ {
        Some(TokenType::Use)
    } else if s == "pub"@ {
        Some(TokenType::Pub)
    } else if s == "self"@ {
        Some(TokenType::Self_)
    } else if s == "Self"@ {
        Some(TokenType::SelfType)
    } else if s == "as"@ {
        Some(TokenType::As)
    } else if s == "type"@ {
        Some(TokenType::Type)
    } else if s == "where"@ {
        Some(TokenType::Where)
    } else if s == "unsafe"@ {
        Some(TokenType::Unsafe)
    } else if s == "mut"@ {
        Some(TokenType::Mut)
    } else if s == "static"@ {
        Some(TokenType::Static)
    } else if s == "extern"@ {
        Some(TokenType::Extern)
    } else if s == "sizeof"@ {
        Some(TokenType::Sizeof)
    } else if s == "match"@ {
        Some(TokenType::Match)
    } else if s == "true"@ {
        Some(TokenType::True)
    } else if s == "false"@ {
        Some(TokenType::False)
    } else if s == "null"@ {
        Some(TokenType::Null)
    } else {
        None
    }
}

/// The spelling of a keyword tag; `None` for a tag that is no keyword.
pub open spec fn keyword_spelling(t: TokenType) -> Option<Seq<char>> {
    match t {
        TokenType::Let => Some("let"@),
        TokenType::Const => Some("const"@),
        TokenType::If => Some("if"@),
        TokenType::Else => Some("else"@),
        TokenType::While => Some("while"@),
        TokenType::For => Some("for"@),
        TokenType::Loop => Some("loop"@),
        TokenType::Break => Some("break"@),
        TokenType::Continue => Some("continue"@),
        TokenType::Return => Some("return"@),
        TokenType::Fn => Some("fn"@),
        TokenType::Struct => Some("struct"@),
        TokenType::Enum => Some("enum"@),
        TokenType::Trait => Some("trait"@),
        TokenType::Impl => Some("impl"@),
        TokenType::Mod => Some("mod"@),
        TokenType::Use => Some("use"@),
        TokenType::Pub => Some("pub"@),
        TokenType::Self_ => Some("self"@),
        TokenType::SelfType => Some("Self"@),
        TokenType::As => Some("as"@),
        TokenType::Type => Some("type"@),
        TokenType::Where => Some("where"@),
        TokenType::Unsafe => Some("unsafe"@),
        TokenType::Mut => Some("mut"@),
        TokenType::Static => Some("static"@),
        TokenType::Extern => Some("extern"@),
        TokenType::Sizeof => Some("sizeof"@),
        TokenType::Match => Some("match"@),
        TokenType::True => Some("true"@),
        TokenType::False => Some("false"@),
        TokenType::Null => Some("null"@),
        _ => None,
    }
}

/// Whether `r` is the tag for the text `s`: its keyword tag if it is a
/// keyword, else an identifier that carries `s` itself.
pub open spec fn classifies(s: Seq<char>, r: TokenType) -> bool {
    match keyword_of(s) {
        Some(k) => r == k,
        None => r is Ident && r->Ident_0@ == s,
    }
}

/// Two tags are the same: the same variant, and for a variant that carries
/// text, the same text.
pub open spec fn same_token_type(a: TokenType, b: TokenType) -> bool {
    match (a, b) {
        (TokenType::Ident(x), TokenType::Ident(y)) => x@ == y@,
        (TokenType::IntLiteral(x), TokenType::IntLiteral(y)) => x@ == y@,
        (TokenType::FloatLiteral(x), TokenType::FloatLiteral(y)) => x@ == y@,
        (TokenType::CharLiteral(x), TokenType::CharLiteral(y)) => x@ == y@,
        (TokenType::StringLiteral(x), TokenType::StringLiteral(y)) => x@ == y@,
        _ => a == b,
    }
}

impl Token {
    pub fn new(token_type: TokenType, literal: String, line: usize, column: usize) -> (r: Self)
        ensures
            r.token_type == token_type,
            r.literal == literal,
            r.line == line,
            r.column == column,
    {
        Token { token_type, literal, line, column }
    }

    /// The binding strength of this token, a function of its tag alone.
    pub fn get_precedence(&self) -> (r: Precedence)
        ensures
            r == precedence_of(self.token_type),
    {
        match &self.token_type {
            TokenType::Assign | TokenType::PlusAssign | TokenType::MinusAssign
            | TokenType::MulAssign | TokenType::DivAssign | TokenType::ModAssign
            | TokenType::BitOrAssign | TokenType::BitAndAssign
            | TokenType::BitXorAssign => Precedence::Assign,
            TokenType::RangeExclusive | TokenType::RangeInclusive => Precedence::Range,
            TokenType::Or => Precedence::Or,
            TokenType::And => Precedence::And,
            TokenType::Eq | TokenType::NotEq => Precedence::Equals,
            TokenType::Lt | TokenType::Gt | TokenType::LtEq
            | TokenType::GtEq => Precedence::LessGreater,
            TokenType::BitOr => Precedence::BitOr,
            TokenType::BitXor => Precedence::BitXor,
            TokenType::BitAnd => Precedence::BitAnd,
            TokenType::LeftShift | TokenType::RightShift => Precedence::Shift,
            TokenType::Plus | TokenType::Minus => Precedence::Sum,
            TokenType::Asterisk | TokenType::Slash | TokenType::Percent => Precedence::Product,
            TokenType::LParen => Precedence::Call,
            TokenType::LBracket | TokenType::Dot => Precedence::Index,
            _ => Precedence::Lowest,
        }
    }
}

/// Whether two byte strings are equal.
fn bytes_equal(a: &[u8], b: &[u8]) -> (r: bool)
    ensures
        r == (a@ == b@),
{
    if a.len() != b.len() {
        return false;
    }
    let mut i: usize = 0;
    while i < a.len()
        invariant
            a@.len() == b@.len(),
            i <= a@.len(),
            forall|j: int| 0 <= j < i ==> a@[j] == b@[j],
        decreases a@.len() - i,
    {
        if a[i] != b[i] {
            return false;
        }
        i = i + 1;
    }
    assert(a@ =~= b@);
    true
}

/// Whether two strings hold the same characters.
fn text_is(a: &str, b: &str) -> (r: bool)
    ensures
        r == (a@ == b@),
{
    let r = bytes_equal(a.as_bytes(), b.as_bytes());
    proof {
        encode_utf8_decode_utf8(a@);
        encode_utf8_decode_utf8(b@);
    }
    r
}

/// Classifies identifier-shaped text: a keyword gets its own tag, and any
/// other text an identifier tag that carries it. The lookup is exact and
/// case-sensitive, and reads nothing but the text.
pub fn lookup_ident(ident: &str) -> (r: TokenType)
    ensures
        classifies(ident@, r),
{
    if text_is(ident, "let") {
        TokenType::Let
    } else if text_is(ident, "const") {
        TokenType::Const
    } else if text_is(ident, "if") {
        TokenType::If
    } else if text_is(ident, "else") {
        TokenType::Else
    } else if text_is(ident, "while") {
        TokenType::While
    } else if text_is(ident, "for") {
        TokenType::For
    } else if text_is(ident, "loop") {
        TokenType::Loop
    } else if text_is(ident, "break") {
        TokenType::Break
    } else if text_is(ident, "continue") {
        TokenType::Continue
    } else if text_is(ident, "return") {
        TokenType::Return
    } else if text_is(ident, "fn") {
        TokenType::Fn
    } else if text_is(ident, "struct") {
        TokenType::Struct
    } else if text_is(ident, "enum") {
        TokenType::Enum
    } else if text_is(ident, "trait") {
        TokenType::Trait
    } else if text_is(ident, "impl") {
        TokenType::Impl
    } else if text_is(ident, "mod") {
        TokenType::Mod
    } else if text_is(ident, "use") {
        TokenType::Use
    } else if text_is(ident, "pub") {
        TokenType::Pub
    } else if text_is(ident, "self") {
        TokenType::Self_
    } else if text_is(ident, "Self") {
        TokenType::SelfType
    } else if text_is(ident, "as") {
        TokenType::As
    } else if text_is(ident, "type") {
        TokenType::Type
    } else if text_is(ident, "where") {
        TokenType::Where
    } else if text_is(ident, "unsafe") {
        TokenType::Unsafe
    } else if text_is(ident, "mut") {
        TokenType::Mut
    } else if text_is(ident, "static") {
        TokenType::Static
    } else if text_is(ident, "extern") {
        TokenType::Extern
    } else if text_is(ident, "sizeof") {
        TokenType::Sizeof
    } else if text_is(ident, "match") {
        TokenType::Match
    } else if text_is(ident, "true") {
        TokenType::True
    } else if text_is(ident, "false") {
        TokenType::False
    } else if text_is(ident, "null") {
        TokenType::Null
    } else {
        TokenType::Ident(ident.to_owned())
    }
}

/// Each keyword spelling is classified as its own keyword tag, and a
/// spelling classified as a keyword is that keyword's spelling: no two
/// keywords share a spelling, and no keyword has two.
pub proof fn lemma_keywords_are_exact(s: Seq<char>, t: TokenType)
    ensures
        keyword_spelling(t) == Some(s) <==> keyword_of(s) == Some(t),
{
    reveal_strlit("let");
    reveal_strlit("const");
    reveal_strlit("if");
    reveal_strlit("else");
    reveal_strlit("while");
    reveal_strlit("for");
    reveal_strlit("loop");
    reveal_strlit("break");
    reveal_strlit("continue");
    reveal_strlit("return");
    reveal_strlit("fn");
    reveal_strlit("struct");
    reveal_strlit("enum");
    reveal_strlit("trait");
    reveal_strlit("impl");
    reveal_strlit("mod");
    reveal_strlit("use");
    reveal_strlit("pub");
    reveal_strlit("self");
    reveal_strlit("Self");
    reveal_strlit("as");
    reveal_strlit("type");
    reveal_strlit("where");
    reveal_strlit("unsafe");
    reveal_strlit("mut");
    reveal_strlit("static");
    reveal_strlit("extern");
    reveal_strlit("sizeof");
    reveal_strlit("match");
    reveal_strlit("true");
    reveal_strlit("false");
    reveal_strlit("null");
    assert("let"@ =~= seq!['l', 'e', 't']);
    assert("const"@ =~= seq!['c', 'o', 'n', 's', 't']);
    assert("if"@ =~= seq!['i', 'f']);
    assert("else"@ =~= seq!['e', 'l', 's', 'e']);
    assert("while"@ =~= seq!['w', 'h', 'i', 'l', 'e']);
    assert("for"@ =~= seq!['f', 'o', 'r']);
    assert("loop"@ =~= seq!['l', 'o', 'o', 'p']);
    assert("break"@ =~= seq!['b', 'r', 'e', 'a', 'k']);
    assert("continue"@ =~= seq!['c', 'o', 'n', 't', 'i', 'n', 'u', 'e']);
    assert("return"@ =~= seq!['r', 'e', 't', 'u', 'r', 'n']);
    assert("fn"@ =~= seq!['f', 'n']);
    assert("struct"@ =~= seq!['s', 't', 'r', 'u', 'c', 't']);
    assert("enum"@ =~= seq!['e', 'n', 'u', 'm']);
    assert("trait"@ =~= seq!['t', 'r', 'a', 'i', 't']);
    assert("impl"@ =~= seq!['i', 'm', 'p', 'l']);
    assert("mod"@ =~= seq!['m', 'o', 'd']);
    assert("use"@ =~= seq!['u', 's', 'e']);
    assert("pub"@ =~= seq!['p', 'u', 'b']);
    assert("self"@ =~= seq!['s', 'e', 'l', 'f']);
    assert("Self"@ =~= seq!['S', 'e', 'l', 'f']);
    assert("as"@ =~= seq!['a', 's']);
    assert("type"@ =~= seq!['t', 'y', 'p', 'e']);
    assert("where"@ =~= seq!['w', 'h', 'e', 'r', 'e']);
    assert("unsafe"@ =~= seq!['u', 'n', 's', 'a', 'f', 'e']);
    assert("mut"@ =~= seq!['m', 'u', 't']);
    assert("static"@ =~= seq!['s', 't', 'a', 't', 'i', 'c']);
    assert("extern"@ =~= seq!['e', 'x', 't', 'e', 'r', 'n']);
    assert("sizeof"@ =~= seq!['s', 'i', 'z', 'e', 'o', 'f']);
    assert("match"@ =~= seq!['m', 'a', 't', 'c', 'h']);
    assert("true"@ =~= seq!['t', 'r', 'u', 'e']);
    assert("false"@ =~= seq!['f', 'a', 'l', 's', 'e']);
    assert("null"@ =~= seq!['n', 'u', 'l', 'l']);
}

/// Classifying the same text twice gives the same tag.
pub proof fn lemma_classification_is_deterministic(s: Seq<char>, r1: TokenType, r2: TokenType)
    requires
        classifies(s, r1),
        classifies(s, r2),
    ensures
        same_token_type(r1, r2),
{
}

/// The precedence of a token depends on its tag alone, never on its text
/// or its position.
pub proof fn lemma_precedence_reads_tag_only(a: Token, b: Token)
    requires
        same_token_type(a.token_type, b.token_type),
    ensures
        precedence_of(a.token_type) == precedence_of(b.token_type),
{
}

/// Each class of operators has a level of its own, in the order of the
/// scale; only the assignments share one.
pub proof fn lemma_operator_classes_are_distinct()
    ensures
        precedence_of(TokenType::Assign).rank() < precedence_of(TokenType::RangeExclusive).rank(),
        precedence_of(TokenType::RangeExclusive).rank() < precedence_of(TokenType::Or).rank(),
        precedence_of(TokenType::Or).rank() < precedence_of(TokenType::And).rank(),
        precedence_of(TokenType::And).rank() < precedence_of(TokenType::Eq).rank(),
        precedence_of(TokenType::Eq).rank() < precedence_of(TokenType::Lt).rank(),
        precedence_of(TokenType::Lt).rank() < precedence_of(TokenType::BitOr).rank(),
        precedence_of(TokenType::BitOr).rank() < precedence_of(TokenType::BitXor).rank(),
        precedence_of(TokenType::BitXor).rank() < precedence_of(TokenType::BitAnd).rank(),
        precedence_of(TokenType::BitAnd).rank() < precedence_of(TokenType::LeftShift).rank(),
        precedence_of(TokenType::LeftShift).rank() < precedence_of(TokenType::Plus).rank(),
        precedence_of(TokenType::Plus).rank() < precedence_of(TokenType::Asterisk).rank(),
        precedence_of(TokenType::Asterisk).rank() < precedence_of(TokenType::LParen).rank(),
        precedence_of(TokenType::LParen).rank() < precedence_of(TokenType::LBracket).rank(),
        precedence_of(TokenType::PlusAssign) == precedence_of(TokenType::Assign),
        precedence_of(TokenType::MinusAssign) == precedence_of(TokenType::Assign),
        precedence_of(TokenType::MulAssign) == precedence_of(TokenType::Assign),
        precedence_of(TokenType::DivAssign) == precedence_of(TokenType::Assign),
        precedence_of(TokenType::ModAssign) == precedence_of(TokenType::Assign),
        precedence_of(TokenType::BitOrAssign) == precedence_of(TokenType::Assign),
        precedence_of(TokenType::BitAndAssign) == precedence_of(TokenType::Assign),
        precedence_of(TokenType::BitXorAssign) == precedence_of(TokenType::Assign),
        precedence_of(TokenType::Assign).rank() > Precedence::Lowest.rank(),
{
}

} // verus!
