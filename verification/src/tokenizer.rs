//! Tokenizer: converts raw source text into an ordered sequence of tokens.
//!
//! Tokenization never fails: unrecognized characters are consumed and
//! ignored, and an unterminated string literal consumes to the end of the
//! input. The output always ends with an `Eof` token.
//!
//! `spec_tokenize` is the mathematical description of the scan;
//! `tokenize` is proved to return exactly that token sequence.
use crate::token::{Token, TokenType, TokenV, tokens_view};
use vstd::prelude::*;
use vstd::string::StrSliceExecFns;
use vstd::string::StringExecFns;

verus! {

/// Whether the character is in the Unicode `Alphabetic` class.
/// The result of `char::is_alphabetic`, named so contracts can speak of it.
pub uninterp spec fn char_alphabetic(c: char) -> bool;

/// Whether the character is in the Unicode `Alphabetic` class or a digit.
/// The result of `char::is_alphanumeric`, named so contracts can speak of it.
pub uninterp spec fn char_alphanumeric(c: char) -> bool;

/// Relies on `char::is_alphabetic`: whether the character is alphabetic
/// depends on the character alone.
pub assume_specification[ char::is_alphabetic ](c: char) -> (r: bool)
    ensures
        r == char_alphabetic(c),
;

/// Relies on `char::is_alphanumeric`: whether the character is alphanumeric
/// depends on the character alone.
pub assume_specification[ char::is_alphanumeric ](c: char) -> (r: bool)
    ensures
        r == char_alphanumeric(c),
;

/// An ASCII decimal digit `'0'..='9'` (code points 48 through 57).
pub open spec fn is_digit_char(c: char) -> bool {
    48 <= c as u32 && c as u32 <= 57
}

fn digit_char(c: char) -> (r: bool)
    ensures
        r == is_digit_char(c),
{
    let u = c as u32;
    48 <= u && u <= 57
}

/// The characters of `s` starting at `p` spell out `k` in full.
pub open spec fn kw_matches(s: Seq<char>, p: int, k: Seq<char>) -> bool {
    &&& p + k.len() <= s.len()
    &&& forall|j: int| 0 <= j < k.len() ==> s[p + j] == k[j]
}

/// Whether the characters of `chars` starting at `pos` spell out `keyword`
/// in full. Keywords are recognized by this exact prefix match, so `funcx`
/// scans as the keyword `func` followed by the identifier `x`.
pub fn matches_keyword(chars: &Vec<char>, pos: usize, keyword: &str) -> (r: bool)
    requires
        pos <= chars@.len(),
    ensures
        r == kw_matches(chars@, pos as int, keyword@),
{
    let n = keyword.unicode_len();
    if n > chars.len() - pos {
        return false;
    }
    let mut j: usize = 0;
    while j < n
        invariant
            0 <= j <= n,
            pos + n <= chars@.len(),
            chars@.len() <= usize::MAX,
            n == keyword@.len(),
            forall|t: int| 0 <= t < j ==> chars@[pos + t] == keyword@[t],
        decreases n - j,
    {
        if chars[pos + j] != keyword.get_char(j) {
            return false;
        }
        j += 1;
    }
    true
}

/// The index of the closing `'"'` at or after `j`, or `s.len()` if the
/// string literal is unterminated.
pub open spec fn str_end(s: Seq<char>, j: nat) -> nat
    decreases s.len() - j,
{
    if j >= s.len() {
        s.len()
    } else if s[j as int] == '"' {
        j
    } else {
        str_end(s, j + 1)
    }
}

proof fn lemma_str_end(s: Seq<char>, j: nat)
    requires
        j <= s.len(),
    ensures
        j <= str_end(s, j) <= s.len(),
    decreases s.len() - j,
{
    if j < s.len() && s[j as int] != '"' {
        lemma_str_end(s, j + 1);
    }
}

/// Scans a number from `j`: the first index at which the run of digits,
/// with at most one interior `'.'`, ends, paired with whether a `'.'` was
/// seen (making the token a float rather than an integer).
pub open spec fn num_end(s: Seq<char>, j: nat, seen_dot: bool) -> (nat, bool)
    decreases s.len() - j,
{
    if j >= s.len() {
        (j, seen_dot)
    } else if is_digit_char(s[j as int]) {
        num_end(s, j + 1, seen_dot)
    } else if s[j as int] == '.' && !seen_dot {
        num_end(s, j + 1, true)
    } else {
        (j, seen_dot)
    }
}

proof fn lemma_num_end(s: Seq<char>, j: nat, seen_dot: bool)
    requires
        j <= s.len(),
    ensures
        j <= num_end(s, j, seen_dot).0 <= s.len(),
    decreases s.len() - j,
{
    if j < s.len() {
        if is_digit_char(s[j as int]) {
            lemma_num_end(s, j + 1, seen_dot);
        } else if s[j as int] == '.' && !seen_dot {
            lemma_num_end(s, j + 1, true);
        }
    }
}

/// The first index at or after `j` whose character no longer continues an
/// identifier (alphanumeric or `'_'`).
pub open spec fn id_end(s: Seq<char>, j: nat) -> nat
    decreases s.len() - j,
{
    if j >= s.len() {
        s.len()
    } else if char_alphanumeric(s[j as int]) || s[j as int] == '_' {
        id_end(s, j + 1)
    } else {
        j
    }
}

proof fn lemma_id_end(s: Seq<char>, j: nat)
    requires
        j <= s.len(),
    ensures
        j <= id_end(s, j) <= s.len(),
    decreases s.len() - j,
{
    if j < s.len() && (char_alphanumeric(s[j as int]) || s[j as int] == '_') {
        lemma_id_end(s, j + 1);
    }
}

/// A token view with the given tag and lexeme.
pub open spec fn tokv(typ: TokenType, lexeme: Seq<char>) -> TokenV {
    TokenV { typ, lexeme }
}

/// The token type of an identifier lexeme: the four base type names scan to
/// their own token kinds, everything else is an `Identifier`.
pub open spec fn ident_type(lex: Seq<char>) -> TokenType {
    if lex == "int"@ {
        TokenType::IntType
    } else if lex == "float"@ {
        TokenType::FloatType
    } else if lex == "bool"@ {
        TokenType::BoolType
    } else if lex == "string"@ {
        TokenType::StringType
    } else {
        TokenType::Identifier
    }
}

/// The scan of `s` from position `i` on: the token sequence produced before
/// the final `Eof`. One branch per scanning rule, in the order the scanner
/// tries them.
pub open spec fn spec_scan(s: Seq<char>, i: nat) -> Seq<TokenV>
    decreases s.len() - i,
    via spec_scan_decreases
{
    if i >= s.len() {
        Seq::empty()
    } else {
        let c = s[i as int];
        if c == ' ' || c == '\r' || c == '\t' || c == '\n' {
            spec_scan(s, i + 1)
        } else if c == 'f' && kw_matches(s, i as int + 1, "unc"@) {
            seq![tokv(TokenType::Func, "func"@)] + spec_scan(s, i + 1 + "unc"@.len())
        } else if c == 'l' && kw_matches(s, i as int + 1, "et"@) {
            seq![tokv(TokenType::Let, "let"@)] + spec_scan(s, i + 1 + "et"@.len())
        } else if c == 'i' && kw_matches(s, i as int + 1, "f"@) {
            seq![tokv(TokenType::If, "if"@)] + spec_scan(s, i + 1 + "f"@.len())
        } else if c == 'e' && kw_matches(s, i as int + 1, "lse"@) {
            seq![tokv(TokenType::Else, "else"@)] + spec_scan(s, i + 1 + "lse"@.len())
        } else if c == 'w' && kw_matches(s, i as int + 1, "hile"@) {
            seq![tokv(TokenType::While, "while"@)] + spec_scan(s, i + 1 + "hile"@.len())
        } else if c == 'f' && kw_matches(s, i as int + 1, "or"@) {
            seq![tokv(TokenType::For, "for"@)] + spec_scan(s, i + 1 + "or"@.len())
        } else if c == 'r' && kw_matches(s, i as int + 1, "eturn"@) {
            seq![tokv(TokenType::Return, "return"@)] + spec_scan(s, i + 1 + "eturn"@.len())
        } else if c == 'w' && kw_matches(s, i as int + 1, "rite"@) {
            seq![tokv(TokenType::Write, "write"@)] + spec_scan(s, i + 1 + "rite"@.len())
        } else if c == 't' && kw_matches(s, i as int + 1, "rue"@) {
            seq![tokv(TokenType::True, "true"@)] + spec_scan(s, i + 1 + "rue"@.len())
        } else if c == 'f' && kw_matches(s, i as int + 1, "alse"@) {
            seq![tokv(TokenType::False, "false"@)] + spec_scan(s, i + 1 + "alse"@.len())
        } else if c == '+' {
            seq![tokv(TokenType::Plus, "+"@)] + spec_scan(s, i + 1)
        } else if c == '-' {
            if i + 1 < s.len() && s[(i + 1) as int] == '>' {
                seq![tokv(TokenType::Arrow, "->"@)] + spec_scan(s, i + 2)
            } else {
                seq![tokv(TokenType::Minus, "-"@)] + spec_scan(s, i + 1)
            }
        } else if c == '*' {
            seq![tokv(TokenType::Star, "*"@)] + spec_scan(s, i + 1)
        } else if c == '/' {
            seq![tokv(TokenType::Slash, "/"@)] + spec_scan(s, i + 1)
        } else if c == '%' {
            seq![tokv(TokenType::Mod, "%"@)] + spec_scan(s, i + 1)
        } else if c == '=' && i + 1 < s.len() && s[(i + 1) as int] == '=' {
            seq![tokv(TokenType::EqualEqual, "=="@)] + spec_scan(s, i + 2)
        } else if c == '!' {
            if i + 1 < s.len() && s[(i + 1) as int] == '=' {
                seq![tokv(TokenType::BangEqual, "!="@)] + spec_scan(s, i + 2)
            } else {
                seq![tokv(TokenType::Bang, "!"@)] + spec_scan(s, i + 1)
            }
        } else if c == '<' {
            if i + 1 < s.len() && s[(i + 1) as int] == '=' {
                seq![tokv(TokenType::LessEqual, "<="@)] + spec_scan(s, i + 2)
            } else {
                seq![tokv(TokenType::Less, "<"@)] + spec_scan(s, i + 1)
            }
        } else if c == '>' {
            if i + 1 < s.len() && s[(i + 1) as int] == '=' {
                seq![tokv(TokenType::GreaterEqual, ">="@)] + spec_scan(s, i + 2)
            } else {
                seq![tokv(TokenType::Greater, ">"@)] + spec_scan(s, i + 1)
            }
        } else if c == '&' && i + 1 < s.len() && s[(i + 1) as int] == '&' {
            seq![tokv(TokenType::And, "&&"@)] + spec_scan(s, i + 2)
        } else if c == '|' && i + 1 < s.len() && s[(i + 1) as int] == '|' {
            seq![tokv(TokenType::Or, "||"@)] + spec_scan(s, i + 2)
        } else if c == '[' {
            seq![tokv(TokenType::LeftBracket, "["@)] + spec_scan(s, i + 1)
        } else if c == ']' {
            seq![tokv(TokenType::RightBracket, "]"@)] + spec_scan(s, i + 1)
        } else if c == '(' {
            seq![tokv(TokenType::LeftParen, "("@)] + spec_scan(s, i + 1)
        } else if c == ')' {
            seq![tokv(TokenType::RightParen, ")"@)] + spec_scan(s, i + 1)
        } else if c == '{' {
            seq![tokv(TokenType::LeftBrace, "{"@)] + spec_scan(s, i + 1)
        } else if c == '}' {
            seq![tokv(TokenType::RightBrace, "}"@)] + spec_scan(s, i + 1)
        } else if c == ':' {
            seq![tokv(TokenType::Colon, ":"@)] + spec_scan(s, i + 1)
        } else if c == '=' {
            seq![tokv(TokenType::Equals, "="@)] + spec_scan(s, i + 1)
        } else if c == ',' {
            seq![tokv(TokenType::Comma, ","@)] + spec_scan(s, i + 1)
        } else if c == '"' {
            let e = str_end(s, i + 1);
            let lex = s.subrange(i as int + 1, e as int);
            let next = if e < s.len() {
                e + 1
            } else {
                e
            };
            seq![tokv(TokenType::String, lex)] + spec_scan(s, next)
        } else if is_digit_char(c) {
            let (e, isf) = num_end(s, i + 1, false);
            let lex = s.subrange(i as int, e as int);
            let typ = if isf {
                TokenType::Float
            } else {
                TokenType::Number
            };
            seq![tokv(typ, lex)] + spec_scan(s, e)
        } else if char_alphabetic(c) || c == '_' {
            let e = id_end(s, i + 1);
            let lex = s.subrange(i as int, e as int);
            seq![tokv(ident_type(lex), lex)] + spec_scan(s, e)
        } else {
            spec_scan(s, i + 1)
        }
    }
}

#[via_fn]
proof fn spec_scan_decreases(s: Seq<char>, i: nat) {
    if i < s.len() {
        lemma_str_end(s, i + 1);
        lemma_num_end(s, i + 1, false);
        lemma_id_end(s, i + 1);
    }
}

/// The token sequence of a whole source text: the scan, then `Eof`.
pub open spec fn spec_tokenize(s: Seq<char>) -> Seq<TokenV> {
    spec_scan(s, 0).push(tokv(TokenType::Eof, ""@))
}

/// The characters of a string slice, in order.
fn chars_of(s: &str) -> (cs: Vec<char>)
    ensures
        cs@ == s@,
{
    let n = s.unicode_len();
    let mut cs: Vec<char> = Vec::new();
    let mut i: usize = 0;
    while i < n
        invariant
            0 <= i <= n,
            n == s@.len(),
            cs@ == s@.subrange(0, i as int),
        decreases n - i,
    {
        cs.push(s.get_char(i));
        proof {
            assert(cs@ =~= s@.subrange(0, i + 1));
        }
        i += 1;
    }
    proof {
        assert(cs@ =~= s@);
    }
    cs
}

/// Relies on `String`'s `FromIterator<char>` impl: collecting characters
/// yields the string of exactly those characters, in order.
#[verifier::external_body]
pub(crate) fn string_from_chars(v: &Vec<char>) -> (r: String)
    ensures
        r@ == v@,
{
    v.iter().collect()
}

/// Whether the characters of `v` spell out exactly `s`.
fn vec_chars_eq(v: &Vec<char>, s: &str) -> (r: bool)
    ensures
        r == (v@ == s@),
{
    let n = s.unicode_len();
    if v.len() != n {
        proof {
            assert(v@.len() != s@.len());
        }
        return false;
    }
    let mut j: usize = 0;
    while j < n
        invariant
            0 <= j <= n,
            n == s@.len(),
            n == v@.len(),
            forall|t: int| 0 <= t < j ==> v@[t] == s@[t],
        decreases n - j,
    {
        if v[j] != s.get_char(j) {
            return false;
        }
        j += 1;
    }
    proof {
        assert(v@ =~= s@);
    }
    true
}

proof fn lemma_tokens_view_push(ts: Seq<Token>, t: Token)
    ensures
        tokens_view(ts.push(t)) == tokens_view(ts).push(t@),
{
    assert(tokens_view(ts.push(t)) =~= tokens_view(ts).push(t@));
}

/// Converts source text into its token sequence, ending with `Eof`.
/// Never fails: whitespace is skipped and unrecognized characters are
/// dropped.
pub fn tokenize(source: &str) -> (r: Vec<Token>)
    ensures
        tokens_view(r@) == spec_tokenize(source@),
        r@.len() >= 1,
        r@[r@.len() - 1].typ == TokenType::Eof,
{
    let cs = chars_of(source);
    let mut tokens: Vec<Token> = Vec::new();
    let mut i: usize = 0;
    while i < cs.len()
        invariant
            0 <= i <= cs@.len(),
            cs@ == source@,
            tokens_view(tokens@) + spec_scan(cs@, i as nat) == spec_scan(cs@, 0),
        decreases cs@.len() - i,
    {
        let ghost i0 = i as nat;
        let ghost toks0 = tokens@;
        let c = cs[i];
        if c == ' ' || c == '\r' || c == '\t' || c == '\n' {
            i += 1;
        } else if c == 'f' && matches_keyword(&cs, i + 1, "unc") {
            proof {
                reveal_strlit("unc");
            }
            tokens.push(Token { typ: TokenType::Func, lexeme: String::from_str("func") });
            i += 4;
        } else if c == 'l' && matches_keyword(&cs, i + 1, "et") {
            proof {
                reveal_strlit("et");
            }
            tokens.push(Token { typ: TokenType::Let, lexeme: String::from_str("let") });
            i += 3;
        } else if c == 'i' && matches_keyword(&cs, i + 1, "f") {
            proof {
                reveal_strlit("f");
            }
            tokens.push(Token { typ: TokenType::If, lexeme: String::from_str("if") });
            i += 2;
        } else if c == 'e' && matches_keyword(&cs, i + 1, "lse") {
            proof {
                reveal_strlit("lse");
            }
            tokens.push(Token { typ: TokenType::Else, lexeme: String::from_str("else") });
            i += 4;
        } else if c == 'w' && matches_keyword(&cs, i + 1, "hile") {
            proof {
                reveal_strlit("hile");
            }
            tokens.push(Token { typ: TokenType::While, lexeme: String::from_str("while") });
            i += 5;
        } else if c == 'f' && matches_keyword(&cs, i + 1, "or") {
            proof {
                reveal_strlit("or");
            }
            tokens.push(Token { typ: TokenType::For, lexeme: String::from_str("for") });
            i += 3;
        } else if c == 'r' && matches_keyword(&cs, i + 1, "eturn") {
            proof {
                reveal_strlit("eturn");
            }
            tokens.push(Token { typ: TokenType::Return, lexeme: String::from_str("return") });
            i += 6;
        } else if c == 'w' && matches_keyword(&cs, i + 1, "rite") {
            proof {
                reveal_strlit("rite");
            }
            tokens.push(Token { typ: TokenType::Write, lexeme: String::from_str("write") });
            i += 5;
        } else if c == 't' && matches_keyword(&cs, i + 1, "rue") {
            proof {
                reveal_strlit("rue");
            }
            tokens.push(Token { typ: TokenType::True, lexeme: String::from_str("true") });
            i += 4;
        } else if c == 'f' && matches_keyword(&cs, i + 1, "alse") {
            proof {
                reveal_strlit("alse");
            }
            tokens.push(Token { typ: TokenType::False, lexeme: String::from_str("false") });
            i += 5;
        } else if c == '+' {
            tokens.push(Token { typ: TokenType::Plus, lexeme: String::from_str("+") });
            i += 1;
        } else if c == '-' {
            if i + 1 < cs.len() && cs[i + 1] == '>' {
                tokens.push(Token { typ: TokenType::Arrow, lexeme: String::from_str("->") });
                i += 2;
            } else {
                tokens.push(Token { typ: TokenType::Minus, lexeme: String::from_str("-") });
                i += 1;
            }
        } else if c == '*' {
            tokens.push(Token { typ: TokenType::Star, lexeme: String::from_str("*") });
            i += 1;
        } else if c == '/' {
            tokens.push(Token { typ: TokenType::Slash, lexeme: String::from_str("/") });
            i += 1;
        } else if c == '%' {
            tokens.push(Token { typ: TokenType::Mod, lexeme: String::from_str("%") });
            i += 1;
        } else if c == '=' && i + 1 < cs.len() && cs[i + 1] == '=' {
            tokens.push(Token { typ: TokenType::EqualEqual, lexeme: String::from_str("==") });
            i += 2;
        } else if c == '!' {
            if i + 1 < cs.len() && cs[i + 1] == '=' {
                tokens.push(Token { typ: TokenType::BangEqual, lexeme: String::from_str("!=") });
                i += 2;
            } else {
                tokens.push(Token { typ: TokenType::Bang, lexeme: String::from_str("!") });
                i += 1;
            }
        } else if c == '<' {
            if i + 1 < cs.len() && cs[i + 1] == '=' {
                tokens.push(Token { typ: TokenType::LessEqual, lexeme: String::from_str("<=") });
                i += 2;
            } else {
                tokens.push(Token { typ: TokenType::Less, lexeme: String::from_str("<") });
                i += 1;
            }
        } else if c == '>' {
            if i + 1 < cs.len() && cs[i + 1] == '=' {
                tokens.push(
                    Token { typ: TokenType::GreaterEqual, lexeme: String::from_str(">=") },
                );
                i += 2;
            } else {
                tokens.push(Token { typ: TokenType::Greater, lexeme: String::from_str(">") });
                i += 1;
            }
        } else if c == '&' && i + 1 < cs.len() && cs[i + 1] == '&' {
            tokens.push(Token { typ: TokenType::And, lexeme: String::from_str("&&") });
            i += 2;
        } else if c == '|' && i + 1 < cs.len() && cs[i + 1] == '|' {
            tokens.push(Token { typ: TokenType::Or, lexeme: String::from_str("||") });
            i += 2;
        } else if c == '[' {
            tokens.push(Token { typ: TokenType::LeftBracket, lexeme: String::from_str("[") });
            i += 1;
        } else if c == ']' {
            tokens.push(Token { typ: TokenType::RightBracket, lexeme: String::from_str("]") });
            i += 1;
        } else if c == '(' {
            tokens.push(Token { typ: TokenType::LeftParen, lexeme: String::from_str("(") });
            i += 1;
        } else if c == ')' {
            tokens.push(Token { typ: TokenType::RightParen, lexeme: String::from_str(")") });
            i += 1;
        } else if c == '{' {
            tokens.push(Token { typ: TokenType::LeftBrace, lexeme: String::from_str("{") });
            i += 1;
        } else if c == '}' {
            tokens.push(Token { typ: TokenType::RightBrace, lexeme: String::from_str("}") });
            i += 1;
        } else if c == ':' {
            tokens.push(Token { typ: TokenType::Colon, lexeme: String::from_str(":") });
            i += 1;
        } else if c == '=' {
            tokens.push(Token { typ: TokenType::Equals, lexeme: String::from_str("=") });
            i += 1;
        } else if c == ',' {
            tokens.push(Token { typ: TokenType::Comma, lexeme: String::from_str(",") });
            i += 1;
        } else if c == '"' {
            let mut lex: Vec<char> = Vec::new();
            let mut j = i + 1;
            while j < cs.len() && cs[j] != '"'
                invariant
                    i0 + 1 <= j <= cs@.len(),
                    i0 < cs@.len(),
                    str_end(cs@, i0 + 1) == str_end(cs@, j as nat),
                    lex@ == cs@.subrange(i0 as int + 1, j as int),
                decreases cs@.len() - j,
            {
                lex.push(cs[j]);
                proof {
                    assert(lex@ =~= cs@.subrange(i0 as int + 1, j + 1));
                }
                j += 1;
            }
            proof {
                assert(str_end(cs@, j as nat) == j as nat);
            }
            tokens.push(Token { typ: TokenType::String, lexeme: string_from_chars(&lex) });
            i = if j < cs.len() {
                j + 1
            } else {
                j
            };
        } else if digit_char(c) {
            let mut lex: Vec<char> = Vec::new();
            lex.push(c);
            let mut isf = false;
            let mut j = i + 1;
            while j < cs.len() && (digit_char(cs[j]) || (cs[j] == '.' && !isf))
                invariant
                    i0 + 1 <= j <= cs@.len(),
                    i0 < cs@.len(),
                    num_end(cs@, i0 + 1, false) == num_end(cs@, j as nat, isf),
                    lex@ == cs@.subrange(i0 as int, j as int),
                decreases cs@.len() - j,
            {
                if !digit_char(cs[j]) {
                    isf = true;
                }
                lex.push(cs[j]);
                proof {
                    assert(lex@ =~= cs@.subrange(i0 as int, j + 1));
                }
                j += 1;
            }
            proof {
                assert(num_end(cs@, j as nat, isf) == (j as nat, isf));
            }
            let typ = if isf {
                TokenType::Float
            } else {
                TokenType::Number
            };
            tokens.push(Token { typ, lexeme: string_from_chars(&lex) });
            i = j;
        } else if c.is_alphabetic() || c == '_' {
            let mut lex: Vec<char> = Vec::new();
            lex.push(c);
            let mut j = i + 1;
            while j < cs.len() && (cs[j].is_alphanumeric() || cs[j] == '_')
                invariant
                    i0 + 1 <= j <= cs@.len(),
                    i0 < cs@.len(),
                    id_end(cs@, i0 + 1) == id_end(cs@, j as nat),
                    lex@ == cs@.subrange(i0 as int, j as int),
                decreases cs@.len() - j,
            {
                lex.push(cs[j]);
                proof {
                    assert(lex@ =~= cs@.subrange(i0 as int, j + 1));
                }
                j += 1;
            }
            proof {
                assert(id_end(cs@, j as nat) == j as nat);
            }
            let typ = if vec_chars_eq(&lex, "int") {
                TokenType::IntType
            } else if vec_chars_eq(&lex, "float") {
                TokenType::FloatType
            } else if vec_chars_eq(&lex, "bool") {
                TokenType::BoolType
            } else if vec_chars_eq(&lex, "string") {
                TokenType::StringType
            } else {
                TokenType::Identifier
            };
            tokens.push(Token { typ, lexeme: string_from_chars(&lex) });
            i = j;
        } else {
            i += 1;
        }
        proof {
            if tokens@ != toks0 {
                lemma_tokens_view_push(toks0, tokens@[tokens@.len() - 1]);
                assert(tokens_view(tokens@) + spec_scan(cs@, i as nat) =~= tokens_view(toks0)
                    + (seq![tokens@[tokens@.len() - 1]@] + spec_scan(cs@, i as nat)));
            }
        }
    }
    proof {
        assert(spec_scan(cs@, i as nat) =~= Seq::<TokenV>::empty());
        assert(tokens_view(tokens@) =~= tokens_view(tokens@) + Seq::<TokenV>::empty());
    }
    tokens.push(Token { typ: TokenType::Eof, lexeme: String::from_str("") });
    proof {
        lemma_tokens_view_push(
            tokens@.subrange(0, tokens@.len() - 1),
            tokens@[tokens@.len() - 1],
        );
        assert(tokens@.subrange(0, tokens@.len() - 1).push(tokens@[tokens@.len() - 1])
            =~= tokens@);
    }
    tokens
}

} // verus!
