//! The scanner: an ordered table of lexical patterns, tried one after the
//! other at the cursor. The patterns are regular expressions and the `regex`
//! crate does the matching.

use crate::nodes::{ParseError, Token, TokenKind, TokenModel};
use vstd::prelude::*;
use vstd::string::{StrSliceExecFns, StringExecFns};

verus! {

/// Number of entries in the pattern table.
pub const PATTERN_COUNT: usize = 27;

/// The regular expression of entry `index` of the pattern table. Earlier
/// entries win over later ones, so keywords stand before identifiers, and
/// the two-character operators before the one-character ones they begin with.
pub open spec fn pattern_text(index: int) -> Seq<char> {
    if index == 0 {
        "^\\s+"@
    } else if index == 1 {
        "^//.*"@
    } else if index == 2 {
        "^/\\*[\\s\\S]*?\\*/"@
    } else if index == 3 {
        "^;"@
    } else if index == 4 {
        "^\\{"@
    } else if index == 5 {
        "^\\}"@
    } else if index == 6 {
        "^\\("@
    } else if index == 7 {
        "^\\)"@
    } else if index == 8 {
        "^,"@
    } else if index == 9 {
        "^\\blet\\b"@
    } else if index == 10 {
        "^\\bif\\b"@
    } else if index == 11 {
        "^\\belse\\b"@
    } else if index == 12 {
        "^\\btrue\\b"@
    } else if index == 13 {
        "^\\bfalse\\b"@
    } else if index == 14 {
        "^\\bnull\\b"@
    } else if index == 15 {
        "^\\d+"@
    } else if index == 16 {
        "^\\w+"@
    } else if index == 17 {
        "^[=!]="@
    } else if index == 18 {
        "^[*/+\\-]="@
    } else if index == 19 {
        "^="@
    } else if index == 20 {
        "^[+\\-]"@
    } else if index == 21 {
        "^[*/]"@
    } else if index == 22 {
        "^[<>]=?"@
    } else if index == 23 {
        "^&&"@
    } else if index == 24 {
        "^\\|\\|"@
    } else if index == 25 {
        "^\"[^\"]*\""@
    } else {
        "^'[^']*'"@
    }
}

/// The token kind of entry `index` of the pattern table.
pub open spec fn pattern_kind(index: int) -> TokenKind {
    if index == 0 {
        TokenKind::Whitespace
    } else if index <= 2 {
        TokenKind::Comment
    } else if index == 3 {
        TokenKind::Semicolon
    } else if index == 4 {
        TokenKind::OpenBrace
    } else if index == 5 {
        TokenKind::CloseBrace
    } else if index == 6 {
        TokenKind::OpenParen
    } else if index == 7 {
        TokenKind::CloseParen
    } else if index == 8 {
        TokenKind::Comma
    } else if index == 9 {
        TokenKind::Let
    } else if index == 10 {
        TokenKind::If
    } else if index == 11 {
        TokenKind::Else
    } else if index == 12 {
        TokenKind::True
    } else if index == 13 {
        TokenKind::False
    } else if index == 14 {
        TokenKind::Null
    } else if index == 15 {
        TokenKind::Number
    } else if index == 16 {
        TokenKind::Identifier
    } else if index == 17 {
        TokenKind::EqualityOperator
    } else if index == 18 {
        TokenKind::ComplexAssign
    } else if index == 19 {
        TokenKind::SimpleAssign
    } else if index == 20 {
        TokenKind::AdditiveOperator
    } else if index == 21 {
        TokenKind::MultiplicativeOperator
    } else if index == 22 {
        TokenKind::RelationalOperator
    } else if index == 23 {
        TokenKind::LogicalAnd
    } else if index == 24 {
        TokenKind::LogicalOr
    } else {
        TokenKind::String
    }
}

/// Entry `index` of the pattern table.
pub fn pattern_entry(index: usize) -> (entry: (&'static str, TokenKind))
    requires
        index < PATTERN_COUNT,
    ensures
        entry.0@ == pattern_text(index as int),
        entry.1 == pattern_kind(index as int),
{
    if index == 0 {
        ("^\\s+", TokenKind::Whitespace)
    } else if index == 1 {
        ("^//.*", TokenKind::Comment)
    } else if index == 2 {
        ("^/\\*[\\s\\S]*?\\*/", TokenKind::Comment)
    } else if index == 3 {
        ("^;", TokenKind::Semicolon)
    } else if index == 4 {
        ("^\\{", TokenKind::OpenBrace)
    } else if index == 5 {
        ("^\\}", TokenKind::CloseBrace)
    } else if index == 6 {
        ("^\\(", TokenKind::OpenParen)
    } else if index == 7 {
        ("^\\)", TokenKind::CloseParen)
    } else if index == 8 {
        ("^,", TokenKind::Comma)
    } else if index == 9 {
        ("^\\blet\\b", TokenKind::Let)
    } else if index == 10 {
        ("^\\bif\\b", TokenKind::If)
    } else if index == 11 {
        ("^\\belse\\b", TokenKind::Else)
    } else if index == 12 {
        ("^\\btrue\\b", TokenKind::True)
    } else if index == 13 {
        ("^\\bfalse\\b", TokenKind::False)
    } else if index == 14 {
        ("^\\bnull\\b", TokenKind::Null)
    } else if index == 15 {
        ("^\\d+", TokenKind::Number)
    } else if index == 16 {
        ("^\\w+", TokenKind::Identifier)
    } else if index == 17 {
        ("^[=!]=", TokenKind::EqualityOperator)
    } else if index == 18 {
        ("^[*/+\\-]=", TokenKind::ComplexAssign)
    } else if index == 19 {
        ("^=", TokenKind::SimpleAssign)
    } else if index == 20 {
        ("^[+\\-]", TokenKind::AdditiveOperator)
    } else if index == 21 {
        ("^[*/]", TokenKind::MultiplicativeOperator)
    } else if index == 22 {
        ("^[<>]=?", TokenKind::RelationalOperator)
    } else if index == 23 {
        ("^&&", TokenKind::LogicalAnd)
    } else if index == 24 {
        ("^\\|\\|", TokenKind::LogicalOr)
    } else if index == 25 {
        ("^\"[^\"]*\"", TokenKind::String)
    } else {
        ("^'[^']*'", TokenKind::String)
    }
}

/// What the `regex` crate finds when it compiles `pattern` and searches
/// `haystack` from its start: the byte offset at which the leftmost match
/// begins, and the text of that match. `None` where nothing matches or
/// `pattern` is not a regular expression that the crate accepts.
pub uninterp spec fn regex_find(pattern: Seq<char>, haystack: Seq<char>) -> Option<(nat, Seq<char>)>;

/// Calls `regex::Regex::new` on `pattern` and `regex::Regex::find` of the
/// compiled expression on `haystack`, and hands back `Match::start` and
/// `Match::as_str` of what was found. Two things are claimed: that the
/// search is the one that `regex_find` names, and that a match which begins
/// at offset 0 is the beginning of `haystack` (`Match::as_str` is the slice
/// of the haystack from `Match::start` to `Match::end`).
#[verifier::external_body]
fn find_leftmost(pattern: &str, haystack: &str) -> (found: Option<(usize, String)>)
    ensures
        match found {
            Some((start, text)) => regex_find(pattern@, haystack@) == Some((start as nat, text@)),
            None => regex_find(pattern@, haystack@).is_none(),
        },
        match found {
            Some((start, text)) => start == 0 ==> text@.len() <= haystack@.len() && text@
                == haystack@.subrange(0, text@.len() as int),
            None => true,
        },
{
    let compiled = match regex::Regex::new(pattern) {
        Ok(compiled) => compiled,
        Err(_) => return None,
    };
    match compiled.find(haystack) {
        Some(m) => Some((m.start(), m.as_str().to_string())),
        None => None,
    }
}

/// What the scanner makes of a search over `available` characters: the
/// matched text, if the match begins at offset 0, is not empty and is no
/// longer than what was searched.
pub open spec fn accepted_match(found: Option<(nat, Seq<char>)>, available: nat) -> Option<
    Seq<char>,
> {
    match found {
        Some((start, text)) => if start == 0 && 0 < text.len() <= available {
            Some(text)
        } else {
            None
        },
        None => None,
    }
}

/// The result of a search as plain values.
pub open spec fn found_view(found: Option<(usize, String)>) -> Option<(nat, Seq<char>)> {
    match found {
        Some((start, text)) => Some((start as nat, text@)),
        None => None,
    }
}

/// Judges the result of a search over `available` characters: the matched
/// text where the match counts, `None` where it does not.
pub fn accept_match(found: Option<(usize, String)>, available: usize) -> (lexeme: Option<String>)
    ensures
        match accepted_match(found_view(found), available as nat) {
            Some(text) => lexeme.is_some() && lexeme.unwrap()@ == text,
            None => lexeme.is_none(),
        },
{
    match found {
        Some((start, text)) => {
            let length: usize = text.as_str().unicode_len();
            if start == 0 && 0 < length && length <= available {
                Some(text)
            } else {
                None
            }
        },
        None => None,
    }
}

/// The text that `pattern` matches at the very start of `input`.
pub open spec fn lexeme_at(pattern: Seq<char>, input: Seq<char>) -> Option<Seq<char>> {
    accepted_match(regex_find(pattern, input), input.len())
}

/// The first entry of the pattern table, from entry `from` on, that matches
/// at the start of `input`: its kind and the matched text.
pub open spec fn first_match(input: Seq<char>, from: nat) -> Option<(TokenKind, Seq<char>)>
    decreases PATTERN_COUNT - from,
{
    if from >= PATTERN_COUNT {
        None
    } else {
        match lexeme_at(pattern_text(from as int), input) {
            Some(text) => Some((pattern_kind(from as int), text)),
            None => first_match(input, from + 1),
        }
    }
}

/// A match of the table is never empty and never longer than the input.
pub proof fn lemma_first_match_bounds(input: Seq<char>, from: nat)
    ensures
        match first_match(input, from) {
            Some((_, text)) => 0 < text.len() <= input.len(),
            None => true,
        },
    decreases PATTERN_COUNT - from,
{
    if from < PATTERN_COUNT && lexeme_at(pattern_text(from as int), input).is_none() {
        lemma_first_match_bounds(input, from + 1);
    }
}

/// Whitespace and comments: matched, then dropped.
pub open spec fn is_trivia(kind: TokenKind) -> bool {
    kind == TokenKind::Whitespace || kind == TokenKind::Comment
}

/// The text a token carries for a matched lexeme: a string literal loses
/// its first and its last character, the quotes.
pub open spec fn token_text(kind: TokenKind, lexeme: Seq<char>) -> Seq<char> {
    if kind == TokenKind::String {
        if lexeme.len() >= 2 {
            lexeme.subrange(1, lexeme.len() - 1)
        } else {
            Seq::empty()
        }
    } else {
        lexeme
    }
}

/// The token that a matched lexeme of the kind `kind` becomes: none for
/// whitespace and comments.
pub open spec fn token_model(kind: TokenKind, lexeme: Seq<char>) -> Option<TokenModel> {
    if is_trivia(kind) {
        None
    } else {
        Some(TokenModel { kind, text: token_text(kind, lexeme) })
    }
}

/// Makes the token of a matched lexeme: whitespace and comments are
/// dropped, a string literal loses its quotes.
pub fn token_of(kind: TokenKind, lexeme: String) -> (token: Option<Token>)
    ensures
        match token_model(kind, lexeme@) {
            Some(model) => token.is_some() && token.unwrap()@ == model,
            None => token.is_none(),
        },
{
    if kind == TokenKind::Whitespace || kind == TokenKind::Comment {
        return None;
    }
    let value = if kind == TokenKind::String {
        let size: usize = lexeme.as_str().unicode_len();
        if size >= 2 {
            String::from_str(lexeme.as_str().substring_char(1, size - 1))
        } else {
            String::new()
        }
    } else {
        lexeme
    };
    Some(Token { typ: kind, value })
}

/// What one step of the scanner yields.
pub enum Scan {
    /// Only whitespace and comments are left, or nothing.
    End,
    /// No pattern matches at `position`, where `character` stands.
    Unexpected { character: char, position: nat },
    /// The next token, the place where its lexeme starts, and the cursor
    /// behind it.
    Found { token: TokenModel, start: nat, cursor: nat },
}

/// One step of the scanner over `text` with the cursor at character `cursor`.
pub open spec fn scan(text: Seq<char>, cursor: nat) -> Scan
    decreases text.len() - cursor,
{
    if cursor >= text.len() {
        Scan::End
    } else {
        let rest = text.subrange(cursor as int, text.len() as int);
        match first_match(rest, 0) {
            None => Scan::Unexpected { character: text[cursor as int], position: cursor },
            Some((kind, lexeme)) => {
                if is_trivia(kind) {
                    proof {
                        lemma_first_match_bounds(rest, 0);
                    }
                    scan(text, cursor + lexeme.len())
                } else {
                    Scan::Found {
                        token: TokenModel { kind, text: token_text(kind, lexeme) },
                        start: cursor,
                        cursor: cursor + lexeme.len(),
                    }
                }
            },
        }
    }
}

/// A token that the scanner finds lies behind the cursor and inside the text,
/// is no whitespace and no comment, and a character that it stumbles on stands
/// at its position.
pub proof fn lemma_scan_bounds(text: Seq<char>, cursor: nat)
    ensures
        match scan(text, cursor) {
            Scan::End => true,
            Scan::Unexpected { character, position } => cursor <= position < text.len()
                && character == text[position as int],
            Scan::Found { token, start, cursor: next } => cursor <= start < next <= text.len()
                && !is_trivia(token.kind),
        },
    decreases text.len() - cursor,
{
    if cursor < text.len() {
        let rest = text.subrange(cursor as int, text.len() as int);
        lemma_first_match_bounds(rest, 0);
        match first_match(rest, 0) {
            None => {},
            Some((kind, lexeme)) => {
                if is_trivia(kind) {
                    lemma_scan_bounds(text, cursor + lexeme.len());
                }
            },
        }
    }
}

/// A scanner over a text that it owns. `cursor` counts characters.
#[derive(Debug)]
pub struct Tokenizer {
    pub string: String,
    pub cursor: usize,
}

impl Default for Tokenizer {
    /// A scanner over the empty text.
    fn default() -> (tokenizer: Self)
        ensures
            tokenizer.string@ == Seq::<char>::empty(),
            tokenizer.cursor == 0,
    {
        Tokenizer { string: String::new(), cursor: 0 }
    }
}

impl Tokenizer {
    /// A scanner over the empty text.
    pub fn new() -> (tokenizer: Self)
        ensures
            tokenizer.string@ == Seq::<char>::empty(),
            tokenizer.cursor == 0,
    {
        Self::default()
    }

    /// Starts over on `string`, with the cursor at its first character.
    pub fn init(&mut self, string: &str)
        ensures
            final(self).string@ == string@,
            final(self).cursor == 0,
    {
        self.string = String::from_str(string);
        self.cursor = 0;
    }

    /// Whether the cursor stands before the end of the text.
    pub fn has_more_tokens(&self) -> (more: bool)
        ensures
            more == (self.cursor < self.string@.len()),
    {
        self.cursor < self.string.as_str().unicode_len()
    }

    /// Tries one pattern at the start of `string`, the text from the cursor
    /// on, and moves the cursor behind what it matched. What it matched is
    /// the beginning of `string`.
    pub fn match_regexp(&mut self, regexp: &str, string: &str) -> (matched: Option<String>)
        requires
            old(self).cursor + string@.len() <= usize::MAX,
        ensures
            final(self).string == old(self).string,
            match lexeme_at(regexp@, string@) {
                Some(text) => matched.is_some() && matched.unwrap()@ == text && final(self).cursor
                    == old(self).cursor + text.len() && text == string@.subrange(
                    0,
                    text.len() as int,
                ),
                None => matched.is_none() && final(self).cursor == old(self).cursor,
            },
    {
        let found = find_leftmost(regexp, string);
        match accept_match(found, string.unicode_len()) {
            Some(text) => {
                self.cursor = self.cursor + text.as_str().unicode_len();
                Some(text)
            },
            None => None,
        }
    }

    /// Tries the patterns of the table in order at the start of `string`,
    /// the text from the cursor on, and moves the cursor behind the first
    /// match. What it matched is the beginning of `string`.
    pub fn match_table(&mut self, string: &str) -> (matched: Option<(TokenKind, String)>)
        requires
            old(self).cursor + string@.len() <= usize::MAX,
        ensures
            final(self).string == old(self).string,
            match first_match(string@, 0) {
                Some((kind, text)) => matched.is_some() && matched.unwrap().0 == kind
                    && matched.unwrap().1@ == text && final(self).cursor == old(self).cursor
                    + text.len() && text == string@.subrange(0, text.len() as int),
                None => matched.is_none() && final(self).cursor == old(self).cursor,
            },
    {
        let mut index: usize = 0;
        while index < PATTERN_COUNT
            invariant
                index <= PATTERN_COUNT,
                *self == *old(self),
                self.cursor + string@.len() <= usize::MAX,
                first_match(string@, 0) == first_match(string@, index as nat),
            decreases PATTERN_COUNT - index,
        {
            let entry = pattern_entry(index);
            match self.match_regexp(entry.0, string) {
                Some(text) => {
                    return Some((entry.1, text));
                },
                None => {},
            }
            index = index + 1;
        }
        None
    }

    /// The next token that is neither whitespace nor a comment; `None` at the
    /// end of the text. The cursor ends behind the token, at the character
    /// that starts no token, or at the end of the text.
    pub fn next(&mut self) -> (token: Result<Option<Token>, ParseError>)
        ensures
            final(self).string == old(self).string,
            old(self).cursor <= final(self).cursor,
            old(self).cursor <= old(self).string@.len() ==> final(self).cursor <= old(
                self,
            ).string@.len(),
            match scan(old(self).string@, old(self).cursor as nat) {
                Scan::End => token == Ok::<Option<Token>, ParseError>(None) && final(self).cursor
                    == (if old(self).cursor >= old(self).string@.len() {
                    old(self).cursor as int
                } else {
                    old(self).string@.len() as int
                }),
                Scan::Unexpected { character, position } => token == Err::<
                    Option<Token>,
                    ParseError,
                >(ParseError::UnexpectedCharacter { character, position: position as usize })
                    && final(self).cursor == position,
                Scan::Found { token: found, start, cursor } => token.is_ok()
                    && token.unwrap().is_some() && token.unwrap().unwrap()@ == found
                    && final(self).cursor == cursor && old(self).cursor <= start < cursor
                    <= old(self).string@.len() && found.text == token_text(
                    found.kind,
                    old(self).string@.subrange(start as int, cursor as int),
                ),
            },
    {
        let length: usize = self.string.as_str().unicode_len();
        proof {
            lemma_scan_bounds(self.string@, self.cursor as nat);
        }
        loop
            invariant
                old(self).cursor <= self.cursor,
                self.string == old(self).string,
                length == self.string@.len(),
                self.cursor == old(self).cursor || (old(self).cursor < length && self.cursor
                    <= length),
                scan(self.string@, self.cursor as nat) == scan(
                    old(self).string@,
                    old(self).cursor as nat,
                ),
            decreases length - self.cursor,
        {
            if !self.has_more_tokens() {
                return Ok(None);
            }
            let ghost start = self.cursor;
            let rest = String::from_str(self.string.as_str().substring_char(self.cursor, length));
            match self.match_table(rest.as_str()) {
                None => {
                    return Err(
                        ParseError::UnexpectedCharacter {
                            character: rest.as_str().get_char(0),
                            position: self.cursor,
                        },
                    );
                },
                Some((kind, lexeme)) => {
                    proof {
                        lemma_first_match_bounds(rest@, 0);
                        assert(lexeme@ =~= self.string@.subrange(
                            start as int,
                            self.cursor as int,
                        ));
                    }
                    match token_of(kind, lexeme) {
                        Some(token) => {
                            return Ok(Some(token));
                        },
                        None => {},
                    }
                },
            }
        }
    }
}

} // verus!
