//! The query tokenizer.
//!
//! The scanner cuts a query string into tokens: the single-character marks
//! of the query grammar, escapes, runs of whitespace, runs of newlines, and
//! runs of ordinary text.

use vstd::prelude::*;

verus! {

/// Token kinds recognized by the scanner.
#[derive(Debug, Clone, Copy, PartialEq, Eq, Structural)]
pub enum TokenKind {
    Whitespace,
    Newline,
    Escape,
    Other,
    End,
    /// `=`
    KeyValSep,
    /// `/`
    DirSep,
    /// `(`
    TupStart,
    /// `)`
    TupEnd,
    /// `,`
    TupSep,
    /// `<`
    VarStart,
    /// `>`
    VarEnd,
    /// `|`
    VarSep,
    /// `"`
    StrMark,
    /// `#`
    StampStart,
    /// `:`
    StampSep,
    Reserved,
}

/// A token with its kind and text.
#[derive(Debug, Clone, PartialEq, Eq)]
pub struct Token {
    pub kind: TokenKind,
    pub text: String,
}

/// Scanner for queries.
pub struct Scanner {
    input: String,
    position: usize,
}

/// The kind of a single-character token, if the character is one of the
/// grammar's marks.
pub open spec fn single_kind(c: char) -> Option<TokenKind> {
    if c == '=' {
        Some(TokenKind::KeyValSep)
    } else if c == '/' {
        Some(TokenKind::DirSep)
    } else if c == '(' {
        Some(TokenKind::TupStart)
    } else if c == ')' {
        Some(TokenKind::TupEnd)
    } else if c == ',' {
        Some(TokenKind::TupSep)
    } else if c == '<' {
        Some(TokenKind::VarStart)
    } else if c == '>' {
        Some(TokenKind::VarEnd)
    } else if c == '|' {
        Some(TokenKind::VarSep)
    } else if c == '"' {
        Some(TokenKind::StrMark)
    } else if c == '#' {
        Some(TokenKind::StampStart)
    } else if c == ':' {
        Some(TokenKind::StampSep)
    } else {
        None
    }
}

/// Whether a character is reserved for future use in the grammar.
pub open spec fn reserved_char(c: char) -> bool {
    c == '!' || c == '$' || c == '%' || c == '&' || c == '{' || c == '}' || c == '*' || c == '+'
        || c == ';' || c == '?' || c == '@' || c == '[' || c == ']' || c == '^' || c == '`' || c
        == '~'
}

/// Whether a character is special to the grammar: a single-character mark,
/// the escape introducer, or a reserved character.
pub open spec fn special_char(c: char) -> bool {
    single_kind(c) is Some || c == '\\' || reserved_char(c)
}

/// Whether a character is a space or a tab.
pub open spec fn space_char(c: char) -> bool {
    c == ' ' || c == '\t'
}

/// Whether a character belongs to a newline run: spaces, tabs, newlines and
/// carriage returns.
pub open spec fn newline_run_char(c: char) -> bool {
    c == ' ' || c == '\t' || c == '\n' || c == '\r'
}

/// Whether a character has Unicode's `White_Space` property; this is the
/// set that `char::is_whitespace` recognizes.
pub open spec fn unicode_whitespace(c: char) -> bool {
    c == '\u{0009}' || c == '\u{000A}' || c == '\u{000B}' || c == '\u{000C}' || c == '\u{000D}'
        || c == '\u{0020}' || c == '\u{0085}' || c == '\u{00A0}' || c == '\u{1680}' || ('\u{2000}'
        <= c && c <= '\u{200A}') || c == '\u{2028}' || c == '\u{2029}' || c == '\u{202F}' || c
        == '\u{205F}' || c == '\u{3000}'
}

/// The end of the run of spaces and tabs that starts at `i`.
pub open spec fn space_run_end(s: Seq<char>, i: int) -> int
    decreases s.len() - i,
{
    if 0 <= i < s.len() && space_char(s[i]) {
        space_run_end(s, i + 1)
    } else {
        i
    }
}

/// The end of the run of newline-run characters that starts at `i`.
pub open spec fn newline_run_end(s: Seq<char>, i: int) -> int
    decreases s.len() - i,
{
    if 0 <= i < s.len() && newline_run_char(s[i]) {
        newline_run_end(s, i + 1)
    } else {
        i
    }
}

/// The end of the run of ordinary text that starts at `i`: it stops at the
/// first special or whitespace character.
pub open spec fn other_run_end(s: Seq<char>, i: int) -> int
    decreases s.len() - i,
{
    if 0 <= i < s.len() && !special_char(s[i]) && !unicode_whitespace(s[i]) {
        other_run_end(s, i + 1)
    } else {
        i
    }
}

/// What one scan step yields at position `p` of input `s`: the token
/// returned and the scanner's new position `p2`.
pub open spec fn scan_post(s: Seq<char>, p: int, p2: int, t: Token) -> bool {
    if p >= s.len() {
        &&& t.kind == TokenKind::End
        &&& t.text@ == Seq::<char>::empty()
        &&& p2 == p
    } else {
        let c = s[p];
        if single_kind(c) is Some {
            &&& t.kind == single_kind(c)->0
            &&& t.text@ == s.subrange(p, p + 1)
            &&& p2 == p + 1
        } else if c == '\\' {
            &&& t.kind == TokenKind::Escape
            &&& (if p + 2 <= s.len() {
                t.text@ == s.subrange(p, p + 2) && p2 == p + 2
            } else {
                t.text@ == Seq::<char>::empty() && p2 == p
            })
        } else if space_char(c) {
            &&& t.kind == TokenKind::Whitespace
            &&& p2 == space_run_end(s, p)
            &&& t.text@ == s.subrange(p, p2)
        } else if c == '\n' || c == '\r' {
            &&& t.kind == TokenKind::Newline
            &&& p2 == newline_run_end(s, p)
            &&& t.text@ == s.subrange(p, p2)
        } else if reserved_char(c) {
            &&& t.kind == TokenKind::Reserved
            &&& t.text@ == s.subrange(p, p + 1)
            &&& p2 == p + 1
        } else {
            &&& t.kind == TokenKind::Other
            &&& p2 == other_run_end(s, p)
            &&& t.text@ == s.subrange(p, p2)
        }
    }
}

proof fn lemma_space_run_end(s: Seq<char>, p: int, j: int)
    requires
        0 <= p <= j <= s.len(),
        forall|k: int| p <= k < j ==> space_char(#[trigger] s[k]),
        j == s.len() || !space_char(s[j]),
    ensures
        space_run_end(s, p) == j,
    decreases j - p,
{
    if p < j {
        lemma_space_run_end(s, p + 1, j);
    }
}

proof fn lemma_newline_run_end(s: Seq<char>, p: int, j: int)
    requires
        0 <= p <= j <= s.len(),
        forall|k: int| p <= k < j ==> newline_run_char(#[trigger] s[k]),
        j == s.len() || !newline_run_char(s[j]),
    ensures
        newline_run_end(s, p) == j,
    decreases j - p,
{
    if p < j {
        lemma_newline_run_end(s, p + 1, j);
    }
}

proof fn lemma_other_run_end(s: Seq<char>, p: int, j: int)
    requires
        0 <= p <= j <= s.len(),
        forall|k: int|
            p <= k < j ==> !special_char(#[trigger] s[k]) && !unicode_whitespace(s[k]),
        j == s.len() || special_char(s[j]) || unicode_whitespace(s[j]),
    ensures
        other_run_end(s, p) == j,
    decreases j - p,
{
    if p < j {
        lemma_other_run_end(s, p + 1, j);
    }
}

fn is_special(ch: char) -> (r: bool)
    ensures
        r == special_char(ch),
{
    match ch {
        '=' | '/' | '(' | ')' | ',' | '<' | '>' | '|' | '"' | '#' | ':' | '\\' => true,
        _ => is_reserved(ch),
    }
}

fn is_reserved(ch: char) -> (r: bool)
    ensures
        r == reserved_char(ch),
{
    match ch {
        '!' | '$' | '%' | '&' | '{' | '}' | '*' | '+' | ';' | '?' | '@' | '[' | ']' | '^' | '`'
            | '~' => true,
        _ => false,
    }
}

fn is_unicode_whitespace(ch: char) -> (r: bool)
    ensures
        r == unicode_whitespace(ch),
{
    match ch {
        '\u{0009}' | '\u{000A}' | '\u{000B}' | '\u{000C}' | '\u{000D}' | '\u{0020}' | '\u{0085}'
            | '\u{00A0}' | '\u{1680}' | '\u{2028}' | '\u{2029}' | '\u{202F}' | '\u{205F}'
            | '\u{3000}' => true,
        _ => ('\u{2000}' <= ch && ch <= '\u{200A}'),
    }
}

impl Scanner {
    /// The characters of the input being scanned.
    pub closed spec fn chars(&self) -> Seq<char> {
        self.input@
    }

    /// The scanner's current position, as an index into the characters.
    pub closed spec fn pos(&self) -> int {
        self.position as int
    }

    pub fn new(input: &str) -> (r: Self)
        ensures
            r.chars() == input@,
            r.pos() == 0,
    {
        Self { input: String::from_str(input), position: 0 }
    }

    /// Scan the next token.
    pub fn scan(&mut self) -> (t: Token)
        ensures
            final(self).chars() == old(self).chars(),
            scan_post(old(self).chars(), old(self).pos(), final(self).pos(), t),
    {
        let n = self.input.as_str().unicode_len();
        if self.position >= n {
            return Token { kind: TokenKind::End, text: String::new() };
        }

        let ch = self.input.as_str().get_char(self.position);

        match ch {
            '=' => self.single_char_token(TokenKind::KeyValSep),
            '/' => self.single_char_token(TokenKind::DirSep),
            '(' => self.single_char_token(TokenKind::TupStart),
            ')' => self.single_char_token(TokenKind::TupEnd),
            ',' => self.single_char_token(TokenKind::TupSep),
            '<' => self.single_char_token(TokenKind::VarStart),
            '>' => self.single_char_token(TokenKind::VarEnd),
            '|' => self.single_char_token(TokenKind::VarSep),
            '"' => self.single_char_token(TokenKind::StrMark),
            '#' => self.single_char_token(TokenKind::StampStart),
            ':' => self.single_char_token(TokenKind::StampSep),
            '\\' => self.escape_token(),
            '\t' | ' ' => self.whitespace_token(),
            '\n' | '\r' => self.newline_token(),
            _ => {
                if is_reserved(ch) {
                    self.single_char_token(TokenKind::Reserved)
                } else {
                    self.other_token()
                }
            },
        }
    }

    fn single_char_token(&mut self, kind: TokenKind) -> (t: Token)
        requires
            old(self).pos() < old(self).chars().len(),
            old(self).chars().len() <= usize::MAX,
        ensures
            final(self).chars() == old(self).chars(),
            final(self).pos() == old(self).pos() + 1,
            t.kind == kind,
            t.text@ == old(self).chars().subrange(old(self).pos(), old(self).pos() + 1),
    {
        let text = String::from_str(
            self.input.as_str().substring_char(self.position, self.position + 1),
        );
        self.position = self.position + 1;
        Token { kind, text }
    }

    fn escape_token(&mut self) -> (t: Token)
        requires
            old(self).pos() < old(self).chars().len(),
        ensures
            final(self).chars() == old(self).chars(),
            t.kind == TokenKind::Escape,
            if old(self).pos() + 2 <= old(self).chars().len() {
                t.text@ == old(self).chars().subrange(old(self).pos(), old(self).pos() + 2)
                    && final(self).pos() == old(self).pos() + 2
            } else {
                t.text@ == Seq::<char>::empty() && final(self).pos() == old(self).pos()
            },
    {
        let n = self.input.as_str().unicode_len();
        if n - self.position >= 2 {
            let text = String::from_str(
                self.input.as_str().substring_char(self.position, self.position + 2),
            );
            self.position = self.position + 2;
            Token { kind: TokenKind::Escape, text }
        } else {
            Token { kind: TokenKind::Escape, text: String::new() }
        }
    }

    fn whitespace_token(&mut self) -> (t: Token)
        requires
            old(self).pos() <= old(self).chars().len(),
        ensures
            final(self).chars() == old(self).chars(),
            final(self).pos() == space_run_end(old(self).chars(), old(self).pos()),
            t.kind == TokenKind::Whitespace,
            t.text@ == old(self).chars().subrange(old(self).pos(), final(self).pos()),
    {
        let ghost s = self.input@;
        let ghost start_pos = self.position as int;
        let n = self.input.as_str().unicode_len();
        let start = self.position;
        let mut j = self.position;
        loop
            invariant
                start_pos <= j <= n,
                n == s.len(),
                s == self.input@,
                start == start_pos,
                self.position == start,
                forall|k: int| start_pos <= k < j ==> space_char(#[trigger] s[k]),
            ensures
                start_pos <= j <= n,
                forall|k: int| start_pos <= k < j ==> space_char(#[trigger] s[k]),
                j == n || !space_char(s[j as int]),
                s == self.input@,
                self.position == start,
            decreases n - j,
        {
            if j >= n {
                break;
            }
            let c = self.input.as_str().get_char(j);
            if !(c == '\t' || c == ' ') {
                break;
            }
            j = j + 1;
        }
        proof {
            lemma_space_run_end(s, start_pos, j as int);
        }
        let text = String::from_str(self.input.as_str().substring_char(start, j));
        self.position = j;
        Token { kind: TokenKind::Whitespace, text }
    }

    fn newline_token(&mut self) -> (t: Token)
        requires
            old(self).pos() <= old(self).chars().len(),
        ensures
            final(self).chars() == old(self).chars(),
            final(self).pos() == newline_run_end(old(self).chars(), old(self).pos()),
            t.kind == TokenKind::Newline,
            t.text@ == old(self).chars().subrange(old(self).pos(), final(self).pos()),
    {
        let ghost s = self.input@;
        let ghost start_pos = self.position as int;
        let n = self.input.as_str().unicode_len();
        let start = self.position;
        let mut j = self.position;
        loop
            invariant
                start_pos <= j <= n,
                n == s.len(),
                s == self.input@,
                start == start_pos,
                self.position == start,
                forall|k: int| start_pos <= k < j ==> newline_run_char(#[trigger] s[k]),
            ensures
                start_pos <= j <= n,
                forall|k: int| start_pos <= k < j ==> newline_run_char(#[trigger] s[k]),
                j == n || !newline_run_char(s[j as int]),
                s == self.input@,
                self.position == start,
            decreases n - j,
        {
            if j >= n {
                break;
            }
            let c = self.input.as_str().get_char(j);
            if !(c == '\t' || c == ' ' || c == '\n' || c == '\r') {
                break;
            }
            j = j + 1;
        }
        proof {
            lemma_newline_run_end(s, start_pos, j as int);
        }
        let text = String::from_str(self.input.as_str().substring_char(start, j));
        self.position = j;
        Token { kind: TokenKind::Newline, text }
    }

    fn other_token(&mut self) -> (t: Token)
        requires
            old(self).pos() <= old(self).chars().len(),
        ensures
            final(self).chars() == old(self).chars(),
            final(self).pos() == other_run_end(old(self).chars(), old(self).pos()),
            t.kind == TokenKind::Other,
            t.text@ == old(self).chars().subrange(old(self).pos(), final(self).pos()),
    {
        let ghost s = self.input@;
        let ghost start_pos = self.position as int;
        let n = self.input.as_str().unicode_len();
        let start = self.position;
        let mut j = self.position;
        loop
            invariant
                start_pos <= j <= n,
                n == s.len(),
                s == self.input@,
                start == start_pos,
                self.position == start,
                forall|k: int|
                    start_pos <= k < j ==> !special_char(#[trigger] s[k]) && !unicode_whitespace(
                        s[k],
                    ),
            ensures
                start_pos <= j <= n,
                forall|k: int|
                    start_pos <= k < j ==> !special_char(#[trigger] s[k]) && !unicode_whitespace(
                        s[k],
                    ),
                j == n || special_char(s[j as int]) || unicode_whitespace(s[j as int]),
                s == self.input@,
                self.position == start,
            decreases n - j,
        {
            if j >= n {
                break;
            }
            let c = self.input.as_str().get_char(j);
            if is_special(c) || is_unicode_whitespace(c) {
                break;
            }
            j = j + 1;
        }
        proof {
            lemma_other_run_end(s, start_pos, j as int);
        }
        let text = String::from_str(self.input.as_str().substring_char(start, j));
        self.position = j;
        Token { kind: TokenKind::Other, text }
    }
}

} // verus!
