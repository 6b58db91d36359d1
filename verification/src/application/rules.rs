//! The standard preprocessing rules for the text read aloud.
//!
//! Each replacing rule is one of five token grammars (URLs, code blocks,
//! custom emoji, mentions, Unicode emoji). A grammar is stated as the end of
//! the token that starts at a given position, the way a leftmost-first regex
//! engine picks it; `replace_tokens` then states the scan that replaces every
//! token from left to right, without overlaps, as `Regex::replace_all` does.

use vstd::prelude::*;

use crate::application::rule_pipeline::apply_rules;
use crate::domain::text_rule::{RuleOutcome, TextRule};
use crate::text::{chars_of, extend_chars, string_of};

verus! {

/// Name for what `regex_syntax::is_word_character` returns: whether `c` is in
/// the Unicode class `\w` (Alphabetic, Mark, Decimal_Number,
/// Connector_Punctuation, Join_Control).
pub uninterp spec fn unicode_word_char(c: char) -> bool;

/// Name for whether the `regex` crate's class `\d` matches `c` (the Unicode
/// general category Decimal_Number).
pub uninterp spec fn unicode_decimal_digit(c: char) -> bool;

/// Calls `regex_syntax::is_word_character`. Claimed: the result is the
/// membership of `c` in `\w`, named `unicode_word_char`; the Unicode tables
/// behind it are not stated.
#[verifier::external_body]
fn is_word_char(c: char) -> (b: bool)
    ensures
        b == unicode_word_char(c),
{
    regex_syntax::is_word_character(c)
}

/// Matches `c` against the `regex` crate's class `\d` (`Regex::is_match` on the
/// one-character text). Claimed: the result is the membership named
/// `unicode_decimal_digit`; the Unicode tables behind it are not stated.
#[verifier::external_body]
fn is_decimal_digit(c: char) -> (b: bool)
    ensures
        b == unicode_decimal_digit(c),
{
    let mut buf = [0u8; 4];
    regex::Regex::new(r"\A\d\z").map_or(false, |re| re.is_match(c.encode_utf8(&mut buf)))
}

/// The character classes the token grammars use.
pub enum CharClass {
    /// `\w`
    Word,
    /// `\d`
    Digit,
    /// `[\w/:%#\$&\?\(\)~\.=\+\-]`, the characters of a URL.
    UrlChar,
}

/// Membership of `c` in a class.
pub open spec fn class_has(class: CharClass, c: char) -> bool {
    match class {
        CharClass::Word => unicode_word_char(c),
        CharClass::Digit => unicode_decimal_digit(c),
        CharClass::UrlChar => unicode_word_char(c) || c == '/' || c == ':' || c == '%' || c == '#'
            || c == '$' || c == '&' || c == '?' || c == '(' || c == ')' || c == '~' || c == '.'
            || c == '=' || c == '+' || c == '-',
    }
}

fn class_contains(class: &CharClass, c: char) -> (b: bool)
    ensures
        b == class_has(*class, c),
{
    match class {
        CharClass::Word => is_word_char(c),
        CharClass::Digit => is_decimal_digit(c),
        CharClass::UrlChar => is_word_char(c) || c == '/' || c == ':' || c == '%' || c == '#' || c
            == '$' || c == '&' || c == '?' || c == '(' || c == ')' || c == '~' || c == '.' || c
            == '=' || c == '+' || c == '-',
    }
}

/// The Unicode emoji and symbol ranges the emoji rule removes:
/// U+1F000–1FFFF, U+2600–27BF, U+2300–23FF, U+2B00–2BFF, U+2190–21FF,
/// the variation selectors U+FE00–FE0F, the zero-width joiner U+200D and the
/// combining marks for symbols U+20D0–20FF.
pub open spec fn is_emoji(c: char) -> bool {
    let n = c as u32;
    ||| 0x1F000 <= n <= 0x1FFFF
    ||| 0x2600 <= n <= 0x27BF
    ||| 0x2300 <= n <= 0x23FF
    ||| 0x2B00 <= n <= 0x2BFF
    ||| 0x2190 <= n <= 0x21FF
    ||| 0xFE00 <= n <= 0xFE0F
    ||| n == 0x200D
    ||| 0x20D0 <= n <= 0x20FF
}

fn emoji(c: char) -> (b: bool)
    ensures
        b == is_emoji(c),
{
    let n = c as u32;
    (0x1F000 <= n && n <= 0x1FFFF) || (0x2600 <= n && n <= 0x27BF) || (0x2300 <= n && n <= 0x23FF)
        || (0x2B00 <= n && n <= 0x2BFF) || (0x2190 <= n && n <= 0x21FF) || (0xFE00 <= n && n
        <= 0xFE0F) || n == 0x200D || (0x20D0 <= n && n <= 0x20FF)
}

/// `t[i] == c`, within bounds.
pub open spec fn char_at(t: Seq<char>, i: int, c: char) -> bool {
    0 <= i < t.len() && t[i] == c
}

/// `lit` occurs in `t` at position `i`.
pub open spec fn occurs_at(t: Seq<char>, i: int, lit: Seq<char>) -> bool {
    0 <= i && i + lit.len() <= t.len() && t.subrange(i, i + lit.len()) == lit
}

/// The end of the longest run of `class` characters that starts at `j`.
pub open spec fn run_end(t: Seq<char>, j: int, class: CharClass) -> int
    decreases t.len() - j,
{
    if 0 <= j < t.len() && class_has(class, t[j]) {
        run_end(t, j + 1, class)
    } else {
        j
    }
}

/// The token grammars the rules replace.
pub enum Pattern {
    /// `https?://[\w/:%#\$&\?\(\)~\.=\+\-]+`
    Url,
    /// `(?s)```.*?```` (a code block, as short as possible)
    CodeBlock,
    /// `<a?:\w+:\d+>`
    CustomEmoji,
    /// `<(@[!&]?|#)\d+>`
    Mention,
    /// one character of the emoji ranges (`is_emoji`)
    Emoji,
}

/// Where the code block that opens at `k` or later closes: the first position
/// `k' >= k` where three backquotes occur.
pub open spec fn fence_from(t: Seq<char>, k: int) -> Option<int>
    decreases t.len() - k,
{
    if k < 0 || k + 3 > t.len() {
        None
    } else if occurs_at(t, k, "```"@) {
        Some(k)
    } else {
        fence_from(t, k + 1)
    }
}

/// The end of the URL token starting at `i`, if one starts there.
pub open spec fn url_token(t: Seq<char>, i: int) -> Option<int> {
    let body = if occurs_at(t, i, "https://"@) {
        i + 8
    } else if occurs_at(t, i, "http://"@) {
        i + 7
    } else {
        -1
    };
    if body < 0 {
        None
    } else {
        let e = run_end(t, body, CharClass::UrlChar);
        if e > body {
            Some(e)
        } else {
            None
        }
    }
}

/// The end of the code block starting at `i`, if one starts there.
pub open spec fn code_block_token(t: Seq<char>, i: int) -> Option<int> {
    if occurs_at(t, i, "```"@) {
        match fence_from(t, i + 3) {
            Some(k) => Some(k + 3),
            None => None,
        }
    } else {
        None
    }
}

/// `\d+>` from `j`: the end after the closing `>`.
pub open spec fn digits_then_close(t: Seq<char>, j: int) -> Option<int> {
    let d = run_end(t, j, CharClass::Digit);
    if d > j && char_at(t, d, '>') {
        Some(d + 1)
    } else {
        None
    }
}

/// The end of the custom emoji `<:name:id>` or `<a:name:id>` starting at `i`.
pub open spec fn custom_emoji_token(t: Seq<char>, i: int) -> Option<int> {
    if !char_at(t, i, '<') {
        None
    } else {
        let j = if char_at(t, i + 1, 'a') {
            i + 2
        } else {
            i + 1
        };
        if !char_at(t, j, ':') {
            None
        } else {
            let w = run_end(t, j + 1, CharClass::Word);
            if w > j + 1 && char_at(t, w, ':') {
                digits_then_close(t, w + 1)
            } else {
                None
            }
        }
    }
}

/// The end of the user, role or channel mention starting at `i`: `<@id>`,
/// `<@!id>`, `<@&id>` or `<#id>`.
pub open spec fn mention_token(t: Seq<char>, i: int) -> Option<int> {
    if !char_at(t, i, '<') {
        None
    } else if char_at(t, i + 1, '@') {
        if char_at(t, i + 2, '!') || char_at(t, i + 2, '&') {
            digits_then_close(t, i + 3)
        } else {
            digits_then_close(t, i + 2)
        }
    } else if char_at(t, i + 1, '#') {
        digits_then_close(t, i + 2)
    } else {
        None
    }
}

/// The end of the token of `pattern` that starts at `i`, if one does.
pub open spec fn token_at(pattern: Pattern, t: Seq<char>, i: int) -> Option<int> {
    match pattern {
        Pattern::Url => url_token(t, i),
        Pattern::CodeBlock => code_block_token(t, i),
        Pattern::CustomEmoji => custom_emoji_token(t, i),
        Pattern::Mention => mention_token(t, i),
        Pattern::Emoji => if 0 <= i < t.len() && is_emoji(t[i]) {
            Some(i + 1)
        } else {
            None
        },
    }
}

/// `t` from `i` on with every token of `pattern` replaced by `rep`, scanning
/// from left to right and going on after the end of each token.
pub open spec fn replace_tokens(pattern: Pattern, t: Seq<char>, i: int, rep: Seq<char>) -> Seq<
    char,
>
    decreases t.len() - i,
{
    if i < 0 || i >= t.len() {
        Seq::empty()
    } else {
        match token_at(pattern, t, i) {
            Some(e) => if i < e <= t.len() {
                rep + replace_tokens(pattern, t, e, rep)
            } else {
                seq![t[i]] + replace_tokens(pattern, t, i + 1, rep)
            },
            None => seq![t[i]] + replace_tokens(pattern, t, i + 1, rep),
        }
    }
}

/// Whether `lit` occurs in `t` at `i`.
fn occurs(t: &Vec<char>, i: usize, lit: &Vec<char>) -> (b: bool)
    ensures
        b == occurs_at(t@, i as int, lit@),
{
    let n = t.len();
    let m = lit.len();
    if i > n || m > n - i {
        return false;
    }
    let mut k: usize = 0;
    while k < m
        invariant
            n == t@.len(),
            m == lit@.len(),
            i + m <= n,
            k <= m,
            forall|x: int| 0 <= x < k ==> t@[i + x] == lit@[x],
        decreases m - k,
    {
        if t[i + k] != lit[k] {
            assert(t@.subrange(i as int, i + m)[k as int] != lit@[k as int]);
            return false;
        }
        k = k + 1;
    }
    assert(t@.subrange(i as int, i + m) == lit@);
    true
}

fn has_char(t: &Vec<char>, i: usize, c: char) -> (b: bool)
    ensures
        b == char_at(t@, i as int, c),
{
    i < t.len() && t[i] == c
}

/// The end of the longest run of `class` characters from `j`.
fn scan_run(t: &Vec<char>, j: usize, class: &CharClass) -> (e: usize)
    requires
        j <= t@.len(),
    ensures
        e as int == run_end(t@, j as int, *class),
        j <= e <= t@.len(),
{
    let n = t.len();
    let mut k = j;
    while k < n && class_contains(class, t[k])
        invariant
            n == t@.len(),
            j <= k <= n,
            run_end(t@, j as int, *class) == run_end(t@, k as int, *class),
        decreases n - k,
    {
        k = k + 1;
    }
    k
}

fn fence_scan(t: &Vec<char>, from: usize, fence: &Vec<char>) -> (r: Option<usize>)
    requires
        fence@ == "```"@,
        from <= t@.len(),
    ensures
        r matches Some(k) ==> fence_from(t@, from as int) == Some(k as int) && from <= k && k + 3
            <= t@.len(),
        r is None ==> fence_from(t@, from as int) is None,
{
    proof {
        reveal_strlit("```");
    }
    let n = t.len();
    let mut k = from;
    while k <= n && n - k >= 3
        invariant
            n == t@.len(),
            from <= k,
            fence@ == "```"@,
            fence@.len() == 3,
            fence_from(t@, from as int) == fence_from(t@, k as int),
        decreases n - k,
    {
        if occurs(t, k, fence) {
            return Some(k);
        }
        k = k + 1;
    }
    None
}

fn digits_close(t: &Vec<char>, j: usize) -> (r: Option<usize>)
    requires
        j <= t@.len(),
    ensures
        r matches Some(e) ==> digits_then_close(t@, j as int) == Some(e as int) && j + 1 < e
            <= t@.len(),
        r is None ==> digits_then_close(t@, j as int) is None,
{
    let n = t.len();
    let d = scan_run(t, j, &CharClass::Digit);
    assert(d <= n);
    if d > j && has_char(t, d, '>') {
        Some(d + 1)
    } else {
        None
    }
}

/// The token literals, computed once per replacement scan.
struct Literals {
    https: Vec<char>,
    http: Vec<char>,
    fence: Vec<char>,
}

impl Literals {
    spec fn wf(&self) -> bool {
        &&& self.https@ == "https://"@
        &&& self.http@ == "http://"@
        &&& self.fence@ == "```"@
    }

    fn new() -> (l: Literals)
        ensures
            l.wf(),
    {
        Literals { https: chars_of("https://"), http: chars_of("http://"), fence: chars_of("```") }
    }
}

fn url_at(t: &Vec<char>, i: usize, lits: &Literals) -> (r: Option<usize>)
    requires
        i < t@.len(),
        lits.wf(),
    ensures
        r matches Some(end) ==> url_token(t@, i as int) == Some(end as int) && i < end <= t@.len(),
        r is None ==> url_token(t@, i as int) is None,
{
    proof {
        reveal_strlit("https://");
        reveal_strlit("http://");
    }
    let n = t.len();
    let body: usize;
    if occurs(t, i, &lits.https) {
        body = i + 8;
    } else if occurs(t, i, &lits.http) {
        body = i + 7;
    } else {
        return None;
    }
    let end = scan_run(t, body, &CharClass::UrlChar);
    if end > body {
        Some(end)
    } else {
        None
    }
}

/// The end of the token of `pattern` starting at `i`.
fn match_token(pattern: &Pattern, t: &Vec<char>, i: usize, lits: &Literals) -> (r: Option<usize>)
    requires
        i < t@.len(),
        lits.wf(),
    ensures
        r matches Some(e) ==> token_at(*pattern, t@, i as int) == Some(e as int) && i < e <= t@.len(),
        r is None ==> token_at(*pattern, t@, i as int) is None,
{
    proof {
        reveal_strlit("https://");
        reveal_strlit("http://");
        reveal_strlit("```");
    }
    let n = t.len();
    match pattern {
        Pattern::Url => url_at(t, i, lits),
        Pattern::CodeBlock => {
            if occurs(t, i, &lits.fence) {
                match fence_scan(t, i + 3, &lits.fence) {
                    Some(k) => Some(k + 3),
                    None => None,
                }
            } else {
                None
            }
        },
        Pattern::CustomEmoji => {
            if !has_char(t, i, '<') {
                return None;
            }
            let j = if has_char(t, i + 1, 'a') {
                i + 2
            } else {
                i + 1
            };
            if !has_char(t, j, ':') {
                return None;
            }
            let w = scan_run(t, j + 1, &CharClass::Word);
            if w > j + 1 && has_char(t, w, ':') {
                digits_close(t, w + 1)
            } else {
                None
            }
        },
        Pattern::Mention => {
            if !has_char(t, i, '<') {
                None
            } else if has_char(t, i + 1, '@') {
                if has_char(t, i + 2, '!') || has_char(t, i + 2, '&') {
                    digits_close(t, i + 3)
                } else {
                    digits_close(t, i + 2)
                }
            } else if has_char(t, i + 1, '#') {
                digits_close(t, i + 2)
            } else {
                None
            }
        },
        Pattern::Emoji => {
            if emoji(t[i]) {
                Some(i + 1)
            } else {
                None
            }
        },
    }
}

/// Every token of `pattern` in `t` replaced by `rep`, as
/// `Regex::replace_all` does for the pattern's regex.
pub fn replace_all(pattern: &Pattern, t: &Vec<char>, rep: &Vec<char>) -> (r: Vec<char>)
    ensures
        r@ == replace_tokens(*pattern, t@, 0, rep@),
{
    let lits = Literals::new();
    let n = t.len();
    let mut out: Vec<char> = Vec::new();
    let mut i: usize = 0;
    while i < n
        invariant
            n == t@.len(),
            i <= n,
            lits.wf(),
            out@ + replace_tokens(*pattern, t@, i as int, rep@) == replace_tokens(
                *pattern,
                t@,
                0,
                rep@,
            ),
        decreases n - i,
    {
        match match_token(pattern, t, i, &lits) {
            Some(e) => {
                let ghost before = out@;
                extend_chars(&mut out, rep.as_slice());
                assert(before + replace_tokens(*pattern, t@, i as int, rep@) == out@
                    + replace_tokens(*pattern, t@, e as int, rep@));
                i = e;
            },
            None => {
                let ghost before = out@;
                out.push(t[i]);
                assert(before + replace_tokens(*pattern, t@, i as int, rep@) == out@
                    + replace_tokens(*pattern, t@, i + 1, rep@));
                i = i + 1;
            },
        }
    }
    assert(out@ + replace_tokens(*pattern, t@, n as int, rep@) == out@);
    out
}

} // verus!

verus! {

/// The rule outcome for a replacing rule: `t` with every token of `pattern`
/// replaced by `rep`.
pub open spec fn replaced(pattern: Pattern, t: Seq<char>, rep: Seq<char>) -> Option<Seq<char>> {
    Some(replace_tokens(pattern, t, 0, rep))
}

/// A message that starts with `;` or `；` is not read (it is commented out).
pub struct SemicolonPrefixRule;

impl TextRule for SemicolonPrefixRule {
    open spec fn outcome(&self, text: Seq<char>) -> Option<Seq<char>> {
        if text.len() > 0 && (text[0] == ';' || text[0] == '；') {
            None
        } else {
            Some(text)
        }
    }

    fn name(&self) -> (r: &'static str)
        ensures
            r@ == "semicolon_prefix"@,
    {
        "semicolon_prefix"
    }

    fn apply(&self, text: &str) -> (r: RuleOutcome) {
        let t = chars_of(text);
        if t.len() > 0 && (t[0] == ';' || t[0] == '；') {
            RuleOutcome::Skip
        } else {
            RuleOutcome::Continue(text.to_owned())
        }
    }
}

fn replace_rule(pattern: Pattern, text: &str, rep: &str) -> (r: RuleOutcome)
    ensures
        r@ == replaced(pattern, text@, rep@),
{
    let t = chars_of(text);
    let rep = chars_of(rep);
    RuleOutcome::Continue(string_of(&replace_all(&pattern, &t, &rep)))
}

/// Replaces each URL with 「URL省略」 ("URL omitted").
pub struct UrlRule;

impl TextRule for UrlRule {
    open spec fn outcome(&self, text: Seq<char>) -> Option<Seq<char>> {
        replaced(Pattern::Url, text, "URL省略"@)
    }

    fn name(&self) -> (r: &'static str)
        ensures
            r@ == "url"@,
    {
        "url"
    }

    fn apply(&self, text: &str) -> (r: RuleOutcome) {
        replace_rule(Pattern::Url, text, "URL省略")
    }
}

/// Replaces each code block with 「こんなの読めないのだ」 ("can't read this").
pub struct CodeBlockRule;

impl TextRule for CodeBlockRule {
    open spec fn outcome(&self, text: Seq<char>) -> Option<Seq<char>> {
        replaced(Pattern::CodeBlock, text, "こんなの読めないのだ"@)
    }

    fn name(&self) -> (r: &'static str)
        ensures
            r@ == "code_block"@,
    {
        "code_block"
    }

    fn apply(&self, text: &str) -> (r: RuleOutcome) {
        replace_rule(Pattern::CodeBlock, text, "こんなの読めないのだ")
    }
}

/// Removes custom emoji.
pub struct CustomEmojiRule;

impl TextRule for CustomEmojiRule {
    open spec fn outcome(&self, text: Seq<char>) -> Option<Seq<char>> {
        replaced(Pattern::CustomEmoji, text, ""@)
    }

    fn name(&self) -> (r: &'static str)
        ensures
            r@ == "custom_emoji"@,
    {
        "custom_emoji"
    }

    fn apply(&self, text: &str) -> (r: RuleOutcome) {
        replace_rule(Pattern::CustomEmoji, text, "")
    }
}

/// Removes mentions.
pub struct MentionRule;

impl TextRule for MentionRule {
    open spec fn outcome(&self, text: Seq<char>) -> Option<Seq<char>> {
        replaced(Pattern::Mention, text, ""@)
    }

    fn name(&self) -> (r: &'static str)
        ensures
            r@ == "mention"@,
    {
        "mention"
    }

    fn apply(&self, text: &str) -> (r: RuleOutcome) {
        replace_rule(Pattern::Mention, text, "")
    }
}

/// Removes Unicode emoji and symbols.
pub struct UnicodeEmojiRule;

impl TextRule for UnicodeEmojiRule {
    open spec fn outcome(&self, text: Seq<char>) -> Option<Seq<char>> {
        replaced(Pattern::Emoji, text, ""@)
    }

    fn name(&self) -> (r: &'static str)
        ensures
            r@ == "unicode_emoji"@,
    {
        "unicode_emoji"
    }

    fn apply(&self, text: &str) -> (r: RuleOutcome) {
        replace_rule(Pattern::Emoji, text, "")
    }
}

/// One of the standard rules.
pub enum StandardRule {
    SemicolonPrefix(SemicolonPrefixRule),
    Url(UrlRule),
    CodeBlock(CodeBlockRule),
    CustomEmoji(CustomEmojiRule),
    Mention(MentionRule),
    UnicodeEmoji(UnicodeEmojiRule),
}

impl TextRule for StandardRule {
    open spec fn outcome(&self, text: Seq<char>) -> Option<Seq<char>> {
        match self {
            StandardRule::SemicolonPrefix(r) => r.outcome(text),
            StandardRule::Url(r) => r.outcome(text),
            StandardRule::CodeBlock(r) => r.outcome(text),
            StandardRule::CustomEmoji(r) => r.outcome(text),
            StandardRule::Mention(r) => r.outcome(text),
            StandardRule::UnicodeEmoji(r) => r.outcome(text),
        }
    }

    fn name(&self) -> (n: &'static str)
        ensures
            n@ == match self {
                StandardRule::SemicolonPrefix(_) => "semicolon_prefix"@,
                StandardRule::Url(_) => "url"@,
                StandardRule::CodeBlock(_) => "code_block"@,
                StandardRule::CustomEmoji(_) => "custom_emoji"@,
                StandardRule::Mention(_) => "mention"@,
                StandardRule::UnicodeEmoji(_) => "unicode_emoji"@,
            },
    {
        match self {
            StandardRule::SemicolonPrefix(r) => r.name(),
            StandardRule::Url(r) => r.name(),
            StandardRule::CodeBlock(r) => r.name(),
            StandardRule::CustomEmoji(r) => r.name(),
            StandardRule::Mention(r) => r.name(),
            StandardRule::UnicodeEmoji(r) => r.name(),
        }
    }

    fn apply(&self, text: &str) -> (r: RuleOutcome) {
        match self {
            StandardRule::SemicolonPrefix(r) => r.apply(text),
            StandardRule::Url(r) => r.apply(text),
            StandardRule::CodeBlock(r) => r.apply(text),
            StandardRule::CustomEmoji(r) => r.apply(text),
            StandardRule::Mention(r) => r.apply(text),
            StandardRule::UnicodeEmoji(r) => r.apply(text),
        }
    }
}

/// The standard rules in their order: semicolon prefix, URL, code block,
/// custom emoji, mention, Unicode emoji.
pub open spec fn standard_rules() -> Seq<StandardRule> {
    seq![
        StandardRule::SemicolonPrefix(SemicolonPrefixRule),
        StandardRule::Url(UrlRule),
        StandardRule::CodeBlock(CodeBlockRule),
        StandardRule::CustomEmoji(CustomEmojiRule),
        StandardRule::Mention(MentionRule),
        StandardRule::UnicodeEmoji(UnicodeEmojiRule),
    ]
}

/// The standard preprocessing rules, in order.
pub fn default_rules() -> (r: Vec<StandardRule>)
    ensures
        r@ == standard_rules(),
{
    let mut v: Vec<StandardRule> = Vec::new();
    v.push(StandardRule::SemicolonPrefix(SemicolonPrefixRule));
    v.push(StandardRule::Url(UrlRule));
    v.push(StandardRule::CodeBlock(CodeBlockRule));
    v.push(StandardRule::CustomEmoji(CustomEmojiRule));
    v.push(StandardRule::Mention(MentionRule));
    v.push(StandardRule::UnicodeEmoji(UnicodeEmojiRule));
    v
}

} // verus!

verus! {

/// A text in which no token of `pattern` starts is left unchanged by the
/// replacement.
pub proof fn lemma_no_token_unchanged(pattern: Pattern, t: Seq<char>, rep: Seq<char>)
    requires
        forall|i: int| 0 <= i < t.len() ==> #[trigger] token_at(pattern, t, i) is None,
    ensures
        replace_tokens(pattern, t, 0, rep) == t,
{
    lemma_unchanged_from(pattern, t, rep, 0);
    assert(t.subrange(0, t.len() as int) == t);
}

proof fn lemma_unchanged_from(pattern: Pattern, t: Seq<char>, rep: Seq<char>, i: int)
    requires
        0 <= i <= t.len(),
        forall|j: int| 0 <= j < t.len() ==> #[trigger] token_at(pattern, t, j) is None,
    ensures
        replace_tokens(pattern, t, i, rep) == t.subrange(i, t.len() as int),
    decreases t.len() - i,
{
    if i < t.len() {
        lemma_unchanged_from(pattern, t, rep, i + 1);
        assert(token_at(pattern, t, i) is None);
        assert(seq![t[i]] + t.subrange(i + 1, t.len() as int) == t.subrange(i, t.len() as int));
    }
}

/// Removing tokens (replacing them with nothing) never makes a text longer.
pub proof fn lemma_removal_never_lengthens(pattern: Pattern, t: Seq<char>)
    ensures
        replace_tokens(pattern, t, 0, Seq::empty()).len() <= t.len(),
{
    lemma_removal_len_from(pattern, t, 0);
}

proof fn lemma_removal_len_from(pattern: Pattern, t: Seq<char>, i: int)
    requires
        0 <= i,
    ensures
        replace_tokens(pattern, t, i, Seq::empty()).len() <= if i <= t.len() {
            t.len() - i
        } else {
            0
        },
    decreases t.len() - i,
{
    if i < t.len() {
        match token_at(pattern, t, i) {
            Some(e) => if i < e <= t.len() {
                lemma_removal_len_from(pattern, t, e);
                assert(Seq::<char>::empty() + replace_tokens(pattern, t, e, Seq::empty())
                    == replace_tokens(pattern, t, e, Seq::empty()));
            } else {
                lemma_removal_len_from(pattern, t, i + 1);
            },
            None => {
                lemma_removal_len_from(pattern, t, i + 1);
            },
        }
    }
}

/// After the Unicode emoji rule, no emoji character is left.
pub proof fn lemma_emoji_rule_leaves_no_emoji(t: Seq<char>)
    ensures
        forall|k: int|
            0 <= k < replace_tokens(Pattern::Emoji, t, 0, Seq::empty()).len() ==> !is_emoji(
                #[trigger] replace_tokens(Pattern::Emoji, t, 0, Seq::empty())[k],
            ),
{
    lemma_no_emoji_from(t, 0);
}

proof fn lemma_no_emoji_from(t: Seq<char>, i: int)
    requires
        0 <= i,
    ensures
        forall|k: int|
            0 <= k < replace_tokens(Pattern::Emoji, t, i, Seq::empty()).len() ==> !is_emoji(
                #[trigger] replace_tokens(Pattern::Emoji, t, i, Seq::empty())[k],
            ),
    decreases t.len() - i,
{
    if i < t.len() {
        lemma_no_emoji_from(t, i + 1);
        let rest = replace_tokens(Pattern::Emoji, t, i + 1, Seq::empty());
        if is_emoji(t[i]) {
            assert(replace_tokens(Pattern::Emoji, t, i, Seq::empty()) == Seq::<char>::empty()
                + rest);
            assert(Seq::<char>::empty() + rest == rest);
        } else {
            let r = replace_tokens(Pattern::Emoji, t, i, Seq::empty());
            assert(r == seq![t[i]] + rest);
            assert forall|k: int| 0 <= k < r.len() implies !is_emoji(#[trigger] r[k]) by {
                if k > 0 {
                    assert(r[k] == rest[k - 1]);
                }
            }
        }
    }
}

} // verus!

verus! {

/// A message that starts with `;` or `；` is never read by the standard
/// rules, whatever follows.
pub proof fn lemma_commented_message_not_read(input: Seq<char>)
    requires
        input.len() > 0,
        input[0] == ';' || input[0] == '；',
    ensures
        crate::application::rule_pipeline::read_text(standard_rules(), input) is None,
{
    assert(standard_rules()[0].outcome(input) is None);
    assert(crate::application::rule_pipeline::apply_rules(standard_rules(), input) is None);
}

} // verus!

verus! {

/// The punctuation a URL may hold besides `\w` characters:
/// `/ : % # $ & ? ( ) ~ . = + -`.
pub open spec fn url_punctuation() -> Seq<char> {
    seq!['/', ':', '%', '#', '$', '&', '?', '(', ')', '~', '.', '=', '+', '-']
}

/// The URL class holds every `\w` character and every character of
/// `url_punctuation` (and `-` in particular).
pub proof fn lemma_url_class_members(c: char)
    ensures
        unicode_word_char(c) ==> class_has(CharClass::UrlChar, c),
        url_punctuation().contains(c) ==> class_has(CharClass::UrlChar, c),
        class_has(CharClass::UrlChar, '-'),
{
    if url_punctuation().contains(c) {
        let k = choose|k: int| 0 <= k < url_punctuation().len() && url_punctuation()[k] == c;
        assert(0 <= k < 14);
    }
}

proof fn lemma_run_to_end(t: Seq<char>, j: int, class: CharClass)
    requires
        0 <= j <= t.len(),
        forall|k: int| j <= k < t.len() ==> class_has(class, #[trigger] t[k]),
    ensures
        run_end(t, j, class) == t.len(),
    decreases t.len() - j,
{
    if j < t.len() {
        lemma_run_to_end(t, j + 1, class);
    }
}

/// A URL — `https://` or `http://` followed by `\w` characters and URL
/// punctuation, `-` included — is one token: the whole of it is replaced.
pub proof fn lemma_url_is_one_token(scheme: Seq<char>, body: Seq<char>, rep: Seq<char>)
    requires
        scheme == "https://"@ || scheme == "http://"@,
        body.len() > 0,
        forall|k: int|
            0 <= k < body.len() ==> unicode_word_char(#[trigger] body[k])
                || url_punctuation().contains(body[k]),
    ensures
        replace_tokens(Pattern::Url, scheme + body, 0, rep) == rep,
        UrlRule.outcome(scheme + body) == Some("URL省略"@),
{
    reveal_strlit("https://");
    reveal_strlit("http://");
    let t = scheme + body;
    let s = scheme.len() as int;
    assert forall|k: int| s <= k < t.len() implies class_has(CharClass::UrlChar, #[trigger] t[k]) by {
        assert(t[k] == body[k - s]);
        lemma_url_class_members(body[k - s]);
    }
    if scheme == "https://"@ {
        assert(t.subrange(0, 8) =~= "https://"@);
    } else {
        assert(t.subrange(0, 7) =~= "http://"@);
        assert(t[4] == ':');
        assert(!occurs_at(t, 0, "https://"@)) by {
            if occurs_at(t, 0, "https://"@) {
                assert(t.subrange(0, 8)[4] == 's');
            }
        }
    }
    lemma_run_to_end(t, s, CharClass::UrlChar);
    assert(url_token(t, 0) == Some(t.len() as int));
    assert(replace_tokens(Pattern::Url, t, t.len() as int, rep) == Seq::<char>::empty());
    assert(replace_tokens(Pattern::Url, t, 0, rep) =~= rep + Seq::<char>::empty());
    assert(replace_tokens(Pattern::Url, t, t.len() as int, "URL省略"@) == Seq::<char>::empty());
    assert(replace_tokens(Pattern::Url, t, 0, "URL省略"@) =~= "URL省略"@ + Seq::<char>::empty());
}

/// Only a leading `;` or `；` comments a message out: the semicolon rule
/// skips exactly those messages and passes every other one on unchanged.
pub proof fn lemma_semicolon_rule_exact(text: Seq<char>)
    ensures
        SemicolonPrefixRule.outcome(text) is None <==> (text.len() > 0 && (text[0] == ';' || text[0]
            == '；')),
        (text.len() == 0 || (text[0] != ';' && text[0] != '；')) ==> SemicolonPrefixRule.outcome(
            text,
        ) == Some(text),
{
}

/// The standard rules skip a message exactly when it starts with `;` or
/// `；`: no other rule skips, wherever a semicolon stands.
pub proof fn lemma_standard_rules_skip_only_comments(text: Seq<char>)
    ensures
        apply_rules(standard_rules(), text) is None <==> (
        text.len() > 0 && (text[0] == ';' || text[0] == '；')),
{
    let rs = standard_rules();
    reveal_with_fuel(apply_rules, 7);
    assert forall|t: Seq<char>, i: int| 1 <= i < 6 implies (#[trigger] rs[i].outcome(t)) is Some by {
    }
    let r1 = rs.drop_first();
    let r2 = r1.drop_first();
    let r3 = r2.drop_first();
    let r4 = r3.drop_first();
    let r5 = r4.drop_first();
    let r6 = r5.drop_first();
    assert(r6 =~= Seq::<StandardRule>::empty());
    assert(r1[0] == rs[1]);
    assert(r2[0] == rs[2]);
    assert(r3[0] == rs[3]);
    assert(r4[0] == rs[4]);
    assert(r5[0] == rs[5]);
    if !(text.len() > 0 && (text[0] == ';' || text[0] == '；')) {
        assert(rs[0].outcome(text) == Some(text));
    }
}

proof fn lemma_no_fence_until(t: Seq<char>, k: int, end: int)
    requires
        0 <= k <= end,
        end + 3 <= t.len(),
        occurs_at(t, end, "```"@),
        forall|j: int| k <= j < end ==> !#[trigger] occurs_at(t, j, "```"@),
    ensures
        fence_from(t, k) == Some(end),
    decreases end - k,
{
    if k < end {
        lemma_no_fence_until(t, k + 1, end);
    }
}

/// A code block — three backquotes, a body without three backquotes in a
/// row, three backquotes — is one token: the whole of it is replaced.
pub proof fn lemma_code_block_is_one_token(body: Seq<char>, rep: Seq<char>)
    requires
        forall|j: int| 0 <= j <= body.len() - 3 ==> !#[trigger] occurs_at(body, j, "```"@),
        body.len() == 0 || body.last() != '`',
    ensures
        replace_tokens(Pattern::CodeBlock, "```"@ + body + "```"@, 0, rep) == rep,
{
    reveal_strlit("```");
    let f = "```"@;
    let t = f + body + f;
    let n = body.len() as int;
    assert(t.subrange(0, 3) =~= f);
    assert(t.subrange(n + 3, n + 6) =~= f);
    assert forall|j: int| 3 <= j < n + 3 implies !#[trigger] occurs_at(t, j, "```"@) by {
        if occurs_at(t, j, "```"@) {
            if j + 3 <= n + 3 {
                assert(t.subrange(j, j + 3) =~= body.subrange(j - 3, j));
                assert(occurs_at(body, j - 3, "```"@));
            } else {
                assert(t[n + 2] == body.last());
                assert(t.subrange(j, j + 3)[n + 2 - j] == t[n + 2]);
            }
        }
    }
    lemma_no_fence_until(t, 3, n + 3);
    assert(code_block_token(t, 0) == Some(n + 6));
    assert(replace_tokens(Pattern::CodeBlock, t, n + 6, rep) == Seq::<char>::empty());
    assert(replace_tokens(Pattern::CodeBlock, t, 0, rep) =~= rep + Seq::<char>::empty());
}

/// A user mention `<@digits>` is one token: the whole of it is replaced
/// (given that `>`, `!` and `&` are not decimal digits, Unicode facts).
pub proof fn lemma_mention_is_one_token(digits: Seq<char>, rep: Seq<char>)
    requires
        digits.len() > 0,
        forall|k: int| 0 <= k < digits.len() ==> unicode_decimal_digit(#[trigger] digits[k]),
        !unicode_decimal_digit('>'),
        !unicode_decimal_digit('!'),
        !unicode_decimal_digit('&'),
    ensures
        replace_tokens(Pattern::Mention, seq!['<', '@'] + digits + seq!['>'], 0, rep) == rep,
{
    let t = seq!['<', '@'] + digits + seq!['>'];
    let n = digits.len() as int;
    assert(t[n + 2] == '>');
    assert forall|k: int| 2 <= k < n + 2 implies class_has(CharClass::Digit, #[trigger] t[k]) by {
        assert(t[k] == digits[k - 2]);
    }
    lemma_run_until(t, 2, n + 2, CharClass::Digit);
    assert(t[2] == digits[0]);
    assert(unicode_decimal_digit(digits[0]));
    assert(mention_token(t, 0) == Some(n + 3));
    assert(replace_tokens(Pattern::Mention, t, n + 3, rep) == Seq::<char>::empty());
    assert(replace_tokens(Pattern::Mention, t, 0, rep) =~= rep + Seq::<char>::empty());
}

proof fn lemma_run_until(t: Seq<char>, j: int, e: int, class: CharClass)
    requires
        0 <= j <= e < t.len(),
        forall|k: int| j <= k < e ==> class_has(class, #[trigger] t[k]),
        !class_has(class, t[e]),
    ensures
        run_end(t, j, class) == e,
    decreases e - j,
{
    if j < e {
        lemma_run_until(t, j + 1, e, class);
    }
}

} // verus!
