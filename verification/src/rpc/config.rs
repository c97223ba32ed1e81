//! What the tool that sends many transactions is configured with.

use vstd::prelude::*;
use vstd::string::StrSliceExecFns;

verus! {

/// The configuration.
#[derive(Debug)]
pub struct Config {
    /// Addresses of the nodes to send transactions to.
    pub nodes: Vec<String>,
    /// How many transactions to send.
    pub transactions: u64,
    /// What throughput to use (transactions/s).
    pub throughput: u64,
    /// Secret phrase: a path to a file or the phrase itself.
    pub phrase: Option<String>,
    /// Secret seed of the account keypair.
    pub seed: Option<String>,
    /// Allows to skip the initialization of accounts and just attempt to download
    /// their nonces.
    pub skip_initialization: bool,
    /// Beginning of the integer range used to derive accounts.
    pub first_account_in_range: u64,
    /// Number of threads spawned to send transactions.
    pub threads: u64,
}

impl Default for Config {
    /// What is used where nothing else is asked for.
    fn default() -> (config: Self)
        ensures
            config.nodes@.len() == 1,
            config.nodes@[0]@ == "127.0.0.1:9945"@,
            config.transactions == 10000,
            config.throughput == 1000,
            config.phrase is None,
            config.seed is None,
            !config.skip_initialization,
            config.first_account_in_range == 0,
            config.threads == 3,
    {
        let mut nodes: Vec<String> = Vec::new();
        nodes.push("127.0.0.1:9945".to_owned());
        Config {
            nodes,
            transactions: 10000,
            throughput: 1000,
            phrase: None,
            seed: None,
            skip_initialization: false,
            first_account_in_range: 0,
            threads: 3,
        }
    }
}

/// Whether a code point is white space, by the property White_Space of Unicode.
pub open spec fn is_white_space_code(code: u32) -> bool {
    ||| 0x9 <= code <= 0xD
    ||| code == 0x20 || code == 0x85 || code == 0xA0 || code == 0x1680
    ||| 0x2000 <= code <= 0x200A
    ||| code == 0x2028 || code == 0x2029 || code == 0x202F || code == 0x205F || code == 0x3000
}

/// Whether a character is white space.
pub open spec fn white_space(c: char) -> bool {
    is_white_space_code(c as u32)
}

fn is_white_space(c: char) -> (white: bool)
    ensures
        white == white_space(c),
{
    let code: u32 = c as u32;
    (0x9 <= code && code <= 0xD) || code == 0x20 || code == 0x85 || code == 0xA0 || code == 0x1680
        || (0x2000 <= code && code <= 0x200A) || code == 0x2028 || code == 0x2029 || code == 0x202F
        || code == 0x205F || code == 0x3000
}

/// A text without the white space at its end.
pub open spec fn trimmed(text: Seq<char>) -> Seq<char>
    decreases text.len(),
{
    if text.len() > 0 && white_space(text.last()) {
        trimmed(text.drop_last())
    } else {
        text
    }
}

/// A text without the white space at its end.
pub fn trim_end(text: &str) -> (short: String)
    ensures
        short@ == trimmed(text@),
{
    let mut end: usize = text.unicode_len();
    proof {
        assert(text@.take(end as int) =~= text@);
    }
    while end > 0 && is_white_space(text.get_char(end - 1))
        invariant
            end <= text@.len(),
            trimmed(text@.take(end as int)) == trimmed(text@),
        decreases end,
    {
        proof {
            assert(text@.take(end as int).drop_last() =~= text@.take(end - 1));
        }
        end = end - 1;
    }
    proof {
        assert(text@.subrange(0, end as int) =~= text@.take(end as int));
    }
    text.substring_char(0, end).to_owned()
}

/// The secret phrase: the contents of the file that the given phrase is a path
/// to, without the white space at their end, or the given phrase where it is
/// none.
pub fn read_phrase(phrase: String, file_contents: Option<String>) -> (secret: String)
    ensures
        secret@ == match file_contents {
            Some(contents) => trimmed(contents@),
            None => phrase@,
        },
{
    match file_contents {
        Some(contents) => trim_end(contents.as_str()),
        None => phrase,
    }
}

/// Trimming a text that is trimmed changes nothing.
pub proof fn trimming_is_idempotent(text: Seq<char>)
    ensures
        trimmed(trimmed(text)) == trimmed(text),
    decreases text.len(),
{
    if text.len() > 0 && white_space(text.last()) {
        trimming_is_idempotent(text.drop_last());
    }
}

/// Trimming cuts white space off the end and nothing else: what is left is the
/// start of the text, all that was cut off is white space, and what is left does
/// not end with any.
pub proof fn trimming_cuts_white_space_only(text: Seq<char>, i: int)
    ensures
        trimmed(text).len() <= text.len(),
        trimmed(text) == text.take(trimmed(text).len() as int),
        trimmed(text).len() <= i < text.len() ==> white_space(text[i]),
        trimmed(text).len() > 0 ==> !white_space(trimmed(text).last()),
    decreases text.len(),
{
    if text.len() > 0 && white_space(text.last()) {
        let shorter = text.drop_last();
        trimming_cuts_white_space_only(shorter, i);
        assert(shorter.take(trimmed(text).len() as int) =~= text.take(
            trimmed(text).len() as int,
        ));
        if 0 <= i < shorter.len() {
            assert(shorter[i] == text[i]);
        }
    } else {
        assert(text.take(text.len() as int) =~= text);
    }
}

/// Spaces, tabs and the ends of lines are white space; no character that can be
/// seen in ASCII is.
pub proof fn what_can_be_seen_is_no_white_space(c: char)
    ensures
        white_space(' ') && white_space('\t') && white_space('\n') && white_space('\r'),
        '!' <= c <= '~' ==> !white_space(c),
        c <= '\x08' ==> !white_space(c),
{
}

/// Which characters are white space, over all of them: each lies in one of the
/// ranges that are, or in one of the gaps between them.
pub proof fn white_space_lies_in_ranges(c: char)
    ensures
        '\x09' <= c <= '\x0d' ==> white_space(c),
        c == '\u{20}' || c == '\u{85}' || c == '\u{a0}' || c == '\u{1680}' ==> white_space(c),
        '\u{2000}' <= c <= '\u{200a}' ==> white_space(c),
        c == '\u{2028}' || c == '\u{2029}' || c == '\u{202f}' ==> white_space(c),
        c == '\u{205f}' || c == '\u{3000}' ==> white_space(c),
        '\x0e' <= c <= '\x1f' ==> !white_space(c),
        '\x21' <= c <= '\u{84}' ==> !white_space(c),
        '\u{86}' <= c <= '\u{9f}' ==> !white_space(c),
        '\u{a1}' <= c <= '\u{167f}' ==> !white_space(c),
        '\u{1681}' <= c <= '\u{1fff}' ==> !white_space(c),
        '\u{200b}' <= c <= '\u{2027}' ==> !white_space(c),
        '\u{202a}' <= c <= '\u{202e}' ==> !white_space(c),
        '\u{2030}' <= c <= '\u{205e}' ==> !white_space(c),
        '\u{2060}' <= c <= '\u{2fff}' ==> !white_space(c),
        '\u{3001}' <= c ==> !white_space(c),
{
}

/// The phrase is what the file holds that it is a path to, up to white space at its
/// end, and otherwise the phrase itself, which is left as it is.
pub proof fn phrases_come_from_their_file(
    phrase: String,
    contents: String,
    from_file: String,
    bare: String,
)
    requires
        call_ensures(read_phrase, (phrase, Some(contents)), from_file),
        call_ensures(read_phrase, (phrase, None::<String>), bare),
    ensures
        bare@ == phrase@,
        from_file@.len() <= contents@.len(),
        from_file@ == contents@.take(from_file@.len() as int),
        from_file@.len() > 0 ==> !white_space(from_file@.last()),
{
    trimming_cuts_white_space_only(contents@, 0);
}

} // verus!
