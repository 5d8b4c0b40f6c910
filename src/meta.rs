//! Splitting the free-text line "by AUTHOR : DATE" of a post into its parts.

use crate::timestamp::{parse_datetime, parsed_datetime, Timestamp};
use vstd::prelude::*;

verus! {

/// The line pattern: `by`, blanks, an author token, a colon between optional
/// blanks, and the rest of the line as the date.
pub const META_PATTERN: &'static str = r"by\s+(?P<author>\S+)\s*:\s*(?P<date>.+)";

/// Group of [`META_PATTERN`] that holds the author.
pub const AUTHOR_GROUP: &'static str = "author";

/// Group of [`META_PATTERN`] that holds the date.
pub const DATE_GROUP: &'static str = "date";

/// The date format of the line, as in `Jan 5, 2024 at 3:45 PM`.
pub const META_DATE_FORMAT: &'static str = "%b %d, %Y at %I:%M %p";

/// The characters that Unicode gives the White_Space property.
pub open spec fn is_white_space(c: char) -> bool {
    let u = c as u32;
    ||| 0x09 <= u <= 0x0d
    ||| u == 0x20
    ||| u == 0x85
    ||| u == 0xa0
    ||| u == 0x1680
    ||| 0x2000 <= u <= 0x200a
    ||| u == 0x2028
    ||| u == 0x2029
    ||| u == 0x202f
    ||| u == 0x205f
    ||| u == 0x3000
}

pub fn white_space(c: char) -> (r: bool)
    ensures
        r == is_white_space(c),
{
    let u = c as u32;
    (0x09 <= u && u <= 0x0d) || u == 0x20 || u == 0x85 || u == 0xa0 || u == 0x1680 || (0x2000
        <= u && u <= 0x200a) || u == 0x2028 || u == 0x2029 || u == 0x202f || u == 0x205f || u
        == 0x3000
}

/// Where a left-to-right scan stands: before the first word, inside a word,
/// or in the blanks after a word.
pub enum Gap {
    Leading,
    InWord,
    AfterWord,
}

/// The words of `s` (its maximal runs of non-blank characters), each
/// separated from the next by one space, from scan state `g` on.
pub open spec fn squeeze(s: Seq<char>, g: Gap) -> Seq<char>
    decreases s.len(),
{
    if s.len() == 0 {
        Seq::empty()
    } else if is_white_space(s[0]) {
        match g {
            Gap::Leading => squeeze(s.drop_first(), Gap::Leading),
            _ => squeeze(s.drop_first(), Gap::AfterWord),
        }
    } else {
        match g {
            Gap::AfterWord => seq![' ', s[0]] + squeeze(s.drop_first(), Gap::InWord),
            _ => seq![s[0]] + squeeze(s.drop_first(), Gap::InWord),
        }
    }
}

/// `s` with blanks trimmed at both ends and each inner run of blanks
/// replaced by one space.
pub open spec fn normalized(s: Seq<char>) -> Seq<char> {
    squeeze(s, Gap::Leading)
}

/// Trims `raw` and collapses every run of blanks (spaces, tabs, newlines)
/// into a single space.
pub fn normalize_whitespace(raw: &str) -> (r: String)
    ensures
        r@ == normalized(raw@),
{
    let n = raw.unicode_len();
    let mut out = String::new();
    let mut g = Gap::Leading;
    let mut i: usize = 0;
    assert(raw@.skip(0) =~= raw@);
    while i < n
        invariant
            n == raw@.len(),
            i <= n,
            out@ + squeeze(raw@.skip(i as int), g) == normalized(raw@),
        decreases n - i,
    {
        let c = raw.get_char(i);
        let piece = raw.substring_char(i, i + 1);
        assert(raw@.skip(i as int).drop_first() =~= raw@.skip(i + 1));
        assert(piece@ =~= seq![c]);
        if white_space(c) {
            g = match g {
                Gap::Leading => Gap::Leading,
                _ => Gap::AfterWord,
            };
        } else {
            match g {
                Gap::AfterWord => {
                    proof {
                        reveal_strlit(" ");
                    }
                    let ghost before = out@;
                    out.append(" ");
                    out.append(piece);
                    assert(out@ =~= before + seq![' ', c]);
                },
                _ => {
                    out.append(piece);
                },
            }
            g = Gap::InWord;
        }
        i = i + 1;
    }
    assert(raw@.skip(n as int) =~= Seq::<char>::empty());
    out
}

/// What `regex` finds for two named groups of a pattern in a text.
pub uninterp spec fn regex_group_pair(
    pattern: Seq<char>,
    text: Seq<char>,
    first: Seq<char>,
    second: Seq<char>,
) -> Option<(Seq<char>, Seq<char>)>;

/// Relies on `regex::Regex::new`, `Regex::captures` and `Captures::name`:
/// the texts of the groups `first` and `second` of the leftmost match of
/// `pattern` in `text`; `None` where the pattern does not compile, nothing
/// matches, or either group took no part in the match.
#[verifier::external_body]
fn capture_pair(pattern: &str, text: &str, first: &str, second: &str) -> (r: Option<(String, String)>)
    ensures
        r matches Some((a, b)) ==> regex_group_pair(pattern@, text@, first@, second@) == Some((a@, b@)),
        r is None ==> regex_group_pair(pattern@, text@, first@, second@) is None,
{
    let caps = regex::Regex::new(pattern).ok()?.captures(text)?;
    Some((caps.name(first)?.as_str().to_string(), caps.name(second)?.as_str().to_string()))
}

/// The (author, date) text pair that the line pattern finds in `raw` once its
/// blanks are collapsed.
pub open spec fn meta_groups(raw: Seq<char>) -> Option<(Seq<char>, Seq<char>)> {
    regex_group_pair(META_PATTERN@, normalized(raw), AUTHOR_GROUP@, DATE_GROUP@)
}

/// The author and date that a metadata line gives, if both are there.
pub open spec fn meta_of(raw: Seq<char>) -> Option<(Seq<char>, Timestamp)> {
    match meta_groups(raw) {
        Some((author, date)) => match parsed_datetime(date, META_DATE_FORMAT@) {
            Some(t) => Some((author, t)),
            None => None,
        },
        None => None,
    }
}

/// The scan state from which the output of a scan in state `g` reads back
/// unchanged.
pub open spec fn rescan_state(g: Gap) -> Gap {
    match g {
        Gap::Leading => Gap::Leading,
        _ => Gap::InWord,
    }
}

proof fn lemma_squeeze_stable(s: Seq<char>, g: Gap)
    ensures
        squeeze(squeeze(s, g), rescan_state(g)) == squeeze(s, g),
    decreases s.len(),
{
    if s.len() > 0 {
        let rest = s.drop_first();
        if is_white_space(s[0]) {
            let g2 = match g {
                Gap::Leading => Gap::Leading,
                _ => Gap::AfterWord,
            };
            lemma_squeeze_stable(rest, g2);
        } else {
            let t = squeeze(rest, Gap::InWord);
            lemma_squeeze_stable(rest, Gap::InWord);
            let c = s[0];
            assert((seq![c] + t)[0] == c);
            assert((seq![c] + t).drop_first() =~= t);
            match g {
                Gap::AfterWord => {
                    let u = seq![' ', c] + t;
                    assert(u[0] == ' ');
                    assert(is_white_space(' '));
                    assert(u.drop_first() =~= seq![c] + t);
                    assert(squeeze(seq![c] + t, Gap::AfterWord) == seq![' ', c] + squeeze(t, Gap::InWord));
                    assert(squeeze(u, Gap::InWord) == squeeze(seq![c] + t, Gap::AfterWord));
                },
                _ => {
                    assert(squeeze(seq![c] + t, rescan_state(g)) == seq![c] + squeeze(t, Gap::InWord));
                },
            }
        }
    }
}

/// Collapsing blanks a second time changes nothing.
pub proof fn lemma_normalized_idempotent(s: Seq<char>)
    ensures
        normalized(normalized(s)) == normalized(s),
{
    lemma_squeeze_stable(s, Gap::Leading);
}

/// A metadata line reads the same once its blanks are collapsed: only its
/// words, in order, decide the author and the date.
pub proof fn lemma_meta_ignores_layout(raw: Seq<char>)
    ensures
        meta_of(normalized(raw)) == meta_of(raw),
{
    lemma_normalized_idempotent(raw);
}

/// Splits a metadata line into its author and its date. Gives `None` where
/// the line does not have the expected shape or its date does not parse
/// under [`META_DATE_FORMAT`]; author and date come together or not at all.
pub fn parse_meta(raw: &str) -> (r: Option<(String, Timestamp)>)
    ensures
        r matches Some((a, t)) ==> meta_of(raw@) == Some((a@, t)),
        r is None ==> meta_of(raw@) is None,
        r matches Some((a, t)) ==> t.wf(),
{
    let text = normalize_whitespace(raw);
    match capture_pair(META_PATTERN, text.as_str(), AUTHOR_GROUP, DATE_GROUP) {
        Some((author, date)) => match parse_datetime(date.as_str(), META_DATE_FORMAT) {
            Some(t) => Some((author, t)),
            None => None,
        },
        None => None,
    }
}

} // verus!
