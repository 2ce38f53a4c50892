use vstd::prelude::*;
use vstd::string::StrSliceExecFns;
use crate::config::{is_white_space, white_space};
use crate::random::{fresh_uuid, uuid_text};

verus! {

/// Whether Unicode classes the character as upper case.
pub uninterp spec fn upper_case(c: char) -> bool;

/// Whether Unicode classes the character as a letter or a number.
pub uninterp spec fn alpha_numeric(c: char) -> bool;

/// Relies on `char::is_uppercase`: the Unicode `Uppercase` property, which
/// depends on the character alone.
#[verifier::external_body]
fn is_upper_case(c: char) -> (r: bool)
    ensures
        r == upper_case(c),
{
    c.is_uppercase()
}

/// Relies on `char::is_alphanumeric`: the Unicode `Alphabetic` or numeric
/// properties, which depend on the character alone.
#[verifier::external_body]
fn is_alpha_numeric(c: char) -> (r: bool)
    ensures
        r == alpha_numeric(c),
{
    c.is_alphanumeric()
}

/// How many characters of `s` satisfy `p`.
pub open spec fn count_chars(s: Seq<char>, p: spec_fn(char) -> bool) -> nat
    decreases s.len(),
{
    if s.len() == 0 {
        0
    } else {
        count_chars(s.drop_last(), p) + if p(s.last()) { 1nat } else { 0nat }
    }
}

/// Whether a character is neither a letter, a number nor white space.
pub open spec fn special(c: char) -> bool {
    !alpha_numeric(c) && !white_space(c)
}

/// Whether a text looks like spam, its length `l` counted in bytes of UTF-8:
/// over 10 bytes with fewer than `l / 4` distinct characters, over 5 bytes with
/// more than three quarters of `l` in capitals, or more than `l / 2` characters
/// that are neither letters, numbers nor white space.
pub open spec fn likely_spam(text: Seq<char>) -> bool {
    let l = vstd::utf8::encode_utf8(text).len();
    ||| l > 10 && text.to_set().len() < l / 4
    ||| l > 5 && count_chars(text, |c: char| upper_case(c)) > l * 3 / 4
    ||| count_chars(text, |c: char| special(c)) > l / 2
}

/// The number of distinct characters of `s`.
fn distinct_chars(s: &str) -> (r: usize)
    ensures
        r == s@.to_set().len(),
{
    let n = s.unicode_len();
    let mut seen: Vec<char> = Vec::new();
    let mut i: usize = 0;
    while i < n
        invariant
            n == s@.len(),
            i <= n,
            seen@.no_duplicates(),
            seen@.to_set() == s@.take(i as int).to_set(),
            seen@.len() <= i,
        decreases n - i,
    {
        let c = s.get_char(i);
        let mut j: usize = 0;
        let mut found = false;
        while j < seen.len()
            invariant
                j <= seen@.len(),
                found == exists|k: int| 0 <= k < j && seen@[k] == c,
            decreases seen@.len() - j,
        {
            if seen[j] == c {
                found = true;
            }
            j = j + 1;
        }
        let ghost before = seen@;
        let ghost t0 = s@.take(i as int);
        let ghost t1 = s@.take(i + 1);
        assert(t1 == t0.push(c));
        if !found {
            seen.push(c);
            assert forall|a: int, b: int| 0 <= a < b < seen@.len() implies seen@[a] != seen@[b] by {
                if b == seen@.len() - 1 {
                    assert(before[a] != c);
                } else {
                    assert(before[a] != before[b]);
                }
            }
            assert forall|x: char| seen@.to_set().contains(x) <==> t1.to_set().contains(x) by {
                if seen@.to_set().contains(x) {
                    let k = choose|k: int| 0 <= k < seen@.len() && seen@[k] == x;
                    if k < before.len() {
                        assert(before.to_set().contains(x));
                        let m = choose|m: int| 0 <= m < i && t0[m] == x;
                        assert(t1[m] == x);
                    } else {
                        assert(t1[i as int] == x);
                    }
                }
                if t1.to_set().contains(x) {
                    let m = choose|m: int| 0 <= m < i + 1 && t1[m] == x;
                    if m < i {
                        assert(t0[m] == x);
                        assert(t0.to_set().contains(x));
                        let k = choose|k: int| 0 <= k < before.len() && before[k] == x;
                        assert(seen@[k] == x);
                    } else {
                        assert(seen@[seen@.len() - 1] == x);
                    }
                }
            }
            assert(seen@.to_set() =~= t1.to_set());
        } else {
            assert forall|x: char| seen@.to_set().contains(x) <==> t1.to_set().contains(x) by {
                if seen@.to_set().contains(x) {
                    let k = choose|k: int| 0 <= k < seen@.len() && seen@[k] == x;
                    assert(t0.to_set().contains(x));
                    let m = choose|m: int| 0 <= m < i && t0[m] == x;
                    assert(t1[m] == x);
                }
                if t1.to_set().contains(x) {
                    let m = choose|m: int| 0 <= m < i + 1 && t1[m] == x;
                    if m < i {
                        assert(t0[m] == x);
                        assert(t0.to_set().contains(x));
                    } else {
                        let k = choose|k: int| 0 <= k < j && seen@[k] == c;
                        assert(seen@[k] == x);
                    }
                }
            }
            assert(seen@.to_set() =~= t1.to_set());
        }
        i = i + 1;
    }
    assert(s@.take(n as int) == s@);
    proof {
        seen@.unique_seq_to_set();
    }
    seen.len()
}

/// How many characters of `s` are capitals, and how many are neither letters,
/// numbers nor white space.
fn char_classes(s: &str) -> (r: (usize, usize))
    ensures
        r.0 == count_chars(s@, |c: char| upper_case(c)),
        r.1 == count_chars(s@, |c: char| special(c)),
{
    let n = s.unicode_len();
    let mut caps: usize = 0;
    let mut specials: usize = 0;
    let mut i: usize = 0;
    while i < n
        invariant
            n == s@.len(),
            i <= n,
            caps == count_chars(s@.take(i as int), |c: char| upper_case(c)),
            specials == count_chars(s@.take(i as int), |c: char| special(c)),
            caps <= i,
            specials <= i,
        decreases n - i,
    {
        let c = s.get_char(i);
        assert(s@.take(i + 1).drop_last() == s@.take(i as int));
        assert(s@.take(i + 1).last() == c);
        if is_upper_case(c) {
            caps = caps + 1;
        }
        if !is_alpha_numeric(c) && !is_white_space(c) {
            specials = specials + 1;
        }
        i = i + 1;
    }
    assert(s@.take(n as int) == s@);
    (caps, specials)
}

/// A piece of a chat message: text or an emote.
#[derive(Debug, Clone, PartialEq)]
pub struct MessageFragment {
    /// `text` or `emote`.
    pub fragment_type: String,
    pub content: String,
}

/// The author of a chat message.
#[derive(Debug, Clone, PartialEq)]
pub struct ChatUser {
    pub username: String,
    pub display_name: String,
    pub color: Option<String>,
    pub badges: Vec<String>,
}

/// What a chat message says.
#[derive(Debug, Clone, PartialEq)]
pub struct MessageContent {
    pub text: String,
    pub emotes: Vec<String>,
    pub fragments: Vec<MessageFragment>,
}

/// What is known of the stream a message was posted to.
#[derive(Debug, Clone, PartialEq)]
pub struct StreamContext {
    pub viewer_count: Option<u32>,
    pub game_category: Option<String>,
    pub stream_title: Option<String>,
}

impl Default for StreamContext {
    /// Nothing known.
    fn default() -> (r: StreamContext)
        ensures
            r.viewer_count is None,
            r.game_category is None,
            r.stream_title is None,
    {
        StreamContext { viewer_count: None, game_category: None, stream_title: None }
    }
}

/// One chat message as published to subscribers; `timestamp` is in
/// milliseconds since the Unix epoch.
#[derive(Debug, Clone, PartialEq)]
pub struct ChatMessage {
    pub id: String,
    pub streamer: String,
    pub timestamp: u64,
    pub user: ChatUser,
    pub message: MessageContent,
    pub context: StreamContext,
}

impl ChatMessage {
    /// A message with a fresh random id.
    pub fn new(streamer: String, timestamp: u64, user: ChatUser, message: MessageContent, context: StreamContext) -> (r: ChatMessage)
        ensures
            r.id@.len() == 36,
            r.streamer == streamer,
            r.timestamp == timestamp,
            r.user == user,
            r.message == message,
            r.context == context,
    {
        ChatMessage { id: uuid_text(fresh_uuid()), streamer, timestamp, user, message, context }
    }

    /// Whether the message has an author, a text and a streamer.
    pub fn is_valid(&self) -> (r: bool)
        ensures
            r == (self.user.username@.len() > 0 && self.message.text@.len() > 0 && self.streamer@.len() > 0),
    {
        !self.user.username.as_str().is_empty() && !self.message.text.as_str().is_empty()
            && !self.streamer.as_str().is_empty()
    }

    /// Whether the text looks like spam (see `likely_spam`).
    pub fn is_likely_spam(&self) -> (r: bool)
        ensures
            r == likely_spam(self.message.text@),
    {
        let text = self.message.text.as_str();
        let l = text.as_bytes().len() as u128;
        if l > 10 {
            let unique = distinct_chars(text) as u128;
            if unique < l / 4 {
                return true;
            }
        }
        let (caps, specials) = char_classes(text);
        if l > 5 && (caps as u128) > l * 3 / 4 {
            return true;
        }
        (specials as u128) > l / 2
    }

    /// The length of the text in bytes of UTF-8.
    pub fn message_length(&self) -> (r: usize)
        ensures
            r == vstd::utf8::encode_utf8(self.message.text@).len(),
    {
        self.message.text.as_str().as_bytes().len()
    }
}

} // verus!
