use vstd::prelude::*;
use vstd::string::{StrSliceExecFns, StringExecFns};
use crate::config::u64_of;
use crate::error::ScrapingError;
use crate::text::{find, find_text, trim_text, trimmed};

verus! {

#[verifier::external_type_specification]
#[verifier::external_body]
pub struct ExSelector(scraper::Selector);

/// Relies on scraper's `Selector::parse`: compiles a CSS selector list; its
/// error becomes a `ParseError`.
#[verifier::external_body]
fn compile_selector(text: &str) -> (r: Result<scraper::Selector, ScrapingError>)
    ensures
        r matches Err(e) ==> e is ParseError,
{
    scraper::Selector::parse(text).map_err(|e| ScrapingError::ParseError(format!("Invalid selector {}: {}", text, e)))
}

/// Upper-case hexadecimal digits.
pub const HEX_DIGITS: &'static str = "0123456789ABCDEF";

/// Two upper-case hexadecimal digits for a byte.
pub open spec fn hex_pair(v: nat) -> Seq<char> {
    seq![HEX_DIGITS@[(v / 16) as int], HEX_DIGITS@[(v % 16) as int]]
}

/// The value of `s` read as an unsigned 8-bit decimal, if it is one.
pub open spec fn u8_of(s: Seq<char>) -> Option<nat> {
    match u64_of(s) {
        Some(v) => if v <= 255 { Some(v) } else { None },
        None => None,
    }
}

/// The three comma-separated fields of `s`, if it has exactly two commas.
pub open spec fn three_fields(s: Seq<char>) -> Option<(Seq<char>, Seq<char>, Seq<char>)> {
    match find(s, ","@) {
        None => None,
        Some(a) => {
            let r1 = s.subrange(a + 1, s.len() as int);
            match find(r1, ","@) {
                None => None,
                Some(b) => {
                    let r2 = r1.subrange(b + 1, r1.len() as int);
                    if find(r2, ","@) is Some {
                        None
                    } else {
                        Some((s.subrange(0, a), r1.subrange(0, b), r2))
                    }
                },
            }
        },
    }
}

/// The `#RRGGBB` colour for a text such as `154, 205, 50`: three
/// comma-separated bytes, each possibly surrounded by white space.
pub open spec fn rgb_hex(s: Seq<char>) -> Option<Seq<char>> {
    match three_fields(s) {
        None => None,
        Some((x, y, z)) => match (u8_of(trimmed(x)), u8_of(trimmed(y)), u8_of(trimmed(z))) {
            (Some(r), Some(g), Some(b)) => Some("#"@ + hex_pair(r) + hex_pair(g) + hex_pair(b)),
            _ => None,
        },
    }
}

/// The colour that an inline style gives text, if any. After the first
/// `color:`, an `rgb(...)` form that reads as a colour wins; otherwise a `#`
/// value, up to the next `;` or space, or else its first seven characters.
pub open spec fn style_color(style: Seq<char>) -> Option<Seq<char>> {
    match find(style, "color:"@) {
        None => None,
        Some(c) => {
            let part = style.subrange(c + 6, style.len() as int);
            let from_rgb = match find(part, "rgb("@) {
                Some(r) => match find(part.subrange(r, part.len() as int), ")"@) {
                    Some(e) => if e >= 4 { rgb_hex(part.subrange(r + 4, r + e)) } else { None },
                    None => None,
                },
                None => None,
            };
            if from_rgb is Some {
                from_rgb
            } else {
                match find(part, "#"@) {
                    None => None,
                    Some(h) => {
                        let hp = part.subrange(h, part.len() as int);
                        match find(hp, ";"@) {
                            Some(e) => Some(hp.subrange(0, e)),
                            None => match find(hp, " "@) {
                                Some(e) => Some(hp.subrange(0, e)),
                                None => if hp.len() >= 7 { Some(hp.subrange(0, 7)) } else { None },
                            },
                        }
                    },
                }
            }
        },
    }
}

/// Reads a byte written in decimal, with white space around it allowed.
fn parse_byte(field: &str) -> (r: Option<u8>)
    ensures
        match u8_of(trimmed(field@)) {
            Some(v) => r == Some(v as u8),
            None => r is None,
        },
{
    let t = trim_text(field);
    let n = t.unicode_len();
    assert(t@.subrange(0, n as int) == t@);
    match crate::config::parse_u64_prefix(t, n) {
        Some(v) => if v <= 255 { Some(v as u8) } else { None },
        None => None,
    }
}

/// Two upper-case hexadecimal digits for a byte.
fn hex_text(v: u8) -> (r: String)
    ensures
        r@ == hex_pair(v as nat),
{
    proof {
        reveal_strlit("0123456789ABCDEF");
    }
    let hi = (v / 16) as usize;
    let lo = (v % 16) as usize;
    let r = String::from_str(HEX_DIGITS.substring_char(hi, hi + 1)).concat(HEX_DIGITS.substring_char(lo, lo + 1));
    assert(r@ =~= hex_pair(v as nat));
    r
}

/// Reads the chat messages of a chat page. The selectors locate a message
/// line, its author, the author's display name, its body, badges and time.
pub struct TwitchChatParser {
    pub chat_line_selector: scraper::Selector,
    pub username_selector: scraper::Selector,
    pub display_name_selector: scraper::Selector,
    pub message_body_selector: scraper::Selector,
    pub badge_selector: scraper::Selector,
    pub timestamp_selector: scraper::Selector,
}

impl TwitchChatParser {
    /// A parser with its selectors compiled; a selector that does not compile
    /// gives a `ParseError`.
    pub fn new() -> (r: Result<TwitchChatParser, ScrapingError>)
        ensures
            r matches Err(e) ==> e is ParseError,
    {
        Ok(TwitchChatParser {
            chat_line_selector: compile_selector(".chat-line__no-background, .chat-line__message")?,
            username_selector: compile_selector("[data-a-target='chat-message-username']")?,
            display_name_selector: compile_selector(".chat-author__display-name")?,
            message_body_selector: compile_selector("[data-a-target='chat-line-message-body']")?,
            badge_selector: compile_selector(".chat-badge")?,
            timestamp_selector: compile_selector(".chat-line__timestamp")?,
        })
    }

    /// The `#RRGGBB` colour for three comma-separated bytes (see `rgb_hex`);
    /// anything else is a `ParseError`.
    pub fn rgb_to_hex(&self, rgb_str: &str) -> (r: Result<String, ScrapingError>)
        ensures
            match rgb_hex(rgb_str@) {
                Some(h) => r matches Ok(s) && s@ == h,
                None => r matches Err(ScrapingError::ParseError(_)),
            },
    {
        let err = ScrapingError::ParseError(String::from_str("Invalid RGB values: ").concat(rgb_str));
        let s = rgb_str;
        let n = s.unicode_len();
        proof {
            reveal_strlit(",");
        }
        let a = match find_text(s, ",") {
            None => return Err(err),
            Some(a) => a,
        };
        let r1 = s.substring_char(a + 1, n);
        let n1 = r1.unicode_len();
        let b = match find_text(r1, ",") {
            None => return Err(err),
            Some(b) => b,
        };
        let r2 = r1.substring_char(b + 1, n1);
        if find_text(r2, ",").is_some() {
            return Err(err);
        }
        let x = parse_byte(s.substring_char(0, a));
        let y = parse_byte(r1.substring_char(0, b));
        let z = parse_byte(r2);
        match (x, y, z) {
            (Some(red), Some(green), Some(blue)) => {
                let out = String::from_str("#").concat(hex_text(red).as_str()).concat(hex_text(green).as_str()).concat(
                    hex_text(blue).as_str(),
                );
                Ok(out)
            },
            _ => Err(err),
        }
    }

    /// The colour that an inline style gives text (see `style_color`).
    pub fn extract_color_from_style(&self, style: &str) -> (r: Option<String>)
        ensures
            match style_color(style@) {
                Some(c) => r matches Some(s) && s@ == c,
                None => r is None,
            },
    {
        proof {
            reveal_strlit("color:");
            reveal_strlit("rgb(");
            reveal_strlit(")");
            reveal_strlit("#");
            reveal_strlit(";");
            reveal_strlit(" ");
        }
        let n = style.unicode_len();
        let c = match find_text(style, "color:") {
            None => return None,
            Some(c) => c,
        };
        let part = style.substring_char(c + 6, n);
        let pn = part.unicode_len();
        if let Some(r) = find_text(part, "rgb(") {
            let tail = part.substring_char(r, pn);
            if let Some(e) = find_text(tail, ")") {
                if e >= 4 {
                    if let Ok(hex) = self.rgb_to_hex(part.substring_char(r + 4, r + e)) {
                        return Some(hex);
                    }
                }
            }
        }
        let h = match find_text(part, "#") {
            None => return None,
            Some(h) => h,
        };
        let hp = part.substring_char(h, pn);
        let hn = hp.unicode_len();
        if let Some(e) = find_text(hp, ";") {
            return Some(String::from_str(hp.substring_char(0, e)));
        }
        if let Some(e) = find_text(hp, " ") {
            return Some(String::from_str(hp.substring_char(0, e)));
        }
        if hn >= 7 {
            Some(String::from_str(hp.substring_char(0, 7)))
        } else {
            None
        }
    }
}

} // verus!
