//! The settings record and its on-disk text format.
//!
//! A `Settings` value holds the user's colour-theme choice. On disk it is a
//! small JSON object with the single field `color_theme`, whose value is one
//! of the literal tags `"Light"`, `"Dark"` or `"System"`. Serialisation and
//! parsing are defined here over sequences of characters, so the exact file
//! format is part of the verified contracts.

use vstd::prelude::*;
use vstd::string::StrSliceExecFns;

verus! {

/// The closed set of appearance modes a user can choose.
#[derive(Clone, Copy, Debug, PartialEq, Eq, Structural)]
pub enum Theme {
    Light,
    Dark,
    System,
}

/// The persisted user preferences: exactly one theme is always selected.
#[derive(Clone, Copy, Debug, PartialEq, Eq, Structural)]
pub struct Settings {
    pub color_theme: Theme,
}

/// The error returned when a settings file's text does not match the schema.
#[derive(Clone, Copy, Debug, PartialEq, Eq, Structural)]
pub struct ParseError;

/// The settings value used when nothing has been persisted yet.
pub open spec fn default_settings() -> Settings {
    Settings { color_theme: Theme::System }
}

/// The characters the parser treats as insignificant whitespace between
/// tokens: space, tab, line feed and carriage return.
pub open spec fn is_json_ws(c: char) -> bool {
    c == ' ' || c == '\t' || c == '\n' || c == '\r'
}

/// The index of the first character at or after `i` that is not whitespace,
/// or the end of `s` if only whitespace remains.
pub open spec fn ws_end(s: Seq<char>, i: int) -> int
    decreases s.len() - i,
{
    if i < 0 || i >= s.len() {
        i
    } else if is_json_ws(s[i]) {
        ws_end(s, i + 1)
    } else {
        i
    }
}

/// Holds when `tok` occurs in `s` starting exactly at index `i`.
pub open spec fn token_at(s: Seq<char>, i: int, tok: Seq<char>) -> bool {
    0 <= i && i + tok.len() <= s.len() && s.subrange(i, i + tok.len()) == tok
}

/// The field name as it stands in the file, quotes included.
pub open spec fn key_token() -> Seq<char> {
    "\"color_theme\""@
}

/// A theme's tag as it stands in the file, quotes included.
pub open spec fn quoted_tag(t: Theme) -> Seq<char> {
    match t {
        Theme::Light => "\"Light\""@,
        Theme::Dark => "\"Dark\""@,
        Theme::System => "\"System\""@,
    }
}

/// The theme whose quoted tag occurs at index `i` of `s`, if any. The three
/// tags differ already in their second character, so at most one can match.
pub open spec fn tag_at(s: Seq<char>, i: int) -> Option<Theme> {
    if token_at(s, i, quoted_tag(Theme::Light)) {
        Some(Theme::Light)
    } else if token_at(s, i, quoted_tag(Theme::Dark)) {
        Some(Theme::Dark)
    } else if token_at(s, i, quoted_tag(Theme::System)) {
        Some(Theme::System)
    } else {
        None
    }
}

/// The meaning of a settings file's text: `Some(settings)` when the text is
/// an object with the single field `color_theme` carrying one of the three
/// theme tags, with arbitrary whitespace between tokens and nothing else
/// before or after; `None` for every other text.
pub open spec fn parse_spec(s: Seq<char>) -> Option<Settings> {
    let i0 = ws_end(s, 0);
    if !(i0 < s.len() && s[i0] == '{') {
        None
    } else {
        let i1 = ws_end(s, i0 + 1);
        if !token_at(s, i1, key_token()) {
            None
        } else {
            let i2 = ws_end(s, i1 + key_token().len());
            if !(i2 < s.len() && s[i2] == ':') {
                None
            } else {
                let i3 = ws_end(s, i2 + 1);
                match tag_at(s, i3) {
                    None => None,
                    Some(t) => {
                        let i4 = ws_end(s, i3 + quoted_tag(t).len());
                        if !(i4 < s.len() && s[i4] == '}') {
                            None
                        } else if ws_end(s, i4 + 1) == s.len() {
                            Some(Settings { color_theme: t })
                        } else {
                            None
                        }
                    },
                }
            }
        }
    }
}

/// The exact text a settings value is written as: a pretty-printed JSON
/// object, two-space indent, no trailing newline.
pub open spec fn json_of(s: Settings) -> Seq<char> {
    match s.color_theme {
        Theme::Light => "{\n  \"color_theme\": \"Light\"\n}"@,
        Theme::Dark => "{\n  \"color_theme\": \"Dark\"\n}"@,
        Theme::System => "{\n  \"color_theme\": \"System\"\n}"@,
    }
}

/// Decides whether `c` is insignificant whitespace.
fn is_ws_char(c: char) -> (r: bool)
    ensures
        r == is_json_ws(c),
{
    c == ' ' || c == '\t' || c == '\n' || c == '\r'
}

/// Advances `i` past any run of whitespace in `s`.
fn skip_ws(s: &str, i: usize, len: usize) -> (r: usize)
    requires
        len == s@.len(),
        i <= len,
    ensures
        r == ws_end(s@, i as int),
        i <= r <= len,
{
    let mut j: usize = i;
    while j < len && is_ws_char(s.get_char(j))
        invariant
            len == s@.len(),
            i <= j <= len,
            ws_end(s@, i as int) == ws_end(s@, j as int),
        decreases len - j,
    {
        j = j + 1;
    }
    j
}

/// Decides whether `pat` occurs in `s` starting exactly at index `i`.
fn match_at(s: &str, i: usize, len: usize, pat: &str) -> (r: bool)
    requires
        len == s@.len(),
        i <= len,
    ensures
        r == token_at(s@, i as int, pat@),
{
    let plen = pat.unicode_len();
    if len - i < plen {
        return false;
    }
    let mut j: usize = 0;
    while j < plen
        invariant
            len == s@.len(),
            plen == pat@.len(),
            i + plen <= len,
            j <= plen,
            forall|k: int| 0 <= k < j ==> s@[i + k] == pat@[k],
        decreases plen - j,
    {
        if s.get_char(i + j) != pat.get_char(j) {
            proof {
                assert(s@.subrange(i as int, i + pat@.len())[j as int] == s@[i + j]);
            }
            return false;
        }
        j = j + 1;
    }
    proof {
        assert(s@.subrange(i as int, i + pat@.len()) =~= pat@);
    }
    true
}

impl Settings {
    /// Returns the default settings: theme `System`.
    pub fn new() -> (s: Settings)
        ensures
            s == default_settings(),
            s.color_theme == Theme::System,
    {
        Settings { color_theme: Theme::System }
    }

    /// Writes these settings as settings-file text.
    pub fn to_json(&self) -> (r: String)
        ensures
            r@ == json_of(*self),
    {
        match self.color_theme {
            Theme::Light => "{\n  \"color_theme\": \"Light\"\n}".to_owned(),
            Theme::Dark => "{\n  \"color_theme\": \"Dark\"\n}".to_owned(),
            Theme::System => "{\n  \"color_theme\": \"System\"\n}".to_owned(),
        }
    }

    /// Parses settings-file text. Returns the settings the text denotes, or
    /// `ParseError` exactly when the text does not match the schema.
    pub fn from_json(text: &str) -> (r: Result<Settings, ParseError>)
        ensures
            r is Ok <==> parse_spec(text@) is Some,
            r matches Ok(s) ==> parse_spec(text@) == Some(s),
    {
        let len = text.unicode_len();
        let i0 = skip_ws(text, 0, len);
        if !(i0 < len && text.get_char(i0) == '{') {
            return Err(ParseError);
        }
        let i1 = skip_ws(text, i0 + 1, len);
        let key = "\"color_theme\"";
        if !match_at(text, i1, len, key) {
            return Err(ParseError);
        }
        let i2 = skip_ws(text, i1 + key.unicode_len(), len);
        if !(i2 < len && text.get_char(i2) == ':') {
            return Err(ParseError);
        }
        let i3 = skip_ws(text, i2 + 1, len);
        let theme: Theme;
        let after: usize;
        let light = "\"Light\"";
        let dark = "\"Dark\"";
        let system = "\"System\"";
        if match_at(text, i3, len, light) {
            theme = Theme::Light;
            after = i3 + light.unicode_len();
        } else if match_at(text, i3, len, dark) {
            theme = Theme::Dark;
            after = i3 + dark.unicode_len();
        } else if match_at(text, i3, len, system) {
            theme = Theme::System;
            after = i3 + system.unicode_len();
        } else {
            return Err(ParseError);
        }
        let i4 = skip_ws(text, after, len);
        if !(i4 < len && text.get_char(i4) == '}') {
            return Err(ParseError);
        }
        let i5 = skip_ws(text, i4 + 1, len);
        if i5 != len {
            return Err(ParseError);
        }
        Ok(Settings { color_theme: theme })
    }
}

/// Round trip: the text `to_json` writes for any settings value parses back
/// to that same value, so a load that follows a save yields an equal value.
pub proof fn lemma_json_round_trip(s: Settings)
    ensures
        parse_spec(json_of(s)) == Some(s),
{
    reveal_strlit("\"color_theme\"");
    reveal_strlit("\"Light\"");
    reveal_strlit("\"Dark\"");
    reveal_strlit("\"System\"");
    reveal_with_fuel(ws_end, 5);
    match s.color_theme {
        Theme::Light => {
            reveal_strlit("{\n  \"color_theme\": \"Light\"\n}");
            let t = json_of(s);
            assert(t.subrange(4, 17) =~= key_token());
            assert(t.subrange(19, 26) =~= quoted_tag(Theme::Light));
        },
        Theme::Dark => {
            reveal_strlit("{\n  \"color_theme\": \"Dark\"\n}");
            let t = json_of(s);
            assert(t.subrange(4, 17) =~= key_token());
            assert(t.subrange(19, 26)[1] == 'D' && quoted_tag(Theme::Light)[1] == 'L');
            assert(!token_at(t, 19, quoted_tag(Theme::Light)));
            assert(t.subrange(19, 25) =~= quoted_tag(Theme::Dark));
        },
        Theme::System => {
            reveal_strlit("{\n  \"color_theme\": \"System\"\n}");
            let t = json_of(s);
            assert(t.subrange(4, 17) =~= key_token());
            assert(t.subrange(19, 26)[1] == 'S' && quoted_tag(Theme::Light)[1] == 'L');
            assert(!token_at(t, 19, quoted_tag(Theme::Light)));
            assert(t.subrange(19, 25)[1] == 'S' && quoted_tag(Theme::Dark)[1] == 'D');
            assert(!token_at(t, 19, quoted_tag(Theme::Dark)));
            assert(t.subrange(19, 27) =~= quoted_tag(Theme::System));
        },
    }
}

} // verus!
