//! The body modes a request can be given, the keys that pick them, and what
//! picking one does to the open endpoint.

use vstd::prelude::*;

use crate::projects::Endpoint;
use crate::text::str_is;
use crate::ui::{KeyCode, KeyEvent};

verus! {

/// How a request body is written.
#[derive(Debug, Clone, Copy, PartialEq, Eq, Structural)]
pub enum BodyMode {
    /// No body (shown as `None`).
    NoBody,
    Text,
    JavaScript,
    Json,
    Html,
    Xml,
    FormData,
    UrlEncoded,
    Binary,
    GraphQL,
}

/// A body mode name could not be read; never produced, as unknown names read
/// as no body.
#[derive(Debug, Clone, Copy, PartialEq, Eq, Structural)]
pub struct BodyModeParseError;

/// The name of a body mode.
pub open spec fn mode_name(m: BodyMode) -> Seq<char> {
    match m {
        BodyMode::NoBody => "None"@,
        BodyMode::Text => "Text"@,
        BodyMode::JavaScript => "JavaScript"@,
        BodyMode::Json => "Json"@,
        BodyMode::Html => "Html"@,
        BodyMode::Xml => "Xml"@,
        BodyMode::FormData => "FormData"@,
        BodyMode::UrlEncoded => "UrlEncoded"@,
        BodyMode::Binary => "Binary"@,
        BodyMode::GraphQL => "GraphQL"@,
    }
}

/// The body mode a name stands for; unknown names stand for no body.
pub open spec fn mode_named(s: Seq<char>) -> BodyMode {
    if s == "Text"@ {
        BodyMode::Text
    } else if s == "JavaScript"@ {
        BodyMode::JavaScript
    } else if s == "Json"@ {
        BodyMode::Json
    } else if s == "Html"@ {
        BodyMode::Html
    } else if s == "Xml"@ {
        BodyMode::Xml
    } else if s == "FormData"@ {
        BodyMode::FormData
    } else if s == "UrlEncoded"@ {
        BodyMode::UrlEncoded
    } else if s == "Binary"@ {
        BodyMode::Binary
    } else if s == "GraphQL"@ {
        BodyMode::GraphQL
    } else {
        BodyMode::NoBody
    }
}

impl Default for BodyMode {
    fn default() -> (r: BodyMode)
        ensures
            r == BodyMode::NoBody,
    {
        BodyMode::NoBody
    }
}

impl BodyMode {
    /// Reads a body mode from its name; unknown names read as no body.
    pub fn parse_name(s: &str) -> (r: Result<BodyMode, BodyModeParseError>)
        ensures
            r == Ok::<BodyMode, BodyModeParseError>(mode_named(s@)),
    {
        proof {
            lemma_mode_names();
        }
        if str_is(s, "None") {
            Ok(BodyMode::NoBody)
        } else if str_is(s, "Text") {
            Ok(BodyMode::Text)
        } else if str_is(s, "JavaScript") {
            Ok(BodyMode::JavaScript)
        } else if str_is(s, "Json") {
            Ok(BodyMode::Json)
        } else if str_is(s, "Html") {
            Ok(BodyMode::Html)
        } else if str_is(s, "Xml") {
            Ok(BodyMode::Xml)
        } else if str_is(s, "FormData") {
            Ok(BodyMode::FormData)
        } else if str_is(s, "UrlEncoded") {
            Ok(BodyMode::UrlEncoded)
        } else if str_is(s, "Binary") {
            Ok(BodyMode::Binary)
        } else if str_is(s, "GraphQL") {
            Ok(BodyMode::GraphQL)
        } else {
            Ok(BodyMode::NoBody)
        }
    }

    /// The name of the mode.
    pub fn as_str(&self) -> (r: &'static str)
        ensures
            r@ == mode_name(*self),
    {
        match self {
            BodyMode::NoBody => "None",
            BodyMode::Text => "Text",
            BodyMode::JavaScript => "JavaScript",
            BodyMode::Json => "Json",
            BodyMode::Html => "Html",
            BodyMode::Xml => "Xml",
            BodyMode::FormData => "FormData",
            BodyMode::UrlEncoded => "UrlEncoded",
            BodyMode::Binary => "Binary",
            BodyMode::GraphQL => "GraphQL",
        }
    }

    /// The name of the mode, as an owned string.
    pub fn to_string(&self) -> (r: String)
        ensures
            r@ == mode_name(*self),
    {
        self.as_str().to_owned()
    }
}

impl core::str::FromStr for BodyMode {
    type Err = BodyModeParseError;

    fn from_str(s: &str) -> (r: Result<BodyMode, BodyModeParseError>)
        ensures
            r == Ok::<BodyMode, BodyModeParseError>(mode_named(s@)),
    {
        BodyMode::parse_name(s)
    }
}

/// The selector window for the body mode; it has no state of its own.
#[derive(Debug, Clone, Copy, PartialEq, Eq, Structural)]
pub struct BodyModeSelector;

/// What a key does in the body mode selector.
#[derive(Debug, Clone, Copy, PartialEq, Eq, Structural)]
pub enum BodyModeKeyOutcome {
    /// A mode was picked; the window closes.
    Select(BodyMode),
    /// The window closes without a pick.
    Cancel,
    /// The key does nothing.
    Ignore,
}

/// The mode each letter picks.
pub open spec fn mode_for_key(c: char) -> Option<BodyMode> {
    if c == 't' {
        Some(BodyMode::Text)
    } else if c == 'j' {
        Some(BodyMode::JavaScript)
    } else if c == 's' {
        Some(BodyMode::Json)
    } else if c == 'h' {
        Some(BodyMode::Html)
    } else if c == 'x' {
        Some(BodyMode::Xml)
    } else if c == 'f' {
        Some(BodyMode::FormData)
    } else if c == 'u' {
        Some(BodyMode::UrlEncoded)
    } else if c == 'b' {
        Some(BodyMode::Binary)
    } else if c == 'g' {
        Some(BodyMode::GraphQL)
    } else if c == 'n' {
        Some(BodyMode::NoBody)
    } else {
        None
    }
}

impl BodyModeSelector {
    /// What a key press does in the selector.
    pub fn on_key(&self, key: KeyEvent) -> (r: BodyModeKeyOutcome)
        ensures
            r == match key.code {
                KeyCode::Char(c) => match mode_for_key(c) {
                    Some(m) => BodyModeKeyOutcome::Select(m),
                    None => BodyModeKeyOutcome::Ignore,
                },
                KeyCode::Esc => BodyModeKeyOutcome::Cancel,
                _ => BodyModeKeyOutcome::Ignore,
            },
    {
        match key.code {
            KeyCode::Char(c) => {
                if c == 't' {
                    BodyModeKeyOutcome::Select(BodyMode::Text)
                } else if c == 'j' {
                    BodyModeKeyOutcome::Select(BodyMode::JavaScript)
                } else if c == 's' {
                    BodyModeKeyOutcome::Select(BodyMode::Json)
                } else if c == 'h' {
                    BodyModeKeyOutcome::Select(BodyMode::Html)
                } else if c == 'x' {
                    BodyModeKeyOutcome::Select(BodyMode::Xml)
                } else if c == 'f' {
                    BodyModeKeyOutcome::Select(BodyMode::FormData)
                } else if c == 'u' {
                    BodyModeKeyOutcome::Select(BodyMode::UrlEncoded)
                } else if c == 'b' {
                    BodyModeKeyOutcome::Select(BodyMode::Binary)
                } else if c == 'g' {
                    BodyModeKeyOutcome::Select(BodyMode::GraphQL)
                } else if c == 'n' {
                    BodyModeKeyOutcome::Select(BodyMode::NoBody)
                } else {
                    BodyModeKeyOutcome::Ignore
                }
            },
            KeyCode::Esc => BodyModeKeyOutcome::Cancel,
            _ => BodyModeKeyOutcome::Ignore,
        }
    }
}

/// The selections that are kinds of raw text.
pub open spec fn is_raw_kind(s: Seq<char>) -> bool {
    s == "Text"@ || s == "JavaScript"@ || s == "Json"@ || s == "Html"@ || s == "Xml"@
}

/// Applies a body mode selection to the endpoint: a raw kind makes the body
/// raw text of that kind; anything else becomes the body mode itself, with no
/// raw kind.
pub fn select_body_mode(endpoint: &mut Endpoint, selection: &str)
    ensures
        is_raw_kind(selection@) ==> final(endpoint)@ == (crate::projects::EndpointView {
            body_mode: "raw"@,
            raw_type: selection@,
            ..old(endpoint)@
        }),
        !is_raw_kind(selection@) ==> final(endpoint)@ == (crate::projects::EndpointView {
            body_mode: selection@,
            raw_type: ""@,
            ..old(endpoint)@
        }),
{
    if str_is(selection, "Text") || str_is(selection, "JavaScript") || str_is(selection, "Json")
        || str_is(selection, "Html") || str_is(selection, "Xml") {
        endpoint.body_mode = "raw".to_owned();
        endpoint.raw_type = selection.to_owned();
    } else {
        endpoint.raw_type = "".to_owned();
        endpoint.body_mode = selection.to_owned();
    }
}

/// The names of the body modes differ from one another.
proof fn lemma_mode_names()
    ensures
        "None"@.len() == 4 && "None"@[0] == 'N',
        "Text"@.len() == 4 && "Text"@[0] == 'T',
        "JavaScript"@.len() == 10 && "JavaScript"@[0] == 'J',
        "Json"@.len() == 4 && "Json"@[0] == 'J',
        "Html"@.len() == 4 && "Html"@[0] == 'H',
        "Xml"@.len() == 3 && "Xml"@[0] == 'X',
        "FormData"@.len() == 8 && "FormData"@[0] == 'F',
        "UrlEncoded"@.len() == 10 && "UrlEncoded"@[0] == 'U',
        "Binary"@.len() == 6 && "Binary"@[0] == 'B',
        "GraphQL"@.len() == 7 && "GraphQL"@[0] == 'G',
{
    reveal_strlit("None");
    reveal_strlit("Text");
    reveal_strlit("JavaScript");
    reveal_strlit("Json");
    reveal_strlit("Html");
    reveal_strlit("Xml");
    reveal_strlit("FormData");
    reveal_strlit("UrlEncoded");
    reveal_strlit("Binary");
    reveal_strlit("GraphQL");
}

/// Reading back the name of a body mode gives the same mode.
pub proof fn law_mode_name_round_trip(m: BodyMode)
    ensures
        mode_named(mode_name(m)) == m,
{
    lemma_mode_names();
}

/// Every key that picks a mode picks one whose name reads back as that mode,
/// so a pick always lands on the mode the key stands for.
pub proof fn law_key_pick_is_named(c: char)
    requires
        mode_for_key(c) is Some,
    ensures
        mode_named(mode_name(mode_for_key(c)->Some_0)) == mode_for_key(c)->Some_0,
{
    law_mode_name_round_trip(mode_for_key(c)->Some_0);
}


/// `a` is the letter `c`, in lowercase or in uppercase.
pub open spec fn same_letter(a: char, c: char) -> bool {
    a == c || (a as u32) + 32 == (c as u32)
}

/// Each letter of the body mode selector picks a mode whose name holds that
/// letter, and no two letters pick the same mode.
pub proof fn law_mode_keys_are_named(c: char, c2: char)
    ensures
        mode_for_key(c) is Some ==> exists|i: int|
            0 <= i < mode_name(mode_for_key(c)->Some_0).len() && same_letter(
                #[trigger] mode_name(mode_for_key(c)->Some_0)[i],
                c,
            ),
        mode_for_key(c) is Some && mode_for_key(c) == mode_for_key(c2) ==> c == c2,
{
    lemma_mode_names();
    reveal_strlit("Json");
    if mode_for_key(c) is Some {
        let name = mode_name(mode_for_key(c)->Some_0);
        let i: int = if c == 's' { 1 } else { 0 };
        assert(same_letter(name[i], c));
    }
}

/// The letters that pick a body mode are exactly `t`, `j`, `s`, `h`, `x`,
/// `f`, `u`, `b`, `g` and `n`, each picking the mode the selector lists for it.
pub proof fn law_mode_key_table(c: char)
    ensures
        mode_for_key(c) is Some <==> (c == 't' || c == 'j' || c == 's' || c == 'h' || c == 'x' || c == 'f'
            || c == 'u' || c == 'b' || c == 'g' || c == 'n'),
        mode_for_key('t') == Some(BodyMode::Text),
        mode_for_key('j') == Some(BodyMode::JavaScript),
        mode_for_key('s') == Some(BodyMode::Json),
        mode_for_key('h') == Some(BodyMode::Html),
        mode_for_key('x') == Some(BodyMode::Xml),
        mode_for_key('f') == Some(BodyMode::FormData),
        mode_for_key('u') == Some(BodyMode::UrlEncoded),
        mode_for_key('b') == Some(BodyMode::Binary),
        mode_for_key('g') == Some(BodyMode::GraphQL),
        mode_for_key('n') == Some(BodyMode::NoBody),
{
}

/// Picking a mode in the selector makes the body raw text exactly for the
/// text kinds (Text, JavaScript, Json, Html, Xml); every other mode becomes
/// the body mode itself.
pub proof fn law_raw_kinds(m: BodyMode)
    ensures
        is_raw_kind(mode_name(m)) <==> (m == BodyMode::Text || m == BodyMode::JavaScript || m == BodyMode::Json
            || m == BodyMode::Html || m == BodyMode::Xml),
{
    lemma_mode_names();
}

} // verus!
