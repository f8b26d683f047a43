//! How deep the elements of a document nest.
//!
//! The channel reader of the `rss` crate calls itself once for every
//! element that is opened inside an element of an extension, so the depth
//! to which a document nests bounds the stack that reading it takes. This
//! module scans a document the way the reader's tokenizer (`quick-xml`)
//! does and decides whether at any point more than a given number of
//! elements are open. The reader stops at the first error, so what the
//! tokenizer would make of the rest of a broken document does not matter.
//!
//! The scan goes by these rules of the tokenizer. Markup begins at `<`, and
//! the character behind it decides its kind. A start tag and an end tag end
//! at the first `>` outside an attribute value in single or double quotes;
//! a start tag that ends in `/>` is opened and closed at once. A processing
//! instruction ends at the first `>` behind a `?`, a comment at the first
//! `>` behind `--`, a character data section at the first `>` behind `]]`.
//! Text and references never hold a `<`.
//!
//! Where the tokenizer's reading could be in doubt, the scan refuses the
//! document: a document type declaration or another `<!` that opens neither
//! a comment nor a character data section, the instruction `<?>`, and a
//! comment whose end falls within its first seven characters.

use vstd::prelude::*;
use crate::text::chars_of;

verus! {

/// Whether the scan is inside an attribute value, and in which quotes.
#[derive(Debug, Clone, Copy, PartialEq, Eq, Structural)]
pub enum Quote {
    Outside,
    Single,
    Double,
}

/// What the scan is inside of. Markup remembers where its `<` stood.
#[derive(Debug, Clone, Copy, PartialEq, Eq, Structural)]
pub enum Mode {
    Text,
    StartTag { quote: Quote, start: usize },
    EndTag { quote: Quote },
    Instruction,
    Comment { start: usize },
    CharacterData { start: usize },
}

/// The state of the scan: what it is inside of, and how many elements are
/// open.
#[derive(Debug, Clone, Copy, PartialEq, Eq, Structural)]
pub struct Scan {
    pub mode: Mode,
    pub open: usize,
}

/// The quote state behind a character of a tag that is no `>` outside
/// quotes.
pub open spec fn quote_after(quote: Quote, c: char) -> Quote {
    match quote {
        Quote::Outside => if c == '\'' {
            Quote::Single
        } else if c == '"' {
            Quote::Double
        } else {
            Quote::Outside
        },
        Quote::Single => if c == '\'' {
            Quote::Outside
        } else {
            Quote::Single
        },
        Quote::Double => if c == '"' {
            Quote::Outside
        } else {
            Quote::Double
        },
    }
}

/// The state at the `<` at position `at`, read in text: the kind of markup
/// that begins there, or nothing where the scan refuses the document.
pub open spec fn enter(s: Seq<char>, at: int, open: usize) -> Option<Scan> {
    if at + 1 >= s.len() {
        Some(Scan { mode: Mode::Text, open })
    } else if s[at + 1] == '/' {
        Some(Scan { mode: Mode::EndTag { quote: Quote::Outside }, open })
    } else if s[at + 1] == '?' {
        if at + 2 < s.len() && s[at + 2] == '>' {
            None
        } else {
            Some(Scan { mode: Mode::Instruction, open })
        }
    } else if s[at + 1] == '!' {
        if at + 2 >= s.len() {
            Some(Scan { mode: Mode::Text, open })
        } else if s[at + 2] == '-' {
            Some(Scan { mode: Mode::Comment { start: at as usize }, open })
        } else if s[at + 2] == '[' {
            Some(Scan { mode: Mode::CharacterData { start: at as usize }, open })
        } else {
            None
        }
    } else {
        Some(Scan { mode: Mode::StartTag { quote: Quote::Outside, start: at as usize }, open })
    }
}

/// The state behind the character at position `at`, or nothing where the
/// scan refuses the document there: for markup it does not read, or for an
/// element that would be open beyond `limit`.
pub open spec fn step(s: Seq<char>, at: int, scan: Scan, limit: usize) -> Option<Scan> {
    let c = s[at];
    let open = scan.open;
    match scan.mode {
        Mode::Text => if c == '<' {
            enter(s, at, open)
        } else {
            Some(scan)
        },
        Mode::StartTag { quote, start } => if quote == Quote::Outside && c == '>' {
            if open >= limit {
                None
            } else if at >= start + 2 && s[at - 1] == '/' {
                Some(Scan { mode: Mode::Text, open })
            } else {
                Some(Scan { mode: Mode::Text, open: (open + 1) as usize })
            }
        } else {
            Some(Scan { mode: Mode::StartTag { quote: quote_after(quote, c), start }, open })
        },
        Mode::EndTag { quote } => if quote == Quote::Outside && c == '>' {
            Some(
                Scan {
                    mode: Mode::Text,
                    open: if open > 0 {
                        (open - 1) as usize
                    } else {
                        0
                    },
                },
            )
        } else {
            Some(Scan { mode: Mode::EndTag { quote: quote_after(quote, c) }, open })
        },
        Mode::Instruction => if c == '>' && at >= 1 && s[at - 1] == '?' {
            Some(Scan { mode: Mode::Text, open })
        } else {
            Some(scan)
        },
        Mode::Comment { start } => if c == '>' && at >= start + 4 && s[at - 1] == '-' && s[at - 2]
            == '-' {
            if at < start + 7 {
                None
            } else {
                Some(Scan { mode: Mode::Text, open })
            }
        } else {
            Some(scan)
        },
        Mode::CharacterData { start } => if c == '>' && at >= start + 5 && s[at - 1] == ']' && s[at
            - 2] == ']' {
            Some(Scan { mode: Mode::Text, open })
        } else {
            Some(scan)
        },
    }
}

/// Whether the scan gets from position `at` in state `scan` to the end of
/// the document without refusing it.
pub open spec fn scans_from(s: Seq<char>, at: int, scan: Scan, limit: usize) -> bool
    decreases s.len() - at,
{
    if at < 0 || at >= s.len() {
        true
    } else {
        match step(s, at, scan, limit) {
            Some(next) => scans_from(s, at + 1, next, limit),
            None => false,
        }
    }
}

/// Whether a document is markup that the scan reads and in which never
/// more than `limit` elements are open at once.
pub open spec fn nests_within(s: Seq<char>, limit: usize) -> bool {
    scans_from(s, 0, Scan { mode: Mode::Text, open: 0 }, limit)
}

fn next_quote(quote: Quote, c: char) -> (r: Quote)
    ensures
        r == quote_after(quote, c),
{
    match quote {
        Quote::Outside => if c == '\'' {
            Quote::Single
        } else if c == '"' {
            Quote::Double
        } else {
            Quote::Outside
        },
        Quote::Single => if c == '\'' {
            Quote::Outside
        } else {
            Quote::Single
        },
        Quote::Double => if c == '"' {
            Quote::Outside
        } else {
            Quote::Double
        },
    }
}

fn enter_markup(s: &Vec<char>, at: usize, open: usize) -> (r: Option<Scan>)
    requires
        at < s.len(),
    ensures
        r == enter(s@, at as int, open),
{
    if at + 1 >= s.len() {
        return Some(Scan { mode: Mode::Text, open });
    }
    let c = s[at + 1];
    if c == '/' {
        Some(Scan { mode: Mode::EndTag { quote: Quote::Outside }, open })
    } else if c == '?' {
        if at + 2 < s.len() && s[at + 2] == '>' {
            None
        } else {
            Some(Scan { mode: Mode::Instruction, open })
        }
    } else if c == '!' {
        if at + 2 >= s.len() {
            Some(Scan { mode: Mode::Text, open })
        } else if s[at + 2] == '-' {
            Some(Scan { mode: Mode::Comment { start: at }, open })
        } else if s[at + 2] == '[' {
            Some(Scan { mode: Mode::CharacterData { start: at }, open })
        } else {
            None
        }
    } else {
        Some(Scan { mode: Mode::StartTag { quote: Quote::Outside, start: at }, open })
    }
}

/// Takes the scan over the character at position `at`.
pub fn advance(s: &Vec<char>, at: usize, scan: Scan, limit: usize) -> (r: Option<Scan>)
    requires
        at < s.len(),
        match scan.mode {
            Mode::StartTag { start, .. } => start < at,
            Mode::Comment { start } => start < at,
            Mode::CharacterData { start } => start < at,
            _ => true,
        },
    ensures
        r == step(s@, at as int, scan, limit),
        r matches Some(next) ==> match next.mode {
            Mode::StartTag { start, .. } => start <= at,
            Mode::Comment { start } => start <= at,
            Mode::CharacterData { start } => start <= at,
            _ => true,
        },
{
    let c = s[at];
    let open = scan.open;
    match scan.mode {
        Mode::Text => if c == '<' {
            enter_markup(s, at, open)
        } else {
            Some(scan)
        },
        Mode::StartTag { quote, start } => if quote == Quote::Outside && c == '>' {
            if open >= limit {
                None
            } else if at - start >= 2 && s[at - 1] == '/' {
                Some(Scan { mode: Mode::Text, open })
            } else {
                Some(Scan { mode: Mode::Text, open: open + 1 })
            }
        } else {
            Some(Scan { mode: Mode::StartTag { quote: next_quote(quote, c), start }, open })
        },
        Mode::EndTag { quote } => if quote == Quote::Outside && c == '>' {
            Some(
                Scan {
                    mode: Mode::Text,
                    open: if open > 0 {
                        open - 1
                    } else {
                        0
                    },
                },
            )
        } else {
            Some(Scan { mode: Mode::EndTag { quote: next_quote(quote, c) }, open })
        },
        Mode::Instruction => if c == '>' && at >= 1 && s[at - 1] == '?' {
            Some(Scan { mode: Mode::Text, open })
        } else {
            Some(scan)
        },
        Mode::Comment { start } => if c == '>' && at - start >= 4 && s[at - 1] == '-' && s[at - 2]
            == '-' {
            if at - start < 7 {
                None
            } else {
                Some(Scan { mode: Mode::Text, open })
            }
        } else {
            Some(scan)
        },
        Mode::CharacterData { start } => if c == '>' && at - start >= 5 && s[at - 1] == ']' && s[at
            - 2] == ']' {
            Some(Scan { mode: Mode::Text, open })
        } else {
            Some(scan)
        },
    }
}

/// Scans a document given by its characters.
pub fn chars_nest_within(s: &Vec<char>, limit: usize) -> (r: bool)
    ensures
        r == nests_within(s@, limit),
{
    let mut scan = Scan { mode: Mode::Text, open: 0 };
    let mut at: usize = 0;
    while at < s.len()
        invariant
            at <= s.len(),
            nests_within(s@, limit) == scans_from(s@, at as int, scan, limit),
            match scan.mode {
                Mode::StartTag { start, .. } => start < at,
                Mode::Comment { start } => start < at,
                Mode::CharacterData { start } => start < at,
                _ => true,
            },
        decreases s.len() - at,
    {
        match advance(s, at, scan, limit) {
            Some(next) => {
                scan = next;
            },
            None => {
                return false;
            },
        }
        at += 1;
    }
    true
}

/// Scans a document.
pub fn nests_within_limit(content: &str, limit: usize) -> (r: bool)
    ensures
        r == nests_within(content@, limit),
{
    chars_nest_within(&chars_of(content), limit)
}

} // verus!
