//! The mathematical model of the reader: a state machine over bytes.
//!
//! A scan starts in [`initial`], takes one [`step`] per input byte, and
//! ends with [`finish`], which turns the last state into a document.
//! [`parse`] is the composition of the three.

use vstd::prelude::*;

verus! {

/// `;` starts a comment.
pub const COMMENT_START: u8 = 59;

/// `[` opens a section header.
pub const SECTION_OPEN: u8 = 91;

/// `]` closes a section header.
pub const SECTION_CLOSE: u8 = 93;

/// `=` separates a key from its value.
pub const ASSIGN: u8 = 61;

/// The newline byte ends a line.
pub const LINE_END: u8 = 10;

/// What the reader takes the bytes it is looking at for.
#[derive(Clone, Copy, Debug, PartialEq, Eq, Structural)]
pub enum Mode {
    /// Text that is thrown away.
    Comment,
    /// The name of a section, between `[` and `]`.
    SectionName,
    /// The key of an entry.
    Key,
    /// The value of an entry, after `=`.
    Value,
}

/// An entry of a document, as a mathematical value.
#[verifier::ext_equal]
pub enum IniDataView {
    /// A scalar: the text between `=` and the end of the line.
    Value(Seq<char>),
    /// A section: the keys and values that followed its header.
    Section(Map<Seq<char>, Seq<char>>),
}

/// A document, as a mathematical value: a map from keys to entries.
pub type DocumentView = Map<Seq<char>, IniDataView>;

/// Everything the reader remembers between two bytes.
#[verifier::ext_equal]
pub struct ScanState {
    /// How the next ordinary byte is read.
    pub mode: Mode,
    /// Name of the open section; empty while no section is open.
    pub section_name: Seq<char>,
    /// Key of the entry being read.
    pub key: Seq<char>,
    /// Value of the entry being read.
    pub value: Seq<char>,
    /// The document's top level, as far as it has been built.
    pub top: DocumentView,
    /// The entries collected for the open section.
    pub section: Map<Seq<char>, Seq<char>>,
}

/// A byte read as a character: the character with the byte's value as its
/// code point.
pub open spec fn char_of(b: u8) -> char {
    b as char
}

/// Whether the state machine gives `b` a meaning of its own, rather than
/// adding it to a buffer.
pub open spec fn is_delimiter(b: u8) -> bool {
    b == COMMENT_START || b == SECTION_OPEN || b == SECTION_CLOSE || b == ASSIGN || b == LINE_END
}

/// The state before the first byte: nothing buffered, nothing stored,
/// reading a key.
pub open spec fn initial() -> ScanState {
    ScanState {
        mode: Mode::Key,
        section_name: Seq::empty(),
        key: Seq::empty(),
        value: Seq::empty(),
        top: Map::empty(),
        section: Map::empty(),
    }
}

/// Stores the open section, if there is one, under its name at the top
/// level, and forgets its name and its entries. Without an open section
/// the state stays as it is.
pub open spec fn close_section(s: ScanState) -> ScanState {
    if s.section_name.len() > 0 {
        ScanState {
            section_name: Seq::empty(),
            top: s.top.insert(s.section_name, IniDataView::Section(s.section)),
            section: Map::empty(),
            ..s
        }
    } else {
        s
    }
}

/// Stores the buffered key with the buffered value: in the open section
/// if there is one, else at the top level. An entry already stored under
/// that key is replaced.
pub open spec fn store_entry(s: ScanState) -> ScanState {
    if s.section_name.len() > 0 {
        ScanState { section: s.section.insert(s.key, s.value), ..s }
    } else {
        ScanState { top: s.top.insert(s.key, IniDataView::Value(s.value)), ..s }
    }
}

/// Whether a line that ends in state `s` stores the buffered entry. A
/// line that ends while a key is being read stores nothing: it is empty
/// or holds a key without `=`. Neither does a line that ends inside a
/// comment with nothing buffered: it is a comment and nothing else. Any
/// other line stores its entry; so does a comment that follows an entry
/// on its line.
pub open spec fn stores_at_line_end(s: ScanState) -> bool {
    match s.mode {
        Mode::Key => false,
        Mode::Comment => s.key.len() > 0 || s.value.len() > 0,
        Mode::SectionName => true,
        Mode::Value => true,
    }
}

/// The end of a line: the buffered entry is stored where
/// [`stores_at_line_end`] says so. In every case the key and value buffers
/// are emptied and the next line starts with a key.
pub open spec fn end_line(s: ScanState) -> ScanState {
    let stored = if stores_at_line_end(s) {
        store_entry(s)
    } else {
        s
    };
    ScanState { mode: Mode::Key, key: Seq::empty(), value: Seq::empty(), ..stored }
}

/// Adds an ordinary character to the buffer that the mode selects; in a
/// comment it is dropped.
pub open spec fn accumulate(s: ScanState, c: char) -> ScanState {
    match s.mode {
        Mode::Comment => s,
        Mode::SectionName => ScanState { section_name: s.section_name.push(c), ..s },
        Mode::Key => ScanState { key: s.key.push(c), ..s },
        Mode::Value => ScanState { value: s.value.push(c), ..s },
    }
}

/// The state after reading the byte `b` in state `s`.
pub open spec fn step(s: ScanState, b: u8) -> ScanState {
    if b == COMMENT_START {
        ScanState { mode: Mode::Comment, ..s }
    } else if b == SECTION_OPEN {
        ScanState { mode: Mode::SectionName, ..close_section(s) }
    } else if b == SECTION_CLOSE {
        ScanState { mode: Mode::Key, ..s }
    } else if b == ASSIGN {
        ScanState { mode: Mode::Value, ..s }
    } else if b == LINE_END {
        end_line(s)
    } else {
        accumulate(s, char_of(b))
    }
}

/// The state after reading all of `bytes`, in order, starting in `s`.
pub open spec fn scan(s: ScanState, bytes: Seq<u8>) -> ScanState
    decreases bytes.len(),
{
    if bytes.len() == 0 {
        s
    } else {
        step(scan(s, bytes.drop_last()), bytes.last())
    }
}

/// The document that a scan ending in state `s` yields. An open section
/// is stored with the entries collected so far. Without one, an input
/// that ends inside a value stores that last entry at the top level.
/// Whatever else is still buffered is dropped.
pub open spec fn finish(s: ScanState) -> DocumentView {
    if s.section_name.len() > 0 {
        close_section(s).top
    } else if s.mode is Value {
        store_entry(s).top
    } else {
        s.top
    }
}

/// The document that `bytes` denotes.
pub open spec fn parse(bytes: Seq<u8>) -> DocumentView {
    finish(scan(initial(), bytes))
}

} // verus!
