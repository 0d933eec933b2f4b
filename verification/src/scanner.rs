//! The executable reader: the state machine of [`crate::model`], one byte
//! at a time.

use vstd::prelude::*;
use crate::data::{IniData, IniDataMap, IniSection};
use crate::model::{
    finish, initial, parse, scan, step, Mode, ScanState, ASSIGN, COMMENT_START, LINE_END,
    SECTION_CLOSE, SECTION_OPEN,
};

verus! {

/// A scan in progress: the mode, the three text buffers, the top level
/// built so far and the entries of the open section.
pub struct Scanner {
    mode: Mode,
    section_name: String,
    key: String,
    value: String,
    top: IniDataMap,
    section: IniSection,
}

impl View for Scanner {
    type V = ScanState;

    closed spec fn view(&self) -> ScanState {
        ScanState {
            mode: self.mode,
            section_name: self.section_name@,
            key: self.key@,
            value: self.value@,
            top: self.top@,
            section: self.section@,
        }
    }
}

impl Scanner {
    /// A scan that has read nothing yet.
    pub fn new() -> (scanner: Self)
        ensures
            scanner@ == initial(),
    {
        Scanner {
            mode: Mode::Key,
            section_name: String::new(),
            key: String::new(),
            value: String::new(),
            top: IniDataMap::new(),
            section: IniSection::new(),
        }
    }

    /// Reads one byte.
    pub fn step(&mut self, byte: u8)
        ensures
            final(self)@ == step(old(self)@, byte),
    {
        if byte == COMMENT_START {
            self.mode = Mode::Comment;
        } else if byte == SECTION_OPEN {
            self.close_section();
            self.mode = Mode::SectionName;
        } else if byte == SECTION_CLOSE {
            self.mode = Mode::Key;
        } else if byte == ASSIGN {
            self.mode = Mode::Value;
        } else if byte == LINE_END {
            self.end_line();
        } else {
            let c = byte as char;
            match self.mode {
                Mode::Comment => {},
                Mode::SectionName => self.section_name.push(c),
                Mode::Key => self.key.push(c),
                Mode::Value => self.value.push(c),
            }
        }
    }

    /// Ends the scan and hands out the document.
    pub fn finish(self) -> (doc: IniDataMap)
        ensures
            doc@ == finish(self@),
    {
        let Scanner { mode, section_name, key, value, top, section } = self;
        let mut doc = top;
        if !section_name.as_str().is_empty() {
            doc.insert(section_name, IniData::Section(section));
        } else if mode == Mode::Value {
            doc.insert(key, IniData::Value(value));
        }
        doc
    }

    /// How the next ordinary byte will be read.
    pub fn mode(&self) -> (mode: Mode)
        ensures
            mode == self@.mode,
    {
        self.mode
    }

    /// The name of the open section; empty while none is open.
    pub fn section_name(&self) -> (name: &str)
        ensures
            name@ == self@.section_name,
    {
        self.section_name.as_str()
    }

    /// The key read so far on the current line.
    pub fn key(&self) -> (key: &str)
        ensures
            key@ == self@.key,
    {
        self.key.as_str()
    }

    /// The value read so far on the current line.
    pub fn value(&self) -> (value: &str)
        ensures
            value@ == self@.value,
    {
        self.value.as_str()
    }

    /// Moves the open section, if there is one, to the top level.
    fn close_section(&mut self)
        ensures
            final(self)@ == crate::model::close_section(old(self)@),
    {
        if !self.section_name.as_str().is_empty() {
            let mut name = String::new();
            let mut section = IniSection::new();
            core::mem::swap(&mut self.section_name, &mut name);
            core::mem::swap(&mut self.section, &mut section);
            self.top.insert(name, IniData::Section(section));
        }
    }

    /// Ends a line: stores the buffered entry unless the line was empty,
    /// a key without `=` or a comment and nothing else, and empties the
    /// key and value buffers.
    fn end_line(&mut self)
        ensures
            final(self)@ == crate::model::end_line(old(self)@),
    {
        let stores = match self.mode {
            Mode::Key => false,
            Mode::Comment => !self.key.as_str().is_empty() || !self.value.as_str().is_empty(),
            Mode::SectionName => true,
            Mode::Value => true,
        };
        let mut key = String::new();
        let mut value = String::new();
        core::mem::swap(&mut self.key, &mut key);
        core::mem::swap(&mut self.value, &mut value);
        if stores {
            if !self.section_name.as_str().is_empty() {
                self.section.insert(key, value);
            } else {
                self.top.insert(key, IniData::Value(value));
            }
        }
        self.mode = Mode::Key;
    }
}

impl IniDataMap {
    /// Reads a whole input and returns the document it denotes. Every
    /// byte sequence denotes one; there is no input that is refused.
    pub fn from_bytes(bytes: Vec<u8>) -> (doc: IniDataMap)
        ensures
            doc@ == parse(bytes@),
    {
        let mut scanner = Scanner::new();
        let mut i: usize = 0;
        while i < bytes.len()
            invariant
                i <= bytes.len(),
                scanner@ == scan(initial(), bytes@.take(i as int)),
            decreases bytes.len() - i,
        {
            proof {
                let next = bytes@.take(i + 1);
                assert(next.drop_last() =~= bytes@.take(i as int));
                assert(next.last() == bytes@[i as int]);
            }
            scanner.step(bytes[i]);
            i += 1;
        }
        assert(bytes@.take(i as int) =~= bytes@);
        scanner.finish()
    }
}

} // verus!
