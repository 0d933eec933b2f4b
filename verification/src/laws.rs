//! What holds of the reader on every input, proved from the model.

use vstd::prelude::*;
use crate::model::{
    char_of, close_section, initial, is_delimiter, parse, scan, step, DocumentView,
    IniDataView, Mode, ScanState, ASSIGN, COMMENT_START, LINE_END, SECTION_CLOSE, SECTION_OPEN,
};

verus! {

/// Whether `bytes` holds ordinary bytes only: none that the state machine
/// gives a meaning of its own.
pub open spec fn plain(bytes: Seq<u8>) -> bool {
    forall|i: int| 0 <= i < bytes.len() ==> !is_delimiter(#[trigger] bytes[i])
}

/// The bytes read as characters, one character for each byte.
pub open spec fn chars_of(bytes: Seq<u8>) -> Seq<char> {
    Seq::new(bytes.len(), |i: int| char_of(bytes[i]))
}

/// The state `s` with `text` added to the buffer that its mode selects.
pub open spec fn append_text(s: ScanState, text: Seq<char>) -> ScanState {
    match s.mode {
        Mode::Comment => s,
        Mode::SectionName => ScanState { section_name: s.section_name + text, ..s },
        Mode::Key => ScanState { key: s.key + text, ..s },
        Mode::Value => ScanState { value: s.value + text, ..s },
    }
}

/// Whether `s` is a state in which a line begins: a key is expected and
/// nothing of an entry is buffered.
pub open spec fn at_line_start(s: ScanState) -> bool {
    s.mode is Key && s.key.len() == 0 && s.value.len() == 0
}

/// Whether `s` keeps no entries for a section that is not open.
pub open spec fn section_buffer_in_use(s: ScanState) -> bool {
    s.section_name.len() == 0 ==> s.section == Map::<Seq<char>, Seq<char>>::empty()
}

/// Whether every section of `doc` has a name that is not empty.
pub open spec fn sections_are_named(doc: DocumentView) -> bool {
    forall|k: Seq<char>| #[trigger] doc.contains_key(k) && doc[k] is Section ==> k.len() > 0
}

/// Whether `doc` holds scalar values only.
pub open spec fn is_flat(doc: DocumentView) -> bool {
    forall|k: Seq<char>| #[trigger] doc.contains_key(k) ==> doc[k] is Value
}

/// Whether `c` is the character of a byte that the state machine gives a
/// meaning of its own.
pub open spec fn is_delimiter_char(c: char) -> bool {
    c == char_of(COMMENT_START) || c == char_of(SECTION_OPEN) || c == char_of(SECTION_CLOSE)
        || c == char_of(ASSIGN) || c == char_of(LINE_END)
}

/// Whether `text` holds no delimiter character.
pub open spec fn is_plain_text(text: Seq<char>) -> bool {
    forall|i: int| 0 <= i < text.len() ==> !is_delimiter_char(#[trigger] text[i])
}

/// Whether every key and every value of `section` is free of delimiter
/// characters.
pub open spec fn section_holds_plain_text(section: Map<Seq<char>, Seq<char>>) -> bool {
    forall|k: Seq<char>| #[trigger]
        section.contains_key(k) ==> is_plain_text(k) && is_plain_text(section[k])
}

/// Whether every key, every value and every section of `doc` is free of
/// delimiter characters.
pub open spec fn holds_plain_text(doc: DocumentView) -> bool {
    forall|k: Seq<char>| #[trigger]
        doc.contains_key(k) ==> is_plain_text(k) && match doc[k] {
            IniDataView::Value(value) => is_plain_text(value),
            IniDataView::Section(section) => section_holds_plain_text(section),
        }
}

/// Whether the buffers of `s` and all it has stored are free of delimiter
/// characters.
pub open spec fn state_holds_plain_text(s: ScanState) -> bool {
    &&& is_plain_text(s.section_name)
    &&& is_plain_text(s.key)
    &&& is_plain_text(s.value)
    &&& holds_plain_text(s.top)
    &&& section_holds_plain_text(s.section)
}

/// The empty input denotes the empty document.
pub proof fn lemma_parse_empty()
    ensures
        parse(Seq::<u8>::empty()) == DocumentView::empty(),
{
}

/// Reading one byte is one step.
pub proof fn lemma_scan_one(s: ScanState, b: u8)
    ensures
        scan(s, seq![b]) == step(s, b),
{
    assert(seq![b].drop_last() =~= Seq::<u8>::empty());
    assert(scan(s, seq![b].drop_last()) == s);
}

/// The reader goes through its input once, front to back: reading `a`
/// followed by `b` is reading `a` and then, from the state this ends in,
/// reading `b`.
pub proof fn lemma_scan_concat(s: ScanState, a: Seq<u8>, b: Seq<u8>)
    ensures
        scan(s, a + b) == scan(scan(s, a), b),
    decreases b.len(),
{
    if b.len() == 0 {
        assert(a + b =~= a);
    } else {
        lemma_scan_concat(s, a, b.drop_last());
        assert((a + b).drop_last() =~= a + b.drop_last());
        assert((a + b).last() == b.last());
    }
}

/// Ordinary bytes change nothing but the buffer that the mode selects,
/// to which they are added in order, each as one character.
pub proof fn lemma_plain_text(s: ScanState, text: Seq<u8>)
    requires
        plain(text),
    ensures
        scan(s, text) == append_text(s, chars_of(text)),
    decreases text.len(),
{
    if text.len() == 0 {
        assert(s.section_name + chars_of(text) =~= s.section_name);
        assert(s.key + chars_of(text) =~= s.key);
        assert(s.value + chars_of(text) =~= s.value);
    } else {
        let front = text.drop_last();
        lemma_plain_text(s, front);
        assert(!is_delimiter(text[text.len() - 1]));
        let c = char_of(text.last());
        assert(chars_of(text) =~= chars_of(front).push(c));
        assert((s.section_name + chars_of(front)).push(c) =~= s.section_name + chars_of(text));
        assert((s.key + chars_of(front)).push(c) =~= s.key + chars_of(text));
        assert((s.value + chars_of(front)).push(c) =~= s.value + chars_of(text));
    }
}

/// The text of a comment does not matter: ordinary bytes that follow a
/// `;` can be taken out of the input without changing the document.
pub proof fn lemma_comment_text_is_discarded(before: Seq<u8>, text: Seq<u8>, after: Seq<u8>)
    requires
        plain(text),
    ensures
        parse(before.push(COMMENT_START) + text + after) == parse(before.push(COMMENT_START) + after),
{
    let head = before.push(COMMENT_START);
    let s = scan(initial(), head);
    assert(head.drop_last() =~= before);
    assert(s.mode is Comment);
    lemma_scan_concat(initial(), head, text);
    lemma_plain_text(s, text);
    lemma_scan_concat(initial(), head + text, after);
    lemma_scan_concat(initial(), head, after);
}

/// A line `key=value` read at the start of a line stores that one entry,
/// in the open section if there is one and at the top level if not, and
/// leaves the reader at the start of the next line. An entry stored before
/// under the same key in the same place is replaced.
pub proof fn lemma_key_value_line(s: ScanState, key: Seq<u8>, value: Seq<u8>)
    requires
        at_line_start(s),
        plain(key),
        plain(value),
    ensures
        scan(s, key.push(ASSIGN) + value.push(LINE_END)) == if s.section_name.len() > 0 {
            ScanState { section: s.section.insert(chars_of(key), chars_of(value)), ..s }
        } else {
            ScanState {
                top: s.top.insert(chars_of(key), IniDataView::Value(chars_of(value))),
                ..s
            }
        },
{
    let left = key.push(ASSIGN);
    let right = value.push(LINE_END);
    lemma_plain_text(s, key);
    assert(left.drop_last() =~= key);
    let s1 = scan(s, left);
    assert(s1 == ScanState { mode: Mode::Value, key: s.key + chars_of(key), ..s });
    lemma_plain_text(s1, value);
    assert(right.drop_last() =~= value);
    lemma_scan_concat(s, left, right);
    assert(s.key + chars_of(key) =~= chars_of(key));
    assert(s.value + chars_of(value) =~= chars_of(value));
    assert(s.key =~= Seq::<char>::empty());
    assert(s.value =~= Seq::<char>::empty());
}

/// An empty line read at the start of a line changes nothing.
pub proof fn lemma_blank_line(s: ScanState)
    requires
        at_line_start(s),
    ensures
        scan(s, seq![LINE_END]) == s,
{
    lemma_scan_one(s, LINE_END);
    assert(s.key =~= Seq::<char>::empty());
    assert(s.value =~= Seq::<char>::empty());
}

/// A line that holds a key and no `=` stores nothing, and nothing of it
/// is left for the next line.
pub proof fn lemma_bare_key_line(s: ScanState, key: Seq<u8>)
    requires
        at_line_start(s),
        plain(key),
    ensures
        scan(s, key.push(LINE_END)) == s,
{
    lemma_plain_text(s, key);
    assert(key.push(LINE_END).drop_last() =~= key);
    assert(s.key =~= Seq::<char>::empty());
    assert(s.value =~= Seq::<char>::empty());
}

/// A comment line read at the start of a line changes nothing.
pub proof fn lemma_comment_line(s: ScanState, text: Seq<u8>)
    requires
        at_line_start(s),
        plain(text),
    ensures
        scan(s, seq![COMMENT_START] + text.push(LINE_END)) == s,
{
    lemma_scan_one(s, COMMENT_START);
    let s1 = scan(s, seq![COMMENT_START]);
    lemma_plain_text(s1, text);
    assert(text.push(LINE_END).drop_last() =~= text);
    lemma_scan_concat(s, seq![COMMENT_START], text.push(LINE_END));
    assert(s.key =~= Seq::<char>::empty());
    assert(s.value =~= Seq::<char>::empty());
}

/// Comment lines are ignored: a comment line that begins where a line
/// starts can be taken out of the input without changing the document.
pub proof fn lemma_comment_lines_are_ignored(before: Seq<u8>, text: Seq<u8>, after: Seq<u8>)
    requires
        at_line_start(scan(initial(), before)),
        plain(text),
    ensures
        parse(before + (seq![COMMENT_START] + text.push(LINE_END)) + after) == parse(
            before + after,
        ),
{
    let line = seq![COMMENT_START] + text.push(LINE_END);
    lemma_comment_line(scan(initial(), before), text);
    lemma_scan_concat(initial(), before, line);
    lemma_scan_concat(initial(), before + line, after);
    lemma_scan_concat(initial(), before, after);
}

/// A comment that follows an entry on its line leaves the entry as it
/// is: the line `key=value;text` stores what `key=value` stores, as long
/// as key and value are not both empty.
pub proof fn lemma_comment_after_entry(s: ScanState, key: Seq<u8>, value: Seq<u8>, text: Seq<u8>)
    requires
        at_line_start(s),
        plain(key),
        plain(value),
        plain(text),
        key.len() + value.len() > 0,
    ensures
        scan(s, key.push(ASSIGN) + value.push(COMMENT_START) + text.push(LINE_END)) == scan(
            s,
            key.push(ASSIGN) + value.push(LINE_END),
        ),
{
    let left = key.push(ASSIGN);
    lemma_plain_text(s, key);
    assert(left.drop_last() =~= key);
    let s1 = scan(s, left);
    lemma_plain_text(s1, value);
    let s2 = scan(s1, value);
    assert(value.push(LINE_END).drop_last() =~= value);
    assert(value.push(COMMENT_START).drop_last() =~= value);
    let s3 = scan(s1, value.push(COMMENT_START));
    lemma_plain_text(s3, text);
    assert(text.push(LINE_END).drop_last() =~= text);
    lemma_scan_concat(s, left, value.push(LINE_END));
    lemma_scan_concat(s, left, value.push(COMMENT_START));
    lemma_scan_concat(s, left + value.push(COMMENT_START), text.push(LINE_END));
    assert(s2.key.len() == s.key.len() + chars_of(key).len());
    assert(s2.value.len() == s.value.len() + chars_of(value).len());
}

/// A header line `[name]` with a name that is not empty stores the
/// section that was open, if there was one, and opens a section of that
/// name without entries. What was buffered of an entry is dropped.
pub proof fn lemma_section_header(s: ScanState, name: Seq<u8>)
    requires
        section_buffer_in_use(s),
        plain(name),
        name.len() > 0,
    ensures
        scan(s, seq![SECTION_OPEN] + name + seq![SECTION_CLOSE, LINE_END]) == (ScanState {
            mode: Mode::Key,
            section_name: chars_of(name),
            key: Seq::empty(),
            value: Seq::empty(),
            top: close_section(s).top,
            section: Map::empty(),
        }),
{
    let tail = seq![SECTION_CLOSE, LINE_END];
    lemma_scan_one(s, SECTION_OPEN);
    let s1 = scan(s, seq![SECTION_OPEN]);
    lemma_scan_concat(s, seq![SECTION_OPEN], name);
    lemma_plain_text(s1, name);
    let s2 = scan(s, seq![SECTION_OPEN] + name);
    assert(s1.section_name =~= Seq::<char>::empty());
    assert(s1.section_name + chars_of(name) =~= chars_of(name));
    lemma_scan_concat(s, seq![SECTION_OPEN] + name, tail);
    assert(tail.drop_last() =~= seq![SECTION_CLOSE]);
    lemma_scan_one(s2, SECTION_CLOSE);
}

/// An input that ends inside a value at the top level, or while a key is
/// being read, denotes the same document with and without a newline at
/// its end.
pub proof fn lemma_final_newline_is_optional(bytes: Seq<u8>)
    requires
        ({
            let s = scan(initial(), bytes);
            s.mode is Key || (s.mode is Value && s.section_name.len() == 0)
        }),
    ensures
        parse(bytes.push(LINE_END)) == parse(bytes),
{
    assert(bytes.push(LINE_END).drop_last() =~= bytes);
}

/// Reading a byte keeps the section buffer empty while no section is open
/// and keeps every section at the top level under a name that is not
/// empty.
pub proof fn lemma_step_keeps_sections_in_order(s: ScanState, b: u8)
    requires
        section_buffer_in_use(s),
        sections_are_named(s.top),
    ensures
        section_buffer_in_use(step(s, b)),
        sections_are_named(step(s, b).top),
{
}

/// Both hold of every state that a scan from the start reaches.
pub proof fn lemma_scan_keeps_sections_in_order(bytes: Seq<u8>)
    ensures
        section_buffer_in_use(scan(initial(), bytes)),
        sections_are_named(scan(initial(), bytes).top),
    decreases bytes.len(),
{
    if bytes.len() > 0 {
        lemma_scan_keeps_sections_in_order(bytes.drop_last());
        lemma_step_keeps_sections_in_order(scan(initial(), bytes.drop_last()), bytes.last());
    }
}

/// No document has a section with an empty name.
pub proof fn lemma_sections_are_named(bytes: Seq<u8>)
    ensures
        sections_are_named(parse(bytes)),
{
    lemma_scan_keeps_sections_in_order(bytes);
}

/// Reading a byte brings no delimiter character into a buffer or into
/// what is stored.
pub proof fn lemma_step_keeps_text_plain(s: ScanState, b: u8)
    requires
        state_holds_plain_text(s),
    ensures
        state_holds_plain_text(step(s, b)),
{
    if !is_delimiter(b) {
        let c = char_of(b);
        assert(!is_delimiter_char(c));
        assert(is_plain_text(s.section_name.push(c)));
        assert(is_plain_text(s.key.push(c)));
        assert(is_plain_text(s.value.push(c)));
    }
    assert(is_plain_text(Seq::<char>::empty()));
}

/// No state that a scan from the start reaches holds a delimiter
/// character.
pub proof fn lemma_scan_keeps_text_plain(bytes: Seq<u8>)
    ensures
        state_holds_plain_text(scan(initial(), bytes)),
    decreases bytes.len(),
{
    if bytes.len() > 0 {
        lemma_scan_keeps_text_plain(bytes.drop_last());
        lemma_step_keeps_text_plain(scan(initial(), bytes.drop_last()), bytes.last());
    }
}

/// No key, value or section name of a document holds `;`, `[`, `]`, `=`
/// or a newline.
pub proof fn lemma_document_holds_plain_text(bytes: Seq<u8>)
    ensures
        holds_plain_text(parse(bytes)),
{
    lemma_scan_keeps_text_plain(bytes);
}

/// While a section is open, reading a byte other than `[` leaves the top
/// level as it is: what such a byte stores goes into the section.
pub proof fn lemma_open_section_shields_top(s: ScanState, b: u8)
    requires
        s.section_name.len() > 0,
        b != SECTION_OPEN,
    ensures
        step(s, b).top == s.top,
        step(s, b).section_name.len() > 0,
{
}

/// While no section is open, reading a byte stores nothing in the section
/// buffer.
pub proof fn lemma_without_section_entries_go_to_top(s: ScanState, b: u8)
    requires
        s.section_name.len() == 0,
    ensures
        step(s, b).section == s.section,
{
}

/// An input without `[` denotes a document without sections.
pub proof fn lemma_flat_input_gives_flat_document(bytes: Seq<u8>)
    requires
        forall|i: int| 0 <= i < bytes.len() ==> bytes[i] != SECTION_OPEN,
    ensures
        is_flat(parse(bytes)),
{
    lemma_flat_scan(bytes);
}

/// A scan of an input without `[` opens no section and stores none.
proof fn lemma_flat_scan(bytes: Seq<u8>)
    requires
        forall|i: int| 0 <= i < bytes.len() ==> bytes[i] != SECTION_OPEN,
    ensures
        scan(initial(), bytes).section_name.len() == 0,
        is_flat(scan(initial(), bytes).top),
    decreases bytes.len(),
{
    if bytes.len() > 0 {
        lemma_flat_scan(bytes.drop_last());
        assert(bytes.last() == bytes[bytes.len() - 1]);
    }
}

} // verus!
