use ini_parser::{IniData, IniDataMap, Mode, Scanner};

fn feed(scanner: &mut Scanner, text: &str) {
    for byte in text.bytes() {
        scanner.step(byte);
    }
}

fn scalar(doc: &IniDataMap, key: &str) -> Option<String> {
    match doc.get(key) {
        Some(IniData::Value(value)) => Some(value.clone()),
        _ => None,
    }
}

#[test]
fn new_scanner_reads_a_key_with_empty_buffers() {
    let scanner = Scanner::new();
    assert_eq!(scanner.mode(), Mode::Key);
    assert_eq!(scanner.section_name(), "");
    assert_eq!(scanner.key(), "");
    assert_eq!(scanner.value(), "");
    assert!(scanner.finish().is_empty());
}

#[test]
fn semicolon_switches_to_comment_and_keeps_the_buffers() {
    let mut scanner = Scanner::new();
    feed(&mut scanner, "k=v");
    scanner.step(b';');
    assert_eq!(scanner.mode(), Mode::Comment);
    assert_eq!(scanner.key(), "k");
    assert_eq!(scanner.value(), "v");
    feed(&mut scanner, "dropped");
    assert_eq!(scanner.mode(), Mode::Comment);
    assert_eq!(scanner.key(), "k");
    assert_eq!(scanner.value(), "v");
    assert_eq!(scanner.section_name(), "");
}

#[test]
fn open_bracket_switches_to_section_name() {
    let mut scanner = Scanner::new();
    scanner.step(b'[');
    assert_eq!(scanner.mode(), Mode::SectionName);
    feed(&mut scanner, "name");
    assert_eq!(scanner.section_name(), "name");
    assert_eq!(scanner.key(), "");
    assert_eq!(scanner.value(), "");
}

#[test]
fn open_bracket_stores_the_open_section() {
    let mut scanner = Scanner::new();
    feed(&mut scanner, "[one]\nk=v\n");
    assert_eq!(scanner.section_name(), "one");
    scanner.step(b'[');
    assert_eq!(scanner.mode(), Mode::SectionName);
    assert_eq!(scanner.section_name(), "");
    let doc = scanner.finish();
    assert_eq!(doc.len(), 1);
    match doc.get("one") {
        Some(IniData::Section(section)) => {
            assert_eq!(section.len(), 1);
            assert_eq!(section.get("k"), Some(&"v".to_string()));
        },
        _ => panic!("section `one` is missing"),
    }
}

#[test]
fn close_bracket_switches_to_key_and_keeps_the_name() {
    let mut scanner = Scanner::new();
    feed(&mut scanner, "[name");
    scanner.step(b']');
    assert_eq!(scanner.mode(), Mode::Key);
    assert_eq!(scanner.section_name(), "name");
    let mut scanner = Scanner::new();
    feed(&mut scanner, "k=v");
    scanner.step(b']');
    assert_eq!(scanner.mode(), Mode::Key);
    assert_eq!(scanner.key(), "k");
    assert_eq!(scanner.value(), "v");
}

#[test]
fn assign_switches_to_value_from_every_mode() {
    for prefix in ["", ";", "[", "k=", "]"] {
        let mut scanner = Scanner::new();
        feed(&mut scanner, prefix);
        scanner.step(b'=');
        assert_eq!(scanner.mode(), Mode::Value);
        scanner.step(b'x');
        assert_eq!(scanner.value(), "x");
    }
}

#[test]
fn newline_in_key_mode_stores_nothing_and_clears_the_buffers() {
    let mut scanner = Scanner::new();
    feed(&mut scanner, "k=v]more");
    assert_eq!(scanner.mode(), Mode::Key);
    assert_eq!(scanner.key(), "kmore");
    scanner.step(b'\n');
    assert_eq!(scanner.mode(), Mode::Key);
    assert_eq!(scanner.key(), "");
    assert_eq!(scanner.value(), "");
    assert!(scanner.finish().is_empty());
}

#[test]
fn newline_in_value_mode_stores_the_entry_and_clears_the_buffers() {
    let mut scanner = Scanner::new();
    feed(&mut scanner, "k=v");
    scanner.step(b'\n');
    assert_eq!(scanner.mode(), Mode::Key);
    assert_eq!(scanner.key(), "");
    assert_eq!(scanner.value(), "");
    let doc = scanner.finish();
    assert_eq!(doc.len(), 1);
    assert_eq!(scalar(&doc, "k"), Some("v".to_string()));
}

#[test]
fn newline_in_comment_mode_with_empty_buffers_stores_nothing() {
    let mut scanner = Scanner::new();
    feed(&mut scanner, ";comment");
    assert_eq!(scanner.mode(), Mode::Comment);
    scanner.step(b'\n');
    assert_eq!(scanner.mode(), Mode::Key);
    assert_eq!(scanner.key(), "");
    assert_eq!(scanner.value(), "");
    assert!(scanner.finish().is_empty());
}

#[test]
fn newline_in_comment_mode_stores_a_buffered_entry() {
    let mut scanner = Scanner::new();
    feed(&mut scanner, "k=v;comment");
    assert_eq!(scanner.mode(), Mode::Comment);
    scanner.step(b'\n');
    assert_eq!(scanner.mode(), Mode::Key);
    assert_eq!(scanner.key(), "");
    assert_eq!(scanner.value(), "");
    let doc = scanner.finish();
    assert_eq!(doc.len(), 1);
    assert_eq!(scalar(&doc, "k"), Some("v".to_string()));
}

#[test]
fn newline_in_comment_mode_stores_a_buffered_key() {
    let mut scanner = Scanner::new();
    feed(&mut scanner, "k;comment\n");
    let doc = scanner.finish();
    assert_eq!(doc.len(), 1);
    assert_eq!(scalar(&doc, "k"), Some(String::new()));
}

#[test]
fn comment_line_inside_a_section_stores_nothing() {
    let mut scanner = Scanner::new();
    feed(&mut scanner, "[s]\n;comment\n");
    assert_eq!(scanner.section_name(), "s");
    let doc = scanner.finish();
    assert_eq!(doc.len(), 1);
    assert!(matches!(doc.get("s"), Some(IniData::Section(section)) if section.is_empty()));
}

#[test]
fn newline_in_section_name_mode_stores_into_that_section() {
    let mut scanner = Scanner::new();
    feed(&mut scanner, "[s");
    scanner.step(b'\n');
    assert_eq!(scanner.mode(), Mode::Key);
    assert_eq!(scanner.section_name(), "s");
    let doc = scanner.finish();
    assert_eq!(doc.len(), 1);
    match doc.get("s") {
        Some(IniData::Section(section)) => {
            assert_eq!(section.len(), 1);
            assert_eq!(section.get(""), Some(&String::new()));
        },
        _ => panic!("section `s` is missing"),
    }
}

#[test]
fn newline_keeps_the_section_name() {
    let mut scanner = Scanner::new();
    feed(&mut scanner, "[s]\na=1\n");
    assert_eq!(scanner.section_name(), "s");
    feed(&mut scanner, "b=2\n");
    assert_eq!(scanner.section_name(), "s");
}

#[test]
fn ordinary_bytes_go_to_the_buffer_of_the_mode() {
    let mut scanner = Scanner::new();
    feed(&mut scanner, "ab");
    assert_eq!(scanner.key(), "ab");
    assert_eq!(scanner.value(), "");
    scanner.step(b'=');
    feed(&mut scanner, "cd");
    assert_eq!(scanner.key(), "ab");
    assert_eq!(scanner.value(), "cd");
    scanner.step(b'[');
    feed(&mut scanner, "ef");
    assert_eq!(scanner.section_name(), "ef");
    assert_eq!(scanner.key(), "ab");
    assert_eq!(scanner.value(), "cd");
}

#[test]
fn high_byte_is_pushed_as_one_character() {
    let mut scanner = Scanner::new();
    scanner.step(0xE9);
    assert_eq!(scanner.key(), "\u{e9}");
    assert_eq!(scanner.key().chars().count(), 1);
    scanner.step(0x80);
    assert_eq!(scanner.key(), "\u{e9}\u{80}");
}

#[test]
fn finish_in_value_mode_stores_the_entry_at_top_level() {
    let mut scanner = Scanner::new();
    feed(&mut scanner, "k=v");
    let doc = scanner.finish();
    assert_eq!(doc.len(), 1);
    assert_eq!(scalar(&doc, "k"), Some("v".to_string()));
}

#[test]
fn finish_in_other_modes_drops_what_is_buffered() {
    for input in ["k", "k=v;", "k=v]"] {
        let mut scanner = Scanner::new();
        feed(&mut scanner, input);
        assert!(scanner.finish().is_empty());
    }
}

#[test]
fn finish_with_open_section_stores_the_section_only() {
    let mut scanner = Scanner::new();
    feed(&mut scanner, "[s]\na=1\nb=2");
    assert_eq!(scanner.mode(), Mode::Value);
    let doc = scanner.finish();
    assert_eq!(doc.len(), 1);
    match doc.get("s") {
        Some(IniData::Section(section)) => {
            assert_eq!(section.len(), 1);
            assert_eq!(section.get("a"), Some(&"1".to_string()));
        },
        _ => panic!("section `s` is missing"),
    }
}

#[test]
fn stepping_through_an_input_is_reading_it_whole() {
    let input = "a=1\n[s]\nb=2\n;c\n[t]\nd=4";
    let mut scanner = Scanner::new();
    feed(&mut scanner, input);
    let stepped = scanner.finish();
    let whole = IniDataMap::from_bytes(input.as_bytes().to_vec());
    assert_eq!(stepped.len(), whole.len());
    assert_eq!(stepped.len(), 3);
    assert_eq!(scalar(&stepped, "a"), scalar(&whole, "a"));
    for name in ["s", "t"] {
        match (stepped.get(name), whole.get(name)) {
            (Some(IniData::Section(x)), Some(IniData::Section(y))) => {
                assert_eq!(x.len(), y.len());
                assert_eq!(x.get("b"), y.get("b"));
                assert_eq!(x.get(""), y.get(""));
                assert_eq!(x.get("d"), y.get("d"));
            },
            _ => panic!("a section is missing"),
        }
    }
}
