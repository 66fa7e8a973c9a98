use cipher_shell::text::{chars_of, find_text, has_prefix, is_whitespace_char, same_text};

fn chars(text: &str) -> Vec<char> {
    text.chars().collect()
}

#[test]
fn whitespace_is_what_the_standard_library_calls_whitespace() {
    let mut code: u32 = 0;
    while code <= 0x10FFFF {
        if let Some(c) = char::from_u32(code) {
            assert_eq!(is_whitespace_char(c), c.is_whitespace(), "U+{:04X}", code);
        }
        code += 1;
    }
}

#[test]
fn named_whitespace_characters() {
    for c in [' ', '\t', '\n', '\r', '\u{b}', '\u{c}', '\u{85}', '\u{a0}', '\u{1680}', '\u{2000}', '\u{200a}', '\u{2028}', '\u{2029}', '\u{202f}', '\u{205f}', '\u{3000}'] {
        assert!(is_whitespace_char(c), "{:?}", c);
    }
    for c in ['a', '/', '\u{0}', '\u{8}', '\u{e}', '\u{1f}', '\u{200b}', '\u{180e}', '\u{feff}', '\u{2060}'] {
        assert!(!is_whitespace_char(c), "{:?}", c);
    }
}

#[test]
fn chars_of_gives_the_characters_in_order() {
    assert_eq!(chars_of(""), Vec::<char>::new());
    assert_eq!(chars_of("a🔐é"), vec!['a', '🔐', 'é']);
}

#[test]
fn same_text_compares_whole_texts() {
    assert!(same_text(&chars(""), &chars("")));
    assert!(same_text(&chars("abc"), &chars("abc")));
    assert!(!same_text(&chars("abc"), &chars("abd")));
    assert!(!same_text(&chars("abc"), &chars("ab")));
    assert!(!same_text(&chars("ab"), &chars("abc")));
    assert!(!same_text(&chars(""), &chars("a")));
}

#[test]
fn has_prefix_looks_at_the_beginning_only() {
    assert!(has_prefix(&chars("/assets/x"), &chars("/assets/")));
    assert!(has_prefix(&chars("/assets/"), &chars("/assets/")));
    assert!(has_prefix(&chars("abc"), &chars("")));
    assert!(has_prefix(&chars(""), &chars("")));
    assert!(!has_prefix(&chars("/assets"), &chars("/assets/")));
    assert!(!has_prefix(&chars("x/assets/"), &chars("/assets/")));
    assert!(!has_prefix(&chars(""), &chars("a")));
}

#[test]
fn find_text_finds_every_occurrence_place() {
    assert!(find_text(&chars("Database verified\n"), &chars("Database verified")));
    assert!(find_text(&chars("warning\nDatabase verified"), &chars("Database verified")));
    assert!(find_text(&chars("xxDatabase verifiedxx"), &chars("Database verified")));
    assert!(!find_text(&chars("Database missing tables\n"), &chars("Database verified")));
    assert!(!find_text(&chars("Database verifie"), &chars("Database verified")));
    assert!(!find_text(&chars(""), &chars("a")));
    assert!(find_text(&chars(""), &chars("")));
    assert!(find_text(&chars("abc"), &chars("")));
    assert!(find_text(&chars("aab"), &chars("ab")));
    assert!(find_text(&chars("abab"), &chars("bab")));
    assert!(!find_text(&chars("abab"), &chars("bb")));
}

#[test]
fn find_text_agrees_with_the_standard_search() {
    let alphabet = ['a', 'b'];
    let mut texts: Vec<String> = vec![String::new()];
    let mut from: usize = 0;
    for _ in 0..5 {
        let upto = texts.len();
        for at in from..upto {
            for c in alphabet {
                let mut longer = texts[at].clone();
                longer.push(c);
                texts.push(longer);
            }
        }
        from = upto;
    }
    for hay in &texts {
        for needle in &texts {
            assert_eq!(
                find_text(&chars(hay), &chars(needle)),
                hay.contains(needle.as_str()),
                "{:?} in {:?}",
                needle,
                hay
            );
            assert_eq!(has_prefix(&chars(hay), &chars(needle)), hay.starts_with(needle.as_str()));
            assert_eq!(same_text(&chars(hay), &chars(needle)), hay == needle);
        }
    }
}
