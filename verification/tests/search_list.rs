use macos_sign::text::parse_search_list;

fn entries(listing: &str) -> Vec<String> {
    parse_search_list(listing)
}

#[test]
fn reads_quoted_indented_lines() {
    let listing = "    \"/Users/me/Library/Keychains/login.keychain-db\"\n    \"/Library/Keychains/System.keychain\"\n";
    assert_eq!(
        entries(listing),
        vec!["/Users/me/Library/Keychains/login.keychain-db", "/Library/Keychains/System.keychain"]
    );
}

#[test]
fn empty_listing_has_no_entries() {
    assert_eq!(entries(""), Vec::<String>::new());
}

#[test]
fn blank_lines_are_dropped() {
    assert_eq!(entries("\n\n  \n\t\n\"\"\n \" \" \n"), Vec::<String>::new());
}

#[test]
fn last_line_needs_no_line_feed() {
    assert_eq!(entries("a\nb"), vec!["a", "b"]);
}

#[test]
fn order_and_duplicates_are_kept() {
    assert_eq!(entries("b\na\nb\n"), vec!["b", "a", "b"]);
}

#[test]
fn carriage_returns_are_padding() {
    assert_eq!(entries("\"one\"\r\n\"two\"\r\n"), vec!["one", "two"]);
}

#[test]
fn inner_padding_stays() {
    assert_eq!(
        entries("  \"/Volumes/My Disk/a \"quoted\" name.keychain\"  \n"),
        vec!["/Volumes/My Disk/a \"quoted\" name.keychain"]
    );
}

#[test]
fn unicode_white_space_is_padding() {
    assert_eq!(entries("\u{a0}\u{3000}caf\u{e9}\u{2003}\n\u{2028}"), vec!["caf\u{e9}"]);
}

#[test]
fn other_characters_are_not_padding() {
    assert_eq!(entries("'x'\n_y_\n\u{200b}z"), vec!["'x'", "_y_", "\u{200b}z"]);
}

#[test]
fn several_quotes_are_all_removed() {
    assert_eq!(entries("\"\"\" a\"\"\n"), vec!["a"]);
}

#[test]
fn white_space_is_the_unicode_property() {
    let spaces: Vec<u32> = vec![
        0x09, 0x0A, 0x0B, 0x0C, 0x0D, 0x20, 0x85, 0xA0, 0x1680, 0x2000, 0x2001, 0x2002, 0x2003,
        0x2004, 0x2005, 0x2006, 0x2007, 0x2008, 0x2009, 0x200A, 0x2028, 0x2029, 0x202F, 0x205F,
        0x3000,
    ];
    assert_eq!(spaces.len(), 25);
    for code in 0..=0x10FFFF_u32 {
        if let Some(c) = char::from_u32(code) {
            let listing = format!("a{}", c);
            let padding = spaces.contains(&code) || c == '"';
            let expected = if padding { "a".to_string() } else { listing.clone() };
            assert_eq!(entries(&listing), vec![expected], "U+{:04X}", code);
        }
    }
}

#[test]
fn padding_at_the_front_is_removed() {
    assert_eq!(entries("\u{1680}\u{205f}\u{85}\"x"), vec!["x"]);
    assert_eq!(entries("\u{180e}x\u{feff}"), vec!["\u{180e}x\u{feff}"]);
}
