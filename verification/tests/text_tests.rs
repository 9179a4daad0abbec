use transit_tracker::text::{
    composite_key, find_first, name_before_comma, parse_minutes, split_composite, str_eq,
    str_starts_with,
};

#[test]
fn test_composite_key_builds() {
    let k = composite_key("100", "Downtown");
    assert_eq!(k, "100 (Downtown)");
}

#[test]
fn test_split_composite_round_trip() {
    let k = composite_key("Bus 100", "Hauptbahnhof");
    let (name, direction) = split_composite(&k).unwrap();
    assert_eq!(name, "Bus 100");
    assert_eq!(direction, "Hauptbahnhof");
}

#[test]
fn test_split_composite_keeps_inner_parens() {
    let (name, direction) = split_composite("S7 (Ahrensfelde (Berlin))").unwrap();
    assert_eq!(name, "S7");
    assert_eq!(direction, "Ahrensfelde (Berlin)");
}

#[test]
fn test_split_composite_malformed() {
    assert!(split_composite("no parens at all").is_none());
    assert!(split_composite("(leading paren)").is_none());
    assert!(split_composite("ends with (").is_none());
    assert!(split_composite("").is_none());
}

#[test]
fn test_parse_minutes_digits() {
    assert_eq!(parse_minutes("5"), Some(5));
    assert_eq!(parse_minutes("007"), Some(7));
    assert_eq!(parse_minutes("1440"), Some(1440));
    assert_eq!(parse_minutes("4294967295"), Some(u32::MAX));
}

#[test]
fn test_parse_minutes_rejects() {
    assert_eq!(parse_minutes(""), None);
    assert_eq!(parse_minutes("12a"), None);
    assert_eq!(parse_minutes("-3"), None);
    assert_eq!(parse_minutes(" 5"), None);
    assert_eq!(parse_minutes("4294967296"), None);
}

#[test]
fn test_find_first() {
    assert_eq!(find_first("abcabc", 'b'), Some(1));
    assert_eq!(find_first("abc", 'z'), None);
    assert_eq!(find_first("", 'z'), None);
}

#[test]
fn test_str_eq_and_prefix() {
    assert!(str_eq("abc", "abc"));
    assert!(!str_eq("abc", "abd"));
    assert!(!str_eq("abc", "abcd"));
    assert!(str_starts_with("Alexanderplatz", "Alex"));
    assert!(str_starts_with("Alexanderplatz", ""));
    assert!(!str_starts_with("Alex", "Alexanderplatz"));
    assert!(!str_starts_with("Alexanderplatz", "Hbf"));
}

#[test]
fn test_name_before_comma() {
    assert_eq!(name_before_comma("Alexanderplatz, Berlin"), "Alexanderplatz");
    assert_eq!(name_before_comma("Hauptbahnhof"), "Hauptbahnhof");
    assert_eq!(name_before_comma(",starts with comma"), "");
}
