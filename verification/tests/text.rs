use dynisland_reconcile::identifier::{get_conf_idx, ActivityIdentifier};
use dynisland_reconcile::markup::percentage_label;
use dynisland_reconcile::text::{parse_index, text_eq};

#[test]
fn text_eq_compares_characters() {
    assert!(text_eq("", ""));
    assert!(text_eq("main", "main"));
    assert!(!text_eq("main", "Main"));
    assert!(!text_eq("main", "mai"));
    assert!(!text_eq("", " "));
    assert!(text_eq("батарея", "батарея"));
    assert!(!text_eq("батарея", "батареи"));
}

#[test]
fn parse_index_reads_decimal_digits() {
    assert_eq!(parse_index("0"), Some(0));
    assert_eq!(parse_index("7"), Some(7));
    assert_eq!(parse_index("42"), Some(42));
    assert_eq!(parse_index("007"), Some(7));
    assert_eq!(parse_index("+5"), Some(5));
    assert_eq!(parse_index(&usize::MAX.to_string()), Some(usize::MAX));
}

#[test]
fn parse_index_agrees_with_the_standard_parser() {
    let texts = [
        "", "+", "-", "-1", "+-1", "++1", "1 ", " 1", "1a", "a", "0x10", "1_000", "٣", "12345",
        "18446744073709551615", "18446744073709551616", "99999999999999999999999", "+0", "00",
    ];
    for text in texts {
        assert_eq!(parse_index(text), text.parse::<usize>().ok(), "{:?}", text);
    }
}

#[test]
fn an_identifier_is_made_from_metadata() {
    let id = ActivityIdentifier::from_metadata("power", "power-activity", Some("main"), Some("3"))
        .unwrap();
    assert_eq!(id, ActivityIdentifier::new("power", "power-activity", "main", 3));
    assert_eq!(get_conf_idx(&id), 3);
    assert_eq!(id.module(), "power");
    assert_eq!(id.activity(), "power-activity");
    assert_eq!(id.window_name(), "main");
    assert_eq!(id.instance(), 3);
}

#[test]
fn an_absent_window_name_reads_as_the_empty_name() {
    let id = ActivityIdentifier::from_metadata("power", "power-activity", None, Some("0")).unwrap();
    assert_eq!(id.window_name(), "");
    assert_eq!(id, ActivityIdentifier::new("power", "power-activity", "", 0));
}

#[test]
fn metadata_without_a_readable_instance_makes_no_identifier() {
    assert_eq!(ActivityIdentifier::from_metadata("power", "a", Some("main"), None), None);
    assert_eq!(ActivityIdentifier::from_metadata("power", "a", Some("main"), Some("")), None);
    assert_eq!(ActivityIdentifier::from_metadata("power", "a", Some("main"), Some("one")), None);
    assert_eq!(ActivityIdentifier::from_metadata("power", "a", Some("main"), Some("-1")), None);
}

#[test]
fn identifiers_differ_in_any_part() {
    let id = ActivityIdentifier::new("power", "power-activity", "main", 0);
    assert_eq!(id, id.clone());
    assert_ne!(id, ActivityIdentifier::new("music", "power-activity", "main", 0));
    assert_ne!(id, ActivityIdentifier::new("power", "other", "main", 0));
    assert_ne!(id, ActivityIdentifier::new("power", "power-activity", "side", 0));
    assert_ne!(id, ActivityIdentifier::new("power", "power-activity", "main", 1));
}

#[test]
fn the_percentage_goes_into_the_first_placeholder() {
    let template = "<span font_desc=\"Monospace Bold 11\" foreground=\"#FFFFFF00\">{}</span>";
    assert_eq!(
        percentage_label(template, "87"),
        "<span font_desc=\"Monospace Bold 11\" foreground=\"#FFFFFF00\">87</span>"
    );
    assert_eq!(percentage_label("{}%", "5"), "5%");
    assert_eq!(percentage_label("{} of {}", "5"), "5 of ");
    assert_eq!(percentage_label("{{}} {}", "5"), "{} 5");
    assert_eq!(percentage_label("no placeholder", "5"), "no placeholder");
    assert_eq!(percentage_label("", "5"), "");
}
