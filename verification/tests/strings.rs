use fw_conv::StrExt;

#[test]
fn test_sw_to_fw() {
    assert_eq!("hello world".to_fw(), "ｈｅｌｌｏ　ｗｏｒｌｄ");
    assert_eq!(
        "hello 1234 world".to_fw(),
        "ｈｅｌｌｏ　１２３４　ｗｏｒｌｄ"
    );
}

#[test]
fn test_fw_to_sw() {
    assert_eq!("ｈｅｌｌｏ　ｗｏｒｌｄ".to_sw(), "hello world");
    assert_eq!(
        "ｈｅｌｌｏ　１２３４　ｗｏｒｌｄ".to_sw(),
        "hello 1234 world"
    );
}

#[test]
fn test_has_fw() {
    assert!(!"hello world".has_fw());
    assert!("ｈｅｌｌｏ　ｗｏｒｌｄ".has_fw());
    // Normal looking string with fullwidth space in middle
    assert!("hello　world".has_fw());
    // Numbers
    assert!("２".has_fw());
    assert!("hello １２３４ world".has_fw());
}

#[test]
fn test_to_fw_by_code_points() {
    assert_eq!(
        "hello world".to_fw(),
        "\u{FF48}\u{FF45}\u{FF4C}\u{FF4C}\u{FF4F}\u{3000}\u{FF57}\u{FF4F}\u{FF52}\u{FF4C}\u{FF44}"
    );
    assert_eq!("AZ az 09 |/".to_fw(), "\u{FF21}\u{FF3A}\u{3000}\u{FF41}\u{FF5A}\u{3000}\u{FF10}\u{FF19}\u{3000}\u{FF5C}\u{FF0F}");
}

#[test]
fn test_to_sw_by_code_points() {
    assert_eq!(
        "\u{FF21}\u{FF3A}\u{3000}\u{FF41}\u{FF5A}\u{3000}\u{FF10}\u{FF19}\u{3000}\u{FF5C}\u{FF0F}".to_sw(),
        "AZ az 09 |/"
    );
}

#[test]
fn test_empty_text() {
    assert_eq!("".to_fw(), "");
    assert_eq!("".to_sw(), "");
    assert!(!"".has_fw());
}

#[test]
fn test_length_is_kept() {
    let inputs = ["", "a", "hello 1234 world", "\u{FF48}i!", "\u{6F22}\u{5B57} | a/b", "\t\n\u{0}"];
    for text in inputs {
        let n = text.chars().count();
        assert_eq!(text.to_fw().chars().count(), n);
        assert_eq!(text.to_sw().chars().count(), n);
    }
}

#[test]
fn test_order_is_kept() {
    assert_eq!("a!b?c".to_fw(), "\u{FF41}!\u{FF42}?\u{FF43}");
    assert_eq!("\u{FF41}!\u{FF42}?\u{FF43}".to_sw(), "a!b?c");
}

#[test]
fn test_text_without_convertible_characters_is_unchanged() {
    let inputs = ["!?.,;:-_()[]{}<>@#$%^&*+=~`'\"\\", "\u{6F22}\u{5B57}\u{3042}\u{30A2}", "\u{E9}\u{DF}\u{1F600}"];
    for text in inputs {
        assert_eq!(text.to_fw(), text);
        assert_eq!(text.to_sw(), text);
        assert!(!text.has_fw());
    }
}

#[test]
fn test_to_fw_leaves_fullwidth_text_alone() {
    let wide = "\u{FF48}\u{FF49}\u{3000}\u{FF11}\u{FF5C}\u{FF0F}";
    assert_eq!(wide.to_fw(), wide);
}

#[test]
fn test_to_sw_leaves_standard_text_alone() {
    assert_eq!("hello 1234 world |/".to_sw(), "hello 1234 world |/");
}

#[test]
fn test_to_sw_passes_other_fullwidth_forms_through() {
    // Fullwidth exclamation mark, comma and tilde have no pairing here.
    assert_eq!("\u{FF01}\u{FF0C}\u{FF5E}".to_sw(), "\u{FF01}\u{FF0C}\u{FF5E}");
    assert!(!"\u{FF01}\u{FF0C}\u{FF5E}".has_fw());
}

#[test]
fn test_mixed_text_round_trip() {
    let plain = "Mix 42 | a/b, \u{6F22}\u{5B57}!";
    assert!(!plain.has_fw());
    let wide = plain.to_fw();
    assert_eq!(wide, "\u{FF2D}\u{FF49}\u{FF58}\u{3000}\u{FF14}\u{FF12}\u{3000}\u{FF5C}\u{3000}\u{FF41}\u{FF0F}\u{FF42},\u{3000}\u{6F22}\u{5B57}!");
    assert!(wide.has_fw());
    assert_eq!(wide.to_sw(), plain);
    assert!(!wide.to_sw().has_fw());
}

#[test]
fn test_has_fw_finds_a_match_anywhere() {
    assert!("\u{FF21}bc".has_fw());
    assert!("ab\u{FF5C}".has_fw());
    assert!("a\u{FF0F}c".has_fw());
    assert!(!"abc|/ 123".has_fw());
}

#[test]
fn test_owned_string_receiver() {
    let owned = String::from("abc 1");
    assert_eq!(owned.to_fw(), "\u{FF41}\u{FF42}\u{FF43}\u{3000}\u{FF11}");
    assert_eq!(owned.to_fw().to_sw(), owned);
    assert!(!owned.has_fw());
}
