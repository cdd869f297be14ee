use bill_tracker::menu::{select, Currency, MenuAction};
use bill_tracker::text::{is_blank, normalize_line};

#[test]
fn convert_str_recognises_each_word() {
    assert_eq!(Currency::convert_str("rupiah".to_string()), Ok(Currency::Rupiah));
    assert_eq!(Currency::convert_str("dollar".to_string()), Ok(Currency::Dollar));
    assert_eq!(Currency::convert_str("rupee".to_string()), Ok(Currency::Rupee));
    assert_eq!(Currency::convert_str("yen".to_string()), Ok(Currency::Yen));
}

#[test]
fn convert_str_ignores_case_and_whitespace() {
    assert_eq!(Currency::convert_str("Rupiah".to_string()), Ok(Currency::Rupiah));
    assert_eq!(Currency::convert_str("Dollar".to_string()), Ok(Currency::Dollar));
    assert_eq!(Currency::convert_str("Rupee".to_string()), Ok(Currency::Rupee));
    assert_eq!(Currency::convert_str("Yen".to_string()), Ok(Currency::Yen));
    assert_eq!(Currency::convert_str("  yEN \n".to_string()), Ok(Currency::Yen));
    assert_eq!(
        Currency::convert_str("   ".to_string()),
        Err("tidak terdaftar".to_string())
    );
}

#[test]
fn convert_str_rejects_other_text() {
    assert_eq!(
        Currency::convert_str("euro".to_string()),
        Err("tidak terdaftar".to_string())
    );
    assert_eq!(
        Currency::convert_str(String::new()),
        Err("tidak terdaftar".to_string())
    );
}

#[test]
fn words_route_to_actions() {
    assert_eq!(Currency::Dollar.action(), MenuAction::Add);
    assert_eq!(Currency::Rupee.action(), MenuAction::View);
    assert_eq!(Currency::Rupiah.action(), MenuAction::Remove);
    assert_eq!(Currency::Yen.action(), MenuAction::Update);
}

#[test]
fn select_quits_on_blank_or_unknown() {
    assert_eq!(select(&"dollar".to_string()), MenuAction::Add);
    assert_eq!(select(&String::new()), MenuAction::Quit);
    assert_eq!(select(&"1".to_string()), MenuAction::Quit);
}

#[test]
fn normalize_trims_and_folds_case() {
    assert_eq!(normalize_line("  DoLLar \n"), "dollar");
    assert_eq!(normalize_line("Rent"), "rent");
    assert_eq!(normalize_line("   \t\n"), "");
    assert_eq!(select(&normalize_line(" YEN\n")), MenuAction::Update);
}

#[test]
fn blank_lines() {
    assert!(is_blank(&normalize_line("  \n")));
    assert!(!is_blank(&normalize_line(" x ")));
    assert!(is_blank(&normalize_line("\u{a0}\u{3000}\t")));
}
