use std::str::FromStr;

use zero_pass::Languages;

#[test]
fn environment_values_select_the_locale() {
    assert_eq!(Languages::from(String::from("pt_BR.UTF-8")), Languages::PtBr);
    assert_eq!(Languages::from(String::from("en_US.UTF-8")), Languages::EnUs);
}

#[test]
fn unknown_environment_value_falls_back_to_english() {
    assert_eq!(Languages::from(String::from("de_DE.UTF-8")), Languages::EnUs);
    assert_eq!(Languages::from(String::new()), Languages::EnUs);
}

#[test]
fn short_names_select_the_locale() {
    assert_eq!(Languages::from_str("pt_br").unwrap(), Languages::PtBr);
    assert_eq!(Languages::from_str("en_us").unwrap(), Languages::EnUs);
    assert_eq!(Languages::from_str("fr_fr").unwrap(), Languages::EnUs);
}

#[test]
fn config_names_select_the_locale() {
    assert_eq!(Languages::from_config_name("PtBr"), Languages::PtBr);
    assert_eq!(Languages::from_config_name("EnUs"), Languages::EnUs);
    assert_eq!(Languages::from_config_name("Klingon"), Languages::EnUs);
}

#[test]
fn default_locale_is_english() {
    assert_eq!(Languages::default(), Languages::EnUs);
}

#[test]
fn str_eq_compares_by_characters() {
    assert!(zero_pass::str_eq("abc", "abc"));
    assert!(!zero_pass::str_eq("abc", "abd"));
    assert!(!zero_pass::str_eq("abc", "ab"));
    assert!(zero_pass::str_eq("", ""));
    assert!(zero_pass::str_eq("é", "é"));
}
