use zero_pass::{resolve_method, Error};

#[test]
fn registered_names_resolve() {
    assert!(resolve_method("Vigenere").is_ok());
    assert!(resolve_method("Base64").is_ok());
    assert!(resolve_method("Xor").is_ok());
}

#[test]
fn lowercase_names_resolve() {
    assert!(resolve_method("vigenere").is_ok());
    assert!(resolve_method("base64").is_ok());
    assert!(resolve_method("xor").is_ok());
    assert!(resolve_method("XOR").is_ok());
}

#[test]
fn unknown_name_is_reported_not_defaulted() {
    assert!(matches!(resolve_method("NotAMethod"), Err(Error::UnknownMethod)));
    assert!(matches!(resolve_method(""), Err(Error::UnknownMethod)));
    assert!(matches!(resolve_method("Base65"), Err(Error::UnknownMethod)));
}

#[test]
fn every_menu_entry_resolves() {
    for name in zero_pass_backend::Methods::get_methods() {
        assert!(resolve_method(name).is_ok());
    }
}
