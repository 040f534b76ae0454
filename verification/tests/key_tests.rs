use iup_callback::key::action_name;
use iup_callback::key::binding_key;
use iup_callback::key::destroy_cb_name;

#[test]
fn binding_key_prepends_reserved_prefix() {
    assert_eq!(binding_key("ACTION"), "_IUPRUST_FBOX_ACTION");
    assert_eq!(binding_key("DESTROY_CB"), "_IUPRUST_FBOX_DESTROY_CB");
}

#[test]
fn binding_keys_of_supported_callbacks_do_not_collide() {
    // The binding-setup check the key namespace is meant to guarantee: no
    // two supported callback names share an attribute slot after prefixing.
    assert_ne!(binding_key(action_name()), binding_key(destroy_cb_name()));
}

#[test]
fn binding_key_differs_from_bare_name() {
    assert_ne!(binding_key("ACTION"), "ACTION".to_string());
    assert_ne!(binding_key(""), "".to_string());
}

#[test]
fn callback_names_match_native_spelling() {
    assert_eq!(action_name(), "ACTION");
    assert_eq!(destroy_cb_name(), "DESTROY_CB");
}
