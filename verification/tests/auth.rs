use smithy_identity::client::auth::AuthSchemeId;

#[test]
fn scheme_ids_compare_by_name() {
    let sigv4 = AuthSchemeId::new("sigv4");
    let again = AuthSchemeId::new("sigv4");
    let bearer = AuthSchemeId::new("bearer");
    assert!(sigv4 == again);
    assert!(sigv4 != bearer);
    assert!(bearer != sigv4);
}

#[test]
fn scheme_id_gives_its_name_back() {
    assert_eq!(AuthSchemeId::new("sigv4").as_str(), "sigv4");
    assert_eq!(AuthSchemeId::new("").as_str(), "");
}

#[test]
fn scheme_ids_built_from_different_strings_with_equal_text_are_equal() {
    let literal = AuthSchemeId::new("http-bearer-auth");
    let leaked: &'static str = Box::leak(format!("http-{}-auth", "bearer").into_boxed_str());
    assert!(literal == AuthSchemeId::new(leaked));
}

#[test]
fn a_name_and_its_prefix_are_different_schemes() {
    assert!(AuthSchemeId::new("sigv4") != AuthSchemeId::new("sigv4a"));
    assert!(AuthSchemeId::new("sigv4a") != AuthSchemeId::new("sigv4"));
    assert!(AuthSchemeId::new("") != AuthSchemeId::new("a"));
    assert!(AuthSchemeId::new("") == AuthSchemeId::new(""));
}

#[test]
fn names_that_differ_in_one_place_are_different_schemes() {
    assert!(AuthSchemeId::new("sigv4") != AuthSchemeId::new("sigv5"));
    assert!(AuthSchemeId::new("Sigv4") != AuthSchemeId::new("sigv4"));
    assert!(AuthSchemeId::new("scheme-é") != AuthSchemeId::new("scheme-e"));
    assert!(AuthSchemeId::new("scheme-é") == AuthSchemeId::new("scheme-é"));
}

#[test]
fn scheme_ids_are_copied_freely() {
    let id = AuthSchemeId::new("sigv4");
    let copy = id;
    assert!(copy == id);
    assert_eq!(format!("{:?}", id), format!("{:?}", copy));
}
