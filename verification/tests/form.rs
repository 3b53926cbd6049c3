use z2p_axum::form::{parse_form, percent_decode, FormError};

#[test]
fn the_reference_body_decodes() {
    let body = b"name=le%20guin&email=ursula_le_guin%40gmail.com";
    let fd = parse_form(body).unwrap();
    assert_eq!(fd.name, "le guin");
    assert_eq!(fd.email, "ursula_le_guin@gmail.com");
}

#[test]
fn missing_email_is_reported() {
    let body = b"name=le%20guin";
    assert!(matches!(parse_form(body), Err(FormError::MissingEmail)));
}

#[test]
fn missing_name_is_reported() {
    let body = b"email=ursula_le_guin%40gmail.com";
    assert!(matches!(parse_form(body), Err(FormError::MissingName)));
}

#[test]
fn empty_body_is_reported_as_missing() {
    assert!(matches!(parse_form(b""), Err(FormError::MissingName)));
}

#[test]
fn plus_decodes_to_space() {
    let fd = parse_form(b"name=le+guin&email=a%40b.com").unwrap();
    assert_eq!(fd.name, "le guin");
}

#[test]
fn uppercase_and_lowercase_hex_escapes_decode() {
    assert_eq!(percent_decode(b"a%2Fb%2fc"), b"a/b/c".to_vec());
    assert_eq!(percent_decode(b"%41%61"), b"Aa".to_vec());
}

#[test]
fn invalid_escapes_pass_through() {
    assert_eq!(percent_decode(b"100%"), b"100%".to_vec());
    assert_eq!(percent_decode(b"%zz"), b"%zz".to_vec());
    assert_eq!(percent_decode(b"%2"), b"%2".to_vec());
}

#[test]
fn first_occurrence_of_a_field_wins() {
    let fd = parse_form(b"name=first&email=a%40b.com&name=second").unwrap();
    assert_eq!(fd.name, "first");
}

#[test]
fn keys_are_percent_decoded_too() {
    let fd = parse_form(b"na%6De=x&email=a%40b.com").unwrap();
    assert_eq!(fd.name, "x");
}

#[test]
fn unknown_fields_are_ignored() {
    let fd = parse_form(b"extra=1&name=x&email=a%40b.com").unwrap();
    assert_eq!(fd.name, "x");
    assert_eq!(fd.email, "a@b.com");
}

#[test]
fn a_field_without_a_value_is_empty() {
    assert_eq!(parse_form(b"name&email=a%40b.com").unwrap().name, "");
}

#[test]
fn utf8_values_decode() {
    let fd = parse_form(b"name=ursula%20k.%20le%20guin%20%C3%A9&email=a%40b.com").unwrap();
    assert_eq!(fd.name, "ursula k. le guin \u{e9}");
}

#[test]
fn non_utf8_values_are_rejected() {
    let body = b"name=%FF&email=a%40b.com";
    assert!(matches!(parse_form(body), Err(FormError::BadEncoding)));
}
