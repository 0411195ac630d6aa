use yrmos::money::Cost;
use yrmos::pix::{calculate_crc, emv_field, generate_emv_pix};
use yrmos::schema::Person;

#[test]
fn emv_field_pads_identifier_and_length() {
    assert_eq!(emv_field(0, "01"), "000201");
    assert_eq!(emv_field(26, ""), "2600");
    assert_eq!(emv_field(5, "***"), "0503***");
}

#[test]
fn emv_field_counts_characters_not_bytes() {
    assert_eq!(emv_field(60, "São Carlos"), "6010São Carlos");
}

#[test]
fn emv_field_long_payload_has_three_digit_length() {
    let payload = "x".repeat(120);
    let field = emv_field(59, &payload);
    assert_eq!(&field[..5], "59120");
    assert_eq!(field.len(), 125);
}

#[test]
fn crc_covers_content_and_field_header() {
    // The CRC is taken of the content followed by "6304".
    assert_eq!(calculate_crc(""), "6007");
    assert_eq!(calculate_crc("12345"), "AD75");
}

#[test]
fn pix_code_without_amount() {
    let code = generate_emv_pix("fulano@example.com", "Fulano de Tal", "São Carlos", None);
    assert_eq!(
        code,
        "00020126400014br.gov.bcb.pix0118fulano@example.com5204000053039865802BR5913Fulano de Tal6010São Carlos62070503***63041D14"
    );
}

#[test]
fn pix_code_with_amount() {
    let amount = Cost::new(1250, 2).unwrap();
    let code = generate_emv_pix("fulano@example.com", "Fulano de Tal", "São Carlos", Some(amount));
    assert_eq!(
        code,
        "00020126400014br.gov.bcb.pix0118fulano@example.com520400005303986540512.505802BR5913Fulano de Tal6010São Carlos62070503***6304D6E2"
    );
}

#[test]
fn pix_code_crc_checks_body() {
    let code = generate_emv_pix("fulano@example.com", "Fulano de Tal", "São Carlos", None);
    let (body, crc) = code.split_at(code.len() - 4);
    assert!(body.ends_with("6304"));
    assert_eq!(calculate_crc(&body[..body.len() - 4]), crc);
}

#[test]
fn pix_code_short_crc_keeps_unpadded_digits() {
    // A CRC below 0x1000 is written with three digits (and length 03).
    let code = generate_emv_pix("key20@example.com", "Ana", "São Carlos", None);
    assert!(code.ends_with("6303F2C"));
}

#[test]
fn person_without_pix_key_has_no_code() {
    let person = Person::from_record(
        "ana@example.com".to_string(),
        "Ana".to_string(),
        None,
        "hash".to_string(),
    );
    assert_eq!(person.get_pix_qr(None), None);
}

#[test]
fn person_with_pix_key_gets_code_for_sao_carlos() {
    let person = Person::from_record(
        "fulano@example.com".to_string(),
        "Fulano de Tal".to_string(),
        Some("fulano@example.com".to_string()),
        "hash".to_string(),
    );
    assert_eq!(
        person.get_pix_qr(Some(Cost::new(1250, 2).unwrap())).unwrap(),
        "00020126400014br.gov.bcb.pix0118fulano@example.com520400005303986540512.505802BR5913Fulano de Tal6010São Carlos62070503***6304D6E2"
    );
}

#[test]
fn cost_bounds_and_text() {
    assert!(Cost::new(1, 29).is_none());
    assert!(Cost::new(0xFFFF_FFFF_FFFF_FFFF_FFFF_FFFF + 1, 0).is_none());
    assert_eq!(Cost::new(5, 2).unwrap().to_text(), "0.05");
    assert_eq!(Cost::new(-1250, 2).unwrap().to_text(), "-12.50");
    assert_eq!(Cost::new(7, 0).unwrap().to_text(), "7");
}
