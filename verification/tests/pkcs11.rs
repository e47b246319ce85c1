use globalprotect::certs::{available_modules, friendly_model, parse, parse_cert_meta, parse_token_info, piv_slot, piv_slot_code, CertInfo};
use globalprotect::pkcs11::{login_plan, pkcs11_module_path, token_matches, LoginPlanError};
use globalprotect::pkcs11_uri::{is_pkcs11_uri, parse_pkcs11_uri, pct_decode_bytes, pct_decode_str, Pkcs11UriError};

#[test]
fn recognises_pkcs11_uris() {
    assert!(is_pkcs11_uri("pkcs11:token=x"));
    assert!(is_pkcs11_uri("  \tpkcs11:id=%01"));
    assert!(!is_pkcs11_uri("winsign:AB"));
    assert!(!is_pkcs11_uri("/home/u/cert.pem"));
}

#[test]
fn percent_decoding() {
    assert_eq!(pct_decode_bytes("%41%42c"), b"ABc".to_vec());
    assert_eq!(pct_decode_bytes("%2x%"), b"%2x%".to_vec());
    assert_eq!(pct_decode_bytes("a%4"), b"a%4".to_vec());
    assert_eq!(pct_decode_bytes("%+5z"), vec![5u8, b'z']);
    assert_eq!(pct_decode_bytes("%ff%00"), vec![0xffu8, 0]);
    assert_eq!(pct_decode_str("My%20Card"), "My Card");
    assert_eq!(pct_decode_str("%ff"), "\u{FFFD}");
}

#[test]
fn parses_uri_selectors() {
    let u = parse_pkcs11_uri("pkcs11:token=My%20Card;object=Cert;id=%01%02;type=cert?pin-value=12%33").unwrap();
    assert_eq!(u.token.as_deref(), Some("My Card"));
    assert_eq!(u.object.as_deref(), Some("Cert"));
    assert_eq!(u.id, Some(vec![1u8, 2]));
    assert_eq!(u.pin.as_deref(), Some("123"));
}

#[test]
fn last_attribute_wins_and_unknown_ones_are_ignored() {
    let u = parse_pkcs11_uri(" pkcs11:id=%01;manufacturer=piv_II;id=%02;novalue").unwrap();
    assert_eq!(u.id, Some(vec![2u8]));
    assert_eq!(u.token, None);
    assert_eq!(u.object, None);
    assert_eq!(u.pin, None);
}

#[test]
fn pin_only_comes_from_the_query() {
    let u = parse_pkcs11_uri("pkcs11:pin-value=1;id=%03?module-path=/x&pin-value=9999").unwrap();
    assert_eq!(u.pin.as_deref(), Some("9999"));
    assert_eq!(u.id, Some(vec![3u8]));
}

#[test]
fn non_pkcs11_uri_is_refused() {
    assert_eq!(parse_pkcs11_uri("winsign:AB").unwrap_err(), Pkcs11UriError::NotPkcs11);
}

#[test]
fn login_plan_pin_precedence() {
    let p = login_plan("pkcs11:id=%03?pin-value=111", Some("pkcs11:token=T;id=%04?pin-value=222"), Some("999")).unwrap();
    assert_eq!(p.pin, "999");
    let p = login_plan("pkcs11:id=%03?pin-value=111", Some("pkcs11:token=T;id=%04?pin-value=222"), None).unwrap();
    assert_eq!(p.pin, "111");
    let p = login_plan("pkcs11:id=%03", Some("pkcs11:token=T;object=Key;id=%04?pin-value=222"), None).unwrap();
    assert_eq!(p.pin, "222");
    assert_eq!(p.token.as_deref(), Some("T"));
    assert_eq!(p.cert_id, Some(vec![3u8]));
    assert_eq!(p.cert_label, None);
    assert_eq!(p.key_id, Some(vec![4u8]));
    assert_eq!(p.key_label.as_deref(), Some("Key"));
}

#[test]
fn login_plan_key_defaults_to_the_certificate() {
    let p = login_plan("pkcs11:token=Card;object=C;id=%01", None, Some("1234")).unwrap();
    assert_eq!(p.token.as_deref(), Some("Card"));
    assert_eq!(p.key_id, Some(vec![1u8]));
    assert_eq!(p.key_label.as_deref(), Some("C"));
}

#[test]
fn login_plan_errors() {
    assert_eq!(login_plan("pkcs11:id=%01", None, None).unwrap_err(), LoginPlanError::PinRequired);
    assert_eq!(login_plan("cert.pem", None, Some("1")).unwrap_err(), LoginPlanError::NotPkcs11);
    assert_eq!(login_plan("pkcs11:id=%01", Some("key.pem"), Some("1")).unwrap_err(), LoginPlanError::NotPkcs11);
}

#[test]
fn token_label_matching() {
    assert!(token_matches("  Dylan Westra  ", Some("Dylan Westra")));
    assert!(!token_matches("Other", Some("Dylan Westra")));
    assert!(token_matches("anything", None));
}

#[test]
fn module_path_from_environment() {
    assert_eq!(pkcs11_module_path(Some("/opt/x/libfoo.so")).unwrap(), "/opt/x/libfoo.so");
    // A bare name found nowhere is handed to the loader as it is.
    assert_eq!(pkcs11_module_path(Some("no-such-module-xyz.so")).unwrap(), "no-such-module-xyz.so");
    // No (or an empty) value searches the known modules.
    for env in [None, Some("")] {
        if let Ok(p) = pkcs11_module_path(env) {
            assert!(p.starts_with("/usr/"), "{p}");
        }
    }
}

#[test]
fn module_picker_lists_existing_candidates() {
    for m in available_modules() {
        assert!(m.ends_with(".so") || m.ends_with(".so.2"), "{m}");
        assert!(std::path::Path::new(&m).exists());
    }
}

#[test]
fn piv_slots() {
    assert_eq!(piv_slot_code("01"), "9a");
    assert_eq!(piv_slot_code("02"), "9c");
    assert_eq!(piv_slot_code("03"), "9d");
    assert_eq!(piv_slot_code("04"), "9e");
    assert_eq!(piv_slot_code("05"), "05");
    assert_eq!(piv_slot("01"), "PIV Authentication");
    assert_eq!(piv_slot("03"), "Key Management");
    assert_eq!(piv_slot("07"), "id 07");
}

#[test]
fn friendly_models() {
    assert_eq!(friendly_model("  Yubico YubiKey OTP+FIDO+CCID 00 00 "), "YubiKey");
    assert_eq!(friendly_model("   "), "smart card");
    assert_eq!(friendly_model("Gemalto PC Twin Reader 00 00"), "Gemalto PC");
    assert_eq!(friendly_model("Single"), "Single");
}

fn cert(subject: &str, model: &str, id: &str) -> CertInfo {
    CertInfo {
        manufacturer: "piv_II".into(),
        id: id.into(),
        subject: subject.into(),
        model: model.into(),
        ..Default::default()
    }
}

#[test]
fn cert_labels() {
    let c = cert("CN=Dylan Westra,O=Example", "YubiKey", "03");
    assert_eq!(c.cn(), "Dylan Westra");
    assert_eq!(c.display(), "Dylan Westra — YubiKey 9d (slot 03)");
    assert_eq!(c.uri(), "pkcs11:manufacturer=piv_II;id=%03;type=cert");
    let c = cert("  O=Example  ", "", "07");
    assert_eq!(c.cn(), "O=Example");
    assert_eq!(c.display(), "O=Example — smart card 07 (slot 07)");
    let c = cert("O=Example, CN=Second", "", "01");
    assert_eq!(c.cn(), "Second");
}

const LISTING: &str = "Certificate Object; type = X.509 cert
  label:      Certificate for Key Management
  subject:    DN: CN=Dylan Westra
  ID:         03
  uri:        pkcs11:model=PKCS%2315%20emulated;manufacturer=piv_II;serial=abc;token=Dylan%20Westra;id=%03;object=Certificate%20for%20Key%20Management;type=cert
Public Key Object; RSA 2048 bits
  label:      Public key for Key Management
  uri:        pkcs11:manufacturer=piv_II;id=%03;type=public
Certificate Object; type = X.509 cert
  label:      No id
  uri:        pkcs11:manufacturer=piv_II;id=%;type=cert
Certificate Object; type = X.509 cert
  label:      Digital Signature
  uri:        pkcs11:manufacturer=piv_II;id=%02?x=y
";

#[test]
fn parses_the_object_listing() {
    let certs = parse(LISTING);
    assert_eq!(certs.len(), 2);
    assert_eq!(certs[0].manufacturer, "piv_II");
    assert_eq!(certs[0].id, "03");
    assert_eq!(certs[0].label, "Certificate for Key Management");
    assert_eq!(certs[0].subject, "CN=Dylan Westra");
    assert_eq!(certs[0].token, "");
    assert_eq!(certs[1].id, "02");
    assert_eq!(certs[1].label, "Digital Signature");
    assert_eq!(certs[1].subject, "");
    assert!(parse("").is_empty());
}

#[test]
fn certificate_and_token_details() {
    let (subject, expiry) = parse_cert_meta("subject=CN=Dylan Westra\nnotAfter=2027-06-01 12:00:00Z\n");
    assert_eq!(subject, "CN=Dylan Westra");
    assert_eq!(expiry, "2027-06-01");
    let (label, model) = parse_token_info(
        "Available slots:\nSlot 0 (0x0): Yubico YubiKey OTP+FIDO+CCID 00 00\n  token label        : Dylan Westra\n  token manufacturer : piv_II\n",
    );
    assert_eq!(label, "Dylan Westra");
    assert_eq!(model, "YubiKey");
    let mut c = cert("CN=Old", "", "01");
    globalprotect::certs::enrich(&mut c, "Dylan Westra", "YubiKey", Some((String::new(), "2027-06-01".into())));
    assert_eq!(c.subject, "CN=Old");
    assert_eq!(c.expiry, "2027-06-01");
    assert_eq!(c.slot, "PIV Authentication");
    assert_eq!(c.token, "Dylan Westra");
}

#[test]
fn pin_value_outside_the_query_is_ignored() {
    let u = parse_pkcs11_uri("pkcs11:pin-value=1;id=%01").unwrap();
    assert_eq!(u.pin, None);
    assert_eq!(u.id, Some(vec![1u8]));
}

#[test]
fn decoding_drops_two_bytes_per_escape() {
    assert_eq!(pct_decode_bytes("a%41%42c").len(), 4);
    assert_eq!(pct_decode_bytes("%zz").len(), 3);
}
