use auth_pipeline::paseto::header;
use auth_pipeline::paseto::Header;

#[test]
fn paseto_test_header() {
    let header = header(&[("aud", "https://example.com"), ("sub", "http://example.com")]);

    println!("{:#?}", header);
}

#[test]
fn lib_test_header() {
    let header = header(&[("aud", "https://example.com"), ("sub", "http://example.com")]);

    println!("{:#?}", header);
    assert_eq!(
        header,
        Header {
            aud: Some("https://example.com"),
            sub: Some("http://example.com"),
            ..Default::default()
        }
    );
}

#[test]
fn header_of_three_claims() {
    let header = header(&[("aud", "aud"), ("sub", "sub"), ("iss", "iss")]);
    assert_eq!(
        header,
        Header { aud: Some("aud"), sub: Some("sub"), iss: Some("iss"), ..Default::default() }
    );
}

#[test]
fn every_claim_has_its_field() {
    let header = header(&[
        ("aud", "1"),
        ("sub", "2"),
        ("iss", "3"),
        ("tid", "4"),
        ("nbf", "5"),
        ("iat", "6"),
        ("exp", "7"),
        ("ftr", "8"),
        ("ixa", "9"),
    ]);
    assert_eq!(
        header,
        Header {
            aud: Some("1"),
            sub: Some("2"),
            iss: Some("3"),
            tid: Some("4"),
            nbf: Some("5"),
            iat: Some("6"),
            exp: Some("7"),
            ftr: Some("8"),
            ixa: Some("9"),
        }
    );
}

#[test]
fn an_unknown_claim_is_passed_over() {
    let header = header(&[("jti", "x"), ("AUD", "y"), ("", "z"), ("aud2", "w")]);
    assert_eq!(header, Header::default());
}

#[test]
fn the_later_of_two_values_stays() {
    let mut header = header(&[("exp", "1"), ("exp", "2")]);
    assert_eq!(header.exp, Some("2"));
    header.set("exp", "3");
    header.set("nope", "4");
    assert_eq!(header, Header { exp: Some("3"), ..Default::default() });
}

#[test]
fn header_of_nothing_is_the_default() {
    assert_eq!(header(&[]), Header::default());
}
