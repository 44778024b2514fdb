use engine::data_uri::{DataURI, Error};

#[test]
fn recognises_data_uris() {
    assert!(DataURI::is_data_uri("data:,x"));
    assert!(DataURI::is_data_uri("data:"));
    assert!(!DataURI::is_data_uri("dat"));
    assert!(!DataURI::is_data_uri("Data:,x"));
    assert!(!DataURI::is_data_uri("model.bin"));
}

#[test]
fn base64_data_decodes() {
    let uri = DataURI::new("data:text/plain;base64,SGVsbG8=").unwrap();
    assert_eq!(uri.get_data().unwrap(), b"Hello".to_vec());
}

#[test]
fn plain_data_is_kept() {
    let uri = DataURI::new("data:,hello").unwrap();
    assert_eq!(uri.get_data().unwrap(), b"hello".to_vec());
}

#[test]
fn data_after_the_first_comma_keeps_later_commas() {
    let uri = DataURI::new("data:,a,b").unwrap();
    assert_eq!(uri.get_data().unwrap(), b"a,b".to_vec());
}

#[test]
fn percent_escapes_are_checked_and_skipped() {
    let uri = DataURI::new("data:,a%41b").unwrap();
    assert_eq!(uri.get_data().unwrap(), b"ab".to_vec());
}

#[test]
fn short_percent_escape_is_refused() {
    let uri = DataURI::new("data:,abc%4").unwrap();
    assert!(matches!(uri.get_data(), Err(Error::PercentEncoding)));
}

#[test]
fn percent_escape_that_is_not_hex_is_refused() {
    let uri = DataURI::new("data:,%zz").unwrap();
    assert!(matches!(uri.get_data(), Err(Error::IntParse(_))));
}

#[test]
fn percent_escape_that_is_not_utf8_is_refused() {
    let uri = DataURI::new("data:,%a\u{e9}").unwrap();
    assert!(matches!(uri.get_data(), Err(Error::UTF8(_))));
}

#[test]
fn bad_base64_is_refused() {
    let uri = DataURI::new("data:;base64,@@@").unwrap();
    assert!(matches!(uri.get_data(), Err(Error::Base64Decode(_))));
}

#[test]
fn uri_without_comma_has_no_header() {
    assert!(matches!(DataURI::new("data:text/plain"), Err(Error::GetHeader)));
}

#[test]
fn uri_parameters_are_refused() {
    assert!(matches!(
        DataURI::new("data:text/plain;charset=utf-8,abc"),
        Err(Error::UriParameter)
    ));
}

#[test]
fn short_uri_without_comma_has_no_header() {
    assert!(matches!(DataURI::new("abc"), Err(Error::GetHeader)));
}

#[test]
fn data_uri_error_messages() {
    assert_eq!(Error::UriParameter.message(), "Uri parameters unsupported");
    assert_eq!(
        Error::PercentEncoding.message(),
        "Url decode error: length too short in % encoding"
    );
}
