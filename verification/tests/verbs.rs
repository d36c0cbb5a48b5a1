use accord::{Error, HTTPMethod};

#[test]
fn parse_known_verbs() {
    assert_eq!(HTTPMethod::parse("DELETE"), Ok(HTTPMethod::Delete));
    assert_eq!(HTTPMethod::parse("GET"), Ok(HTTPMethod::Get));
    assert_eq!(HTTPMethod::parse("POST"), Ok(HTTPMethod::Post));
    assert_eq!(HTTPMethod::parse("MIMEPOST"), Ok(HTTPMethod::MimePost));
    assert_eq!(HTTPMethod::parse("PATCH"), Ok(HTTPMethod::Patch));
    assert_eq!(HTTPMethod::parse("PUT"), Ok(HTTPMethod::Put));
}

#[test]
fn parse_format_round_trips() {
    let verbs = [
        HTTPMethod::Delete,
        HTTPMethod::Get,
        HTTPMethod::Post,
        HTTPMethod::MimePost,
        HTTPMethod::Patch,
        HTTPMethod::Put,
    ];
    for verb in verbs {
        assert_eq!(HTTPMethod::parse(&verb.format()), Ok(verb));
    }
}

#[test]
fn parse_rejects_unknown_strings() {
    assert_eq!(HTTPMethod::parse("OPTIONS"), Err(Error::BadParameter));
    assert_eq!(HTTPMethod::parse(""), Err(Error::BadParameter));
    assert_eq!(HTTPMethod::parse("get"), Err(Error::BadParameter));
    assert_eq!(HTTPMethod::parse("GET "), Err(Error::BadParameter));
    assert_eq!(HTTPMethod::parse("INVALID_HTTP_METHOD"), Err(Error::BadParameter));
}

#[test]
fn format_verbs() {
    assert_eq!(HTTPMethod::Delete.format(), "DELETE");
    assert_eq!(HTTPMethod::Get.format(), "GET");
    assert_eq!(HTTPMethod::Post.format(), "POST");
    assert_eq!(HTTPMethod::MimePost.format(), "MIMEPOST");
    assert_eq!(HTTPMethod::Patch.format(), "PATCH");
    assert_eq!(HTTPMethod::Put.format(), "PUT");
    assert_eq!(HTTPMethod::Invalid.format(), "INVALID_HTTP_METHOD");
}
