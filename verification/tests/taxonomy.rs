use accord::HTTPStatusCode;

#[test]
fn classify_named_codes() {
    assert_eq!(HTTPStatusCode::classify(Some(200)), HTTPStatusCode::Okay);
    assert_eq!(HTTPStatusCode::classify(Some(201)), HTTPStatusCode::Created);
    assert_eq!(HTTPStatusCode::classify(Some(204)), HTTPStatusCode::NoContent);
    assert_eq!(HTTPStatusCode::classify(Some(304)), HTTPStatusCode::NotModified);
    assert_eq!(HTTPStatusCode::classify(Some(400)), HTTPStatusCode::BadRequest);
    assert_eq!(HTTPStatusCode::classify(Some(401)), HTTPStatusCode::Unauthorized);
    assert_eq!(HTTPStatusCode::classify(Some(403)), HTTPStatusCode::Forbidden);
    assert_eq!(HTTPStatusCode::classify(Some(404)), HTTPStatusCode::NotFound);
    assert_eq!(HTTPStatusCode::classify(Some(405)), HTTPStatusCode::MethodNotAllowed);
    assert_eq!(HTTPStatusCode::classify(Some(422)), HTTPStatusCode::UnprocessableEntity);
    assert_eq!(HTTPStatusCode::classify(Some(429)), HTTPStatusCode::TooManyRequests);
    assert_eq!(HTTPStatusCode::classify(Some(502)), HTTPStatusCode::GatewayUnavailable);
}

#[test]
fn classify_whole_known_range() {
    let named = [200, 201, 204, 304, 400, 401, 403, 404, 405, 422, 429, 502];
    for code in 100..=599 {
        let classified = HTTPStatusCode::classify(Some(code));
        if named.contains(&code) {
            assert_ne!(classified, HTTPStatusCode::Other(code));
        } else {
            assert_eq!(classified, HTTPStatusCode::Other(code));
        }
        assert!(!classified.label().is_empty());
        assert!(!classified.reason().is_empty());
    }
}

#[test]
fn classify_out_of_range_codes() {
    for code in [-50, -1, 0, 42, 99, 600, 601, 9999] {
        let classified = HTTPStatusCode::classify(Some(code));
        assert_eq!(classified, HTTPStatusCode::Other(code));
        assert!(classified.is_unusual_code());
        assert_eq!(classified.label(), "UNUSUAL_HTTP_CODE");
        assert!(!classified.reason().is_empty());
    }
}

#[test]
fn classify_no_status() {
    let classified = HTTPStatusCode::classify(None);
    assert_eq!(classified, HTTPStatusCode::NoResponse);
    assert_eq!(classified.label(), "UNUSUAL_HTTP_CODE");
    assert_eq!(
        classified.reason(),
        "Transport library could not obtain an HTTP response."
    );
}

#[test]
fn labels_of_buckets() {
    assert_eq!(HTTPStatusCode::Other(150).label(), "1xx_INFO");
    assert_eq!(HTTPStatusCode::Other(299).label(), "2xx_SUCCESS");
    assert_eq!(HTTPStatusCode::Other(301).label(), "3xx_REDIRECTING");
    assert_eq!(HTTPStatusCode::Other(418).label(), "4xx_CLIENT_ERROR");
    assert_eq!(HTTPStatusCode::Other(599).label(), "5xx_SERVER_ERROR");
    assert_eq!(HTTPStatusCode::Okay.label(), "OK");
    assert_eq!(HTTPStatusCode::MethodNotAllowed.label(), "METHOD_NOT_ALLOWED");
    assert_eq!(HTTPStatusCode::TooManyRequests.label(), "TOO_MANY_REQUESTS");
    assert_eq!(HTTPStatusCode::GatewayUnavailable.label(), "GATEWAY_UNAVAILABLE");
}

#[test]
fn reasons_of_named_codes() {
    assert_eq!(
        HTTPStatusCode::Okay.reason(),
        "The request was completed successfully."
    );
    assert_eq!(HTTPStatusCode::TooManyRequests.reason(), "You got rate-limited.");
    assert_eq!(
        HTTPStatusCode::Other(166).reason(),
        "The request was received, understood and accepted. The client must wait for a final response."
    );
    assert_eq!(HTTPStatusCode::Other(700).reason(), "Unusual HTTP code.");
}

#[test]
fn success_range_boundaries() {
    assert!(HTTPStatusCode::classify(Some(200)).is_success_code());
    assert!(HTTPStatusCode::classify(Some(304)).is_success_code());
    assert!(HTTPStatusCode::classify(Some(399)).is_success_code());
    assert!(!HTTPStatusCode::classify(Some(199)).is_success_code());
    assert!(!HTTPStatusCode::classify(Some(400)).is_success_code());
    assert!(!HTTPStatusCode::classify(None).is_success_code());
}
