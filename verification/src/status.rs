//! Classification of HTTP status outcomes into named categories.

use vstd::prelude::*;
use vstd::string::StringExecFns;

verus! {

/// A classified HTTP status outcome: one of the twelve named codes,
/// `Other` for any further numeric code (bucketed by hundreds), or
/// `NoResponse` when the transport obtained no status line at all.
#[derive(Clone, Copy, Debug, PartialEq, Eq, Structural)]
pub enum HTTPStatusCode {
    Okay,
    Created,
    NoContent,
    NotModified,
    BadRequest,
    Unauthorized,
    Forbidden,
    NotFound,
    MethodNotAllowed,
    UnprocessableEntity,
    TooManyRequests,
    GatewayUnavailable,
    Other(i32),
    NoResponse,
}

impl HTTPStatusCode {
    /// What a raw status outcome classifies to: the named variant for
    /// the twelve known codes, `Other` for every further number, and
    /// the `NoResponse` sentinel when no code was received.
    pub open spec fn classify_spec(code: Option<i32>) -> HTTPStatusCode {
        match code {
            Option::None => HTTPStatusCode::NoResponse,
            Option::Some(c) => if c == 200 {
                HTTPStatusCode::Okay
            } else if c == 201 {
                HTTPStatusCode::Created
            } else if c == 204 {
                HTTPStatusCode::NoContent
            } else if c == 304 {
                HTTPStatusCode::NotModified
            } else if c == 400 {
                HTTPStatusCode::BadRequest
            } else if c == 401 {
                HTTPStatusCode::Unauthorized
            } else if c == 403 {
                HTTPStatusCode::Forbidden
            } else if c == 404 {
                HTTPStatusCode::NotFound
            } else if c == 405 {
                HTTPStatusCode::MethodNotAllowed
            } else if c == 422 {
                HTTPStatusCode::UnprocessableEntity
            } else if c == 429 {
                HTTPStatusCode::TooManyRequests
            } else if c == 502 {
                HTTPStatusCode::GatewayUnavailable
            } else {
                HTTPStatusCode::Other(c)
            },
        }
    }

    /// A classification counts as success exactly when its code lies
    /// in the 200 or 300 hundred: the named 2xx/3xx codes, or an
    /// `Other` code in 200..=399.
    pub open spec fn is_success(self) -> bool {
        match self {
            HTTPStatusCode::Okay => true,
            HTTPStatusCode::Created => true,
            HTTPStatusCode::NoContent => true,
            HTTPStatusCode::NotModified => true,
            HTTPStatusCode::Other(c) => 200 <= c <= 399,
            _ => false,
        }
    }

    /// A classification is unusual when its code lies outside every
    /// known hundred (below 100 or at least 600), or when no code was
    /// received at all.
    pub open spec fn is_unusual(self) -> bool {
        match self {
            HTTPStatusCode::Other(c) => c < 100 || c > 599,
            HTTPStatusCode::NoResponse => true,
            _ => false,
        }
    }

    /// Classifies a raw status outcome; total over every integer and
    /// over the absence of a code.
    pub fn classify(code: Option<i32>) -> (r: HTTPStatusCode)
        ensures
            r == Self::classify_spec(code),
    {
        match code {
            None => HTTPStatusCode::NoResponse,
            Some(c) => match c {
                200 => HTTPStatusCode::Okay,
                201 => HTTPStatusCode::Created,
                204 => HTTPStatusCode::NoContent,
                304 => HTTPStatusCode::NotModified,
                400 => HTTPStatusCode::BadRequest,
                401 => HTTPStatusCode::Unauthorized,
                403 => HTTPStatusCode::Forbidden,
                404 => HTTPStatusCode::NotFound,
                405 => HTTPStatusCode::MethodNotAllowed,
                422 => HTTPStatusCode::UnprocessableEntity,
                429 => HTTPStatusCode::TooManyRequests,
                502 => HTTPStatusCode::GatewayUnavailable,
                _ => HTTPStatusCode::Other(c),
            },
        }
    }

    /// Whether this classification counts as success, exactly as
    /// `is_success` says.
    pub fn is_success_code(&self) -> (r: bool)
        ensures
            r == self.is_success(),
    {
        match self {
            HTTPStatusCode::Okay => true,
            HTTPStatusCode::Created => true,
            HTTPStatusCode::NoContent => true,
            HTTPStatusCode::NotModified => true,
            HTTPStatusCode::Other(c) => 200 <= *c && *c <= 399,
            _ => false,
        }
    }

    /// Whether this classification is unusual, exactly as
    /// `is_unusual` says.
    pub fn is_unusual_code(&self) -> (r: bool)
        ensures
            r == self.is_unusual(),
    {
        match self {
            HTTPStatusCode::Other(c) => *c < 100 || *c > 599,
            HTTPStatusCode::NoResponse => true,
            _ => false,
        }
    }

    /// The short uppercase label of each classification; `Other` is
    /// bucketed by its hundreds digit, with codes outside 100..=599
    /// and the `NoResponse` sentinel sharing the unusual marker.
    pub open spec fn label_spec(self) -> Seq<char> {
        match self {
            HTTPStatusCode::Okay => "OK"@,
            HTTPStatusCode::Created => "CREATED"@,
            HTTPStatusCode::NoContent => "NO_CONTENT"@,
            HTTPStatusCode::NotModified => "NOT_MODIFIED"@,
            HTTPStatusCode::BadRequest => "BAD_REQUEST"@,
            HTTPStatusCode::Unauthorized => "UNAUTHORIZED"@,
            HTTPStatusCode::Forbidden => "FORBIDDEN"@,
            HTTPStatusCode::NotFound => "NOT_FOUND"@,
            HTTPStatusCode::MethodNotAllowed => "METHOD_NOT_ALLOWED"@,
            HTTPStatusCode::UnprocessableEntity => "UNPROCESSABLE_ENTITY"@,
            HTTPStatusCode::TooManyRequests => "TOO_MANY_REQUESTS"@,
            HTTPStatusCode::GatewayUnavailable => "GATEWAY_UNAVAILABLE"@,
            HTTPStatusCode::Other(c) => if 100 <= c <= 199 {
                "1xx_INFO"@
            } else if 200 <= c <= 299 {
                "2xx_SUCCESS"@
            } else if 300 <= c <= 399 {
                "3xx_REDIRECTING"@
            } else if 400 <= c <= 499 {
                "4xx_CLIENT_ERROR"@
            } else if 500 <= c <= 599 {
                "5xx_SERVER_ERROR"@
            } else {
                "UNUSUAL_HTTP_CODE"@
            },
            HTTPStatusCode::NoResponse => "UNUSUAL_HTTP_CODE"@,
        }
    }

    /// The human-readable reason of each classification, total over
    /// every variant and every `Other` bucket.
    pub open spec fn reason_spec(self) -> Seq<char> {
        match self {
            HTTPStatusCode::Okay => "The request was completed successfully."@,
            HTTPStatusCode::Created => "The entity was created successfully."@,
            HTTPStatusCode::NoContent => "The request completed successfully but returned no content."@,
            HTTPStatusCode::NotModified => "The entity was not modified (no action was taken)."@,
            HTTPStatusCode::BadRequest => "The request was improperly formatted, or the server couldn't understand it."@,
            HTTPStatusCode::Unauthorized => "The authorization header was missing or invalid."@,
            HTTPStatusCode::Forbidden => "The authorization token you passed did not have permission to the resource."@,
            HTTPStatusCode::NotFound => "The resource at the location specified doesn't exist."@,
            HTTPStatusCode::MethodNotAllowed => "The HTTP method used is not valid for the location specified."@,
            HTTPStatusCode::UnprocessableEntity => "The entity was unprocessable."@,
            HTTPStatusCode::TooManyRequests => "You got rate-limited."@,
            HTTPStatusCode::GatewayUnavailable => "There was not a gateway available to process your request. Wait a bit and retry."@,
            HTTPStatusCode::Other(c) => if 100 <= c <= 199 {
                "The request was received, understood and accepted. The client must wait for a final response."@
            } else if 200 <= c <= 299 {
                "The action request was received, understood, and accepted."@
            } else if 300 <= c <= 399 {
                "Client requires taking additional action to complete the request."@
            } else if 400 <= c <= 499 {
                "Client side error, request couldn't be processed."@
            } else if 500 <= c <= 599 {
                "The server had an error processing your request."@
            } else {
                "Unusual HTTP code."@
            },
            HTTPStatusCode::NoResponse => "Transport library could not obtain an HTTP response."@,
        }
    }

    /// The short uppercase label; total over every classification.
    pub fn label(&self) -> (r: String)
        ensures
            r@ == self.label_spec(),
    {
        match self {
            HTTPStatusCode::Okay => String::from_str("OK"),
            HTTPStatusCode::Created => String::from_str("CREATED"),
            HTTPStatusCode::NoContent => String::from_str("NO_CONTENT"),
            HTTPStatusCode::NotModified => String::from_str("NOT_MODIFIED"),
            HTTPStatusCode::BadRequest => String::from_str("BAD_REQUEST"),
            HTTPStatusCode::Unauthorized => String::from_str("UNAUTHORIZED"),
            HTTPStatusCode::Forbidden => String::from_str("FORBIDDEN"),
            HTTPStatusCode::NotFound => String::from_str("NOT_FOUND"),
            HTTPStatusCode::MethodNotAllowed => String::from_str("METHOD_NOT_ALLOWED"),
            HTTPStatusCode::UnprocessableEntity => String::from_str("UNPROCESSABLE_ENTITY"),
            HTTPStatusCode::TooManyRequests => String::from_str("TOO_MANY_REQUESTS"),
            HTTPStatusCode::GatewayUnavailable => String::from_str("GATEWAY_UNAVAILABLE"),
            HTTPStatusCode::Other(c) => if 100 <= *c && *c <= 199 {
                String::from_str("1xx_INFO")
            } else if 200 <= *c && *c <= 299 {
                String::from_str("2xx_SUCCESS")
            } else if 300 <= *c && *c <= 399 {
                String::from_str("3xx_REDIRECTING")
            } else if 400 <= *c && *c <= 499 {
                String::from_str("4xx_CLIENT_ERROR")
            } else if 500 <= *c && *c <= 599 {
                String::from_str("5xx_SERVER_ERROR")
            } else {
                String::from_str("UNUSUAL_HTTP_CODE")
            },
            HTTPStatusCode::NoResponse => String::from_str("UNUSUAL_HTTP_CODE"),
        }
    }

    /// The human-readable reason; total over every classification.
    pub fn reason(&self) -> (r: String)
        ensures
            r@ == self.reason_spec(),
    {
        match self {
            HTTPStatusCode::Okay => String::from_str("The request was completed successfully."),
            HTTPStatusCode::Created => String::from_str("The entity was created successfully."),
            HTTPStatusCode::NoContent => String::from_str("The request completed successfully but returned no content."),
            HTTPStatusCode::NotModified => String::from_str("The entity was not modified (no action was taken)."),
            HTTPStatusCode::BadRequest => String::from_str("The request was improperly formatted, or the server couldn't understand it."),
            HTTPStatusCode::Unauthorized => String::from_str("The authorization header was missing or invalid."),
            HTTPStatusCode::Forbidden => String::from_str("The authorization token you passed did not have permission to the resource."),
            HTTPStatusCode::NotFound => String::from_str("The resource at the location specified doesn't exist."),
            HTTPStatusCode::MethodNotAllowed => String::from_str("The HTTP method used is not valid for the location specified."),
            HTTPStatusCode::UnprocessableEntity => String::from_str("The entity was unprocessable."),
            HTTPStatusCode::TooManyRequests => String::from_str("You got rate-limited."),
            HTTPStatusCode::GatewayUnavailable => String::from_str("There was not a gateway available to process your request. Wait a bit and retry."),
            HTTPStatusCode::Other(c) => if 100 <= *c && *c <= 199 {
                String::from_str("The request was received, understood and accepted. The client must wait for a final response.")
            } else if 200 <= *c && *c <= 299 {
                String::from_str("The action request was received, understood, and accepted.")
            } else if 300 <= *c && *c <= 399 {
                String::from_str("Client requires taking additional action to complete the request.")
            } else if 400 <= *c && *c <= 499 {
                String::from_str("Client side error, request couldn't be processed.")
            } else if 500 <= *c && *c <= 599 {
                String::from_str("The server had an error processing your request.")
            } else {
                String::from_str("Unusual HTTP code.")
            },
            HTTPStatusCode::NoResponse => String::from_str("Transport library could not obtain an HTTP response."),
        }
    }
}

/// Labels and reasons are total and never empty: every classification,
/// including every `Other` bucket and the `NoResponse` sentinel, has a
/// non-empty label and a non-empty reason.
pub proof fn lemma_label_reason_nonempty(s: HTTPStatusCode)
    ensures
        s.label_spec().len() > 0,
        s.reason_spec().len() > 0,
{
    reveal_strlit("OK");
    reveal_strlit("CREATED");
    reveal_strlit("NO_CONTENT");
    reveal_strlit("NOT_MODIFIED");
    reveal_strlit("BAD_REQUEST");
    reveal_strlit("UNAUTHORIZED");
    reveal_strlit("FORBIDDEN");
    reveal_strlit("NOT_FOUND");
    reveal_strlit("METHOD_NOT_ALLOWED");
    reveal_strlit("UNPROCESSABLE_ENTITY");
    reveal_strlit("TOO_MANY_REQUESTS");
    reveal_strlit("GATEWAY_UNAVAILABLE");
    reveal_strlit("1xx_INFO");
    reveal_strlit("2xx_SUCCESS");
    reveal_strlit("3xx_REDIRECTING");
    reveal_strlit("4xx_CLIENT_ERROR");
    reveal_strlit("5xx_SERVER_ERROR");
    reveal_strlit("UNUSUAL_HTTP_CODE");
    reveal_strlit("The request was completed successfully.");
    reveal_strlit("The entity was created successfully.");
    reveal_strlit("The request completed successfully but returned no content.");
    reveal_strlit("The entity was not modified (no action was taken).");
    reveal_strlit("The request was improperly formatted, or the server couldn't understand it.");
    reveal_strlit("The authorization header was missing or invalid.");
    reveal_strlit("The authorization token you passed did not have permission to the resource.");
    reveal_strlit("The resource at the location specified doesn't exist.");
    reveal_strlit("The HTTP method used is not valid for the location specified.");
    reveal_strlit("The entity was unprocessable.");
    reveal_strlit("You got rate-limited.");
    reveal_strlit("There was not a gateway available to process your request. Wait a bit and retry.");
    reveal_strlit("The request was received, understood and accepted. The client must wait for a final response.");
    reveal_strlit("The action request was received, understood, and accepted.");
    reveal_strlit("Client requires taking additional action to complete the request.");
    reveal_strlit("Client side error, request couldn't be processed.");
    reveal_strlit("The server had an error processing your request.");
    reveal_strlit("Unusual HTTP code.");
    reveal_strlit("Transport library could not obtain an HTTP response.");
}

/// Every status in the known range 100..=599 classifies into a named
/// variant or into an in-range `Other` bucket, never into the unusual
/// one; codes outside that range always land in the unusual bucket.
pub proof fn lemma_classify_bucket_bounds(c: i32)
    ensures
        100 <= c <= 599 ==> !HTTPStatusCode::classify_spec(Some(c)).is_unusual(),
        (c < 100 || c > 599) ==> HTTPStatusCode::classify_spec(Some(c)).is_unusual(),
{
}

} // verus!
