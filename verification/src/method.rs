//! The closed set of request verbs the client can use.

use vstd::prelude::*;
use vstd::string::StringExecFns;
use crate::error::Error;

verus! {

/// A request verb. `Invalid` is a sentinel usable as a default; it is
/// never produced by parsing and never formats to an HTTP wire value.
#[derive(Clone, Copy, Debug, PartialEq, Eq, Structural)]
pub enum HTTPMethod {
    Invalid,
    Delete,
    Get,
    Post,
    MimePost,
    Patch,
    Put,
}

impl HTTPMethod {
    /// The wire spelling of each verb; `Invalid` maps to a diagnostic
    /// marker that is not a verb.
    pub open spec fn format_spec(self) -> Seq<char> {
        match self {
            HTTPMethod::Invalid => "INVALID_HTTP_METHOD"@,
            HTTPMethod::Delete => "DELETE"@,
            HTTPMethod::Get => "GET"@,
            HTTPMethod::Post => "POST"@,
            HTTPMethod::MimePost => "MIMEPOST"@,
            HTTPMethod::Patch => "PATCH"@,
            HTTPMethod::Put => "PUT"@,
        }
    }

    /// Which verb, if any, a string names: an exact, case-sensitive
    /// match against the six known spellings.
    pub open spec fn parse_spec(s: Seq<char>) -> Option<HTTPMethod> {
        if s == "DELETE"@ {
            Some(HTTPMethod::Delete)
        } else if s == "GET"@ {
            Some(HTTPMethod::Get)
        } else if s == "POST"@ {
            Some(HTTPMethod::Post)
        } else if s == "MIMEPOST"@ {
            Some(HTTPMethod::MimePost)
        } else if s == "PATCH"@ {
            Some(HTTPMethod::Patch)
        } else if s == "PUT"@ {
            Some(HTTPMethod::Put)
        } else {
            None
        }
    }

    /// Parses one of the six known verbs; every other string is a
    /// caller mistake and is rejected with `BadParameter`.
    pub fn parse(s: &str) -> (r: Result<HTTPMethod, Error>)
        ensures
            Self::parse_spec(s@) matches Some(m) ==> r == Ok::<HTTPMethod, Error>(m),
            Self::parse_spec(s@) is None ==> r == Err::<HTTPMethod, Error>(Error::BadParameter),
    {
        if str_eq(s, "DELETE") {
            Ok(HTTPMethod::Delete)
        } else if str_eq(s, "GET") {
            Ok(HTTPMethod::Get)
        } else if str_eq(s, "POST") {
            Ok(HTTPMethod::Post)
        } else if str_eq(s, "MIMEPOST") {
            Ok(HTTPMethod::MimePost)
        } else if str_eq(s, "PATCH") {
            Ok(HTTPMethod::Patch)
        } else if str_eq(s, "PUT") {
            Ok(HTTPMethod::Put)
        } else {
            Err(Error::BadParameter)
        }
    }

    /// Formats the verb; total over every variant, including the
    /// sentinel.
    pub fn format(self) -> (r: String)
        ensures
            r@ == self.format_spec(),
    {
        match self {
            HTTPMethod::Invalid => String::from_str("INVALID_HTTP_METHOD"),
            HTTPMethod::Delete => String::from_str("DELETE"),
            HTTPMethod::Get => String::from_str("GET"),
            HTTPMethod::Post => String::from_str("POST"),
            HTTPMethod::MimePost => String::from_str("MIMEPOST"),
            HTTPMethod::Patch => String::from_str("PATCH"),
            HTTPMethod::Put => String::from_str("PUT"),
        }
    }
}

/// Parsing inverts formatting on every verb except the sentinel: the
/// six known spellings round-trip exactly.
pub proof fn lemma_parse_format_round_trip(m: HTTPMethod)
    requires
        m != HTTPMethod::Invalid,
    ensures
        HTTPMethod::parse_spec(m.format_spec()) == Some(m),
{
    lemma_verb_strings_distinct();
}

/// The sentinel's diagnostic marker is not a parseable verb: parsing
/// what `Invalid` formats to fails.
pub proof fn lemma_invalid_never_round_trips()
    ensures
        HTTPMethod::parse_spec(HTTPMethod::Invalid.format_spec()) is None,
{
    lemma_verb_strings_distinct();
}

/// The verb spellings and the sentinel's marker differ pairwise, told
/// apart by their lengths or their first character.
proof fn lemma_verb_strings_distinct()
    ensures
        "DELETE"@.len() == 6,
        "GET"@.len() == 3,
        "POST"@.len() == 4,
        "MIMEPOST"@.len() == 8,
        "PATCH"@.len() == 5,
        "PUT"@.len() == 3,
        "INVALID_HTTP_METHOD"@.len() == 19,
        "GET"@ != "PUT"@,
{
    reveal_strlit("INVALID_HTTP_METHOD");
    reveal_strlit("DELETE");
    reveal_strlit("GET");
    reveal_strlit("POST");
    reveal_strlit("MIMEPOST");
    reveal_strlit("PATCH");
    reveal_strlit("PUT");
    assert("GET"@[0] == 'G');
    assert("PUT"@[0] == 'P');
}

/// Character-for-character string comparison, stated over the views.
fn str_eq(a: &str, b: &str) -> (r: bool)
    ensures
        r == (a@ == b@),
{
    let x: String = a.to_owned();
    let y: String = b.to_owned();
    x == y
}

} // verus!
