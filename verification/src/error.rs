//! The error type shared by the credential loader, the HTTP client and the
//! poller, and the messages shown for each kind of failure.

use vstd::prelude::*;
use vstd::string::*;
use crate::text::{concat2, concat3, decimal, u64_to_string};

verus! {

/// `std::io::Error`, carried through as an opaque value.
#[verifier::external_type_specification]
#[verifier::external_body]
pub struct ExIoError(std::io::Error);

/// `serde_json::Error`, carried through as an opaque value.
#[verifier::external_type_specification]
#[verifier::external_body]
pub struct ExJsonError(serde_json::Error);

/// Every way a fetch of the usage data can fail.
#[derive(Debug)]
pub enum HudError {
    CredsMissing(String),
    CredsInvalid(String),
    AuthRequired,
    RateLimited { retry_after: u64 },
    Http(String),
    Io(std::io::Error),
    Json(serde_json::Error),
}

/// Separator between an error and each of its causes in an HTTP error message.
pub open spec fn cause_separator() -> Seq<char> {
    " \u{2014} caused by: "@
}

/// The messages of an error chain joined by the cause separator.
pub open spec fn joined_chain(chain: Seq<Seq<char>>) -> Seq<char>
    decreases chain.len(),
{
    if chain.len() == 0 {
        Seq::empty()
    } else if chain.len() == 1 {
        chain[0]
    } else {
        joined_chain(chain.drop_last()) + cause_separator() + chain.last()
    }
}

/// The message of an error whose text does not come from an opaque source
/// error; `None` for `Io` and `Json`, whose text comes from the wrapped error.
pub open spec fn fixed_message(e: HudError) -> Option<Seq<char>> {
    match e {
        HudError::CredsMissing(p) => Some("credentials file not found at "@ + p@),
        HudError::CredsInvalid(m) => Some("credentials file invalid: "@ + m@),
        HudError::AuthRequired => Some("auth required (token rejected by server)"@),
        HudError::RateLimited { retry_after } => Some(
            "rate limited; retry after "@ + decimal(retry_after as nat) + "s"@,
        ),
        HudError::Http(m) => Some("http error: "@ + m@),
        HudError::Io(_) => None,
        HudError::Json(_) => None,
    }
}

/// The prefix that starts the message of an `Io` or `Json` error.
pub open spec fn wrapped_prefix(e: HudError) -> Seq<char> {
    match e {
        HudError::Io(_) => "io error: "@,
        _ => "json error: "@,
    }
}

/// The message of `e` when the wrapped error of an `Io` or `Json` error
/// reads `detail`: the fixed message, or the prefix of its kind followed by
/// `detail`.
pub open spec fn spec_message(e: HudError, detail: Seq<char>) -> Seq<char> {
    match fixed_message(e) {
        Some(m) => m,
        None => wrapped_prefix(e) + detail,
    }
}

/// Whether `text` is the message of `e`: the fixed message where there is
/// one, else a text that starts with the prefix of its kind followed by the
/// wrapped error's own text.
pub open spec fn is_message_of(e: HudError, text: Seq<char>) -> bool {
    match fixed_message(e) {
        Some(m) => text == m,
        None => text.len() >= wrapped_prefix(e).len() && text.subrange(
            0,
            wrapped_prefix(e).len() as int,
        ) == wrapped_prefix(e),
    }
}

/// Renders a wrapped `std::io::Error` through its `Display` impl. The text
/// comes from the operating system and is not described here.
#[verifier::external_body]
fn io_error_text(e: &std::io::Error) -> String {
    e.to_string()
}

/// Renders a wrapped `serde_json::Error` through its `Display` impl. The text
/// depends on the parser's internal state and is not described here.
#[verifier::external_body]
fn json_error_text(e: &serde_json::Error) -> String {
    e.to_string()
}

impl HudError {
    /// The message of the error when it does not come from a wrapped error.
    fn fixed_text(&self) -> (r: Option<String>)
        ensures
            fixed_message(*self) matches Some(m) ==> (r matches Some(t) && t@ == m),
            fixed_message(*self) is None ==> r is None,
    {
        match self {
            HudError::CredsMissing(p) => Some(concat2("credentials file not found at ", p.as_str())),
            HudError::CredsInvalid(m) => Some(concat2("credentials file invalid: ", m.as_str())),
            HudError::AuthRequired => Some("auth required (token rejected by server)".to_owned()),
            HudError::RateLimited { retry_after } => {
                let n = u64_to_string(*retry_after);
                Some(concat3("rate limited; retry after ", n.as_str(), "s"))
            },
            HudError::Http(m) => Some(concat2("http error: ", m.as_str())),
            HudError::Io(_) => None,
            HudError::Json(_) => None,
        }
    }

    /// The human readable message of the error, given the text `detail` of
    /// the wrapped error for `Io` and `Json` errors (ignored for the others).
    pub fn message_with_detail(&self, detail: &str) -> (r: String)
        ensures
            r@ == spec_message(*self, detail@),
    {
        match self.fixed_text() {
            Some(t) => t,
            None => match self {
                HudError::Io(_) => concat2("io error: ", detail),
                _ => concat2("json error: ", detail),
            },
        }
    }

    /// The human readable message of the error, as shown in the status line:
    /// for `Io` and `Json` errors, the message whose detail is the wrapped
    /// error's own text.
    pub fn message(&self) -> (r: String)
        ensures
            is_message_of(*self, r@),
            fixed_message(*self) is None ==> exists|d: Seq<char>| r@ == spec_message(*self, d),
    {
        let detail = match self {
            HudError::Io(e) => io_error_text(e),
            HudError::Json(e) => json_error_text(e),
            _ => String::new(),
        };
        let r = self.message_with_detail(detail.as_str());
        proof {
            if fixed_message(*self) is None {
                assert(r@ == spec_message(*self, detail@));
                assert(r@.subrange(0, wrapped_prefix(*self).len() as int) =~= wrapped_prefix(*self));
            }
        }
        r
    }

    /// The `Http` error built from a failed request: the request error's own
    /// message followed by the message of each of its causes, outermost first,
    /// joined by " — caused by: ".
    pub fn from_error_chain(chain: &Vec<String>) -> (r: HudError)
        ensures
            r matches HudError::Http(m) && m@ == joined_chain(chain@.map_values(|s: String| s@)),
    {
        let ghost views = chain@.map_values(|s: String| s@);
        let mut msg = String::new();
        let mut i: usize = 0;
        while i < chain.len()
            invariant
                i <= chain.len(),
                views == chain@.map_values(|s: String| s@),
                msg@ == joined_chain(views.take(i as int)),
            decreases chain.len() - i,
        {
            if i > 0 {
                msg.append(" \u{2014} caused by: ");
            }
            msg.append(chain[i].as_str());
            assert(views.take(i + 1).drop_last() =~= views.take(i as int));
            i = i + 1;
        }
        assert(views.take(chain.len() as int) =~= views);
        HudError::Http(msg)
    }
}

} // verus!
