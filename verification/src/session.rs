use vstd::prelude::*;
use vstd::utf8::{decode_utf8, valid_utf8};

use xet::error::XetError;
use xet::xet_session::{XetSession, XetSessionBuilder};

use crate::cstr::cstr_to_opt_string;
use crate::last_error::{clear, stored_message, LastError};

verus! {

#[verifier::external_type_specification]
#[verifier::external_body]
pub struct ExXetSession(XetSession);

#[verifier::external_type_specification]
#[verifier::external_body]
pub struct ExXetSessionBuilder(XetSessionBuilder);

#[verifier::external_type_specification]
#[verifier::external_body]
pub struct ExXetError(XetError);

/// `XetSessionBuilder::new`: a builder with the default configuration.
/// Nothing is claimed of the builder.
pub assume_specification[ XetSessionBuilder::new ]() -> XetSessionBuilder;

/// `XetSessionBuilder::build`: creates the session and its runtime. Whether
/// it succeeds depends on the environment and the machine, so nothing is
/// claimed of the result.
pub assume_specification[ XetSessionBuilder::build ](builder: XetSessionBuilder) -> Result<
    XetSession,
    XetError,
>;

/// `XetSession::sigint_abort`: SIGINT-style shutdown of the session's
/// runtime. Nothing is claimed of the result.
pub assume_specification[ XetSession::sigint_abort ](session: &XetSession) -> Result<(), XetError>;

/// `<XetError as Display>`, reached through `to_string`: the error's
/// diagnostic text. Nothing is claimed of the text.
#[verifier::external_body]
fn describe_xet_error(e: &XetError) -> String {
    format!("{e}")
}

/// A handle on one xet session, together with the endpoint and credentials
/// given at creation. The strings are kept for the download groups made
/// later, since authentication is configured per group.
pub struct LlamaXetSession {
    pub inner: XetSession,
    pub endpoint: Option<String>,
    pub bearer_token: Option<String>,
    pub token_refresh_url: Option<String>,
}

/// The text of an optional C-string argument, by its view: none for NULL or
/// non-UTF-8 bytes, otherwise the decoded characters.
pub open spec fn opt_c_text(p: Option<&[u8]>) -> Option<Seq<char>> {
    match p {
        Some(bytes) => if valid_utf8(bytes@) {
            Some(decode_utf8(bytes@))
        } else {
            None
        },
        None => None,
    }
}

/// An optional string by its view.
pub open spec fn opt_view(s: Option<String>) -> Option<Seq<char>> {
    match s {
        Some(t) => Some(t@),
        None => None,
    }
}

/// The message left when the session could not be built, for the builder's
/// error text `detail`.
pub open spec fn build_failure_message(detail: Seq<char>) -> Seq<char> {
    "XetSessionBuilder::build failed: "@ + detail
}

impl LlamaXetSession {
    /// The handle holds exactly the given optional strings.
    pub open spec fn holds(
        &self,
        endpoint: Option<Seq<char>>,
        bearer_token: Option<Seq<char>>,
        token_refresh_url: Option<Seq<char>>,
    ) -> bool {
        &&& opt_view(self.endpoint) == endpoint
        &&& opt_view(self.bearer_token) == bearer_token
        &&& opt_view(self.token_refresh_url) == token_refresh_url
    }
}

/// Completes session creation once the builder has answered: `built` is the
/// session or the builder's error text. On success the handle keeps the
/// three strings; on failure the slot gets the diagnostic and nothing is
/// returned.
pub fn session_from_build(
    slot: &mut LastError,
    endpoint: Option<String>,
    bearer_token: Option<String>,
    token_refresh_url: Option<String>,
    built: Result<XetSession, String>,
) -> (r: Option<Box<LlamaXetSession>>)
    ensures
        match built {
            Ok(inner) => r matches Some(s) && s.inner == inner && s.holds(
                opt_view(endpoint),
                opt_view(bearer_token),
                opt_view(token_refresh_url),
            ) && final(slot).message() == old(slot).message(),
            Err(detail) => r is None && final(slot).message() == stored_message(
                build_failure_message(detail@),
            ),
        },
{
    match built {
        Ok(inner) => Some(Box::new(LlamaXetSession { inner, endpoint, bearer_token, token_refresh_url })),
        Err(detail) => {
            let mut message = "XetSessionBuilder::build failed: ".to_owned();
            message.append(detail.as_str());
            crate::last_error::set(slot, message.as_str());
            None
        },
    }
}

/// Creates a session handle from three optional C-string arguments (`None`
/// for NULL). NULL and non-UTF-8 arguments are kept as absent. The slot is
/// cleared first; if the session cannot be built the slot names the cause
/// and nothing is returned.
pub fn new_inner(
    slot: &mut LastError,
    endpoint: Option<&[u8]>,
    bearer_token: Option<&[u8]>,
    token_refresh_url: Option<&[u8]>,
) -> (r: Option<Box<LlamaXetSession>>)
    ensures
        r matches Some(s) ==> s.holds(
            opt_c_text(endpoint),
            opt_c_text(bearer_token),
            opt_c_text(token_refresh_url),
        ) && final(slot).message() == Seq::<u8>::empty(),
        r is None ==> exists|detail: Seq<char>|
            final(slot).message() == stored_message(#[trigger] build_failure_message(detail)),
{
    clear(slot);
    let endpoint = cstr_to_opt_string(endpoint);
    let bearer_token = cstr_to_opt_string(bearer_token);
    let token_refresh_url = cstr_to_opt_string(token_refresh_url);
    let built = match XetSessionBuilder::new().build() {
        Ok(inner) => Ok(inner),
        Err(e) => Err(describe_xet_error(&e)),
    };
    session_from_build(slot, endpoint, bearer_token, token_refresh_url, built)
}

/// Requests cancellation of the in-flight work of a session; `None` stands
/// for a NULL handle and does nothing. Whether the runtime accepted the
/// request is not reported.
pub fn abort_inner(session: Option<&LlamaXetSession>) {
    if let Some(s) = session {
        let _ = s.inner.sigint_abort();
    }
}

} // verus!
