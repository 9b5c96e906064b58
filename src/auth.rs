use base64::Engine;
use vstd::prelude::*;

verus! {

/// The standard, padded base64 text of the UTF-8 bytes of a text.
pub uninterp spec fn base64_of(s: Seq<char>) -> Seq<char>;

/// Relies on `base64::Engine::encode` of the `STANDARD` engine: the padded base64 text of the
/// bytes it is given, which depends on those bytes alone. It panics only where the length of
/// the output overflows `usize`, which no `&str` can reach.
#[verifier::external_body]
fn encode_base64(s: &str) -> (r: String)
    ensures
        r@ == base64_of(s@),
{
    base64::engine::general_purpose::STANDARD.encode(s)
}

/// The text that signs a request in with HTTP Basic authentication.
pub open spec fn basic_auth_view(email: Seq<char>, token: Seq<char>) -> Seq<char> {
    "Basic "@ + base64_of(email + ":"@ + token)
}

/// The `Authorization` header value for `email` and `token`:
/// `Basic ` and the base64 text of `email:token`.
pub fn basic_auth(email: &str, token: &str) -> (r: String)
    ensures
        r@ == basic_auth_view(email@, token@),
{
    let mut pair = String::from_str(email);
    pair.append(":");
    pair.append(token);
    let mut r = String::from_str("Basic ");
    r.append(encode_base64(pair.as_str()).as_str());
    r
}

} // verus!
