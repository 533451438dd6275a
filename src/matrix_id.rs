use vstd::prelude::*;

use matrix_sdk::ruma::UserId;

verus! {

/// The text is a user id that ruma accepts.
pub uninterp spec fn is_user_id(s: Seq<char>) -> bool;

/// The localpart of a user id: what stands between `@` and the first `:`.
pub uninterp spec fn localpart_of(s: Seq<char>) -> Seq<char>;

/// The host of the server of a user id, without its port.
pub uninterp spec fn host_of(s: Seq<char>) -> Seq<char>;

/// The `matrix.to` link of a user id.
pub uninterp spec fn matrix_to_of(s: Seq<char>) -> Seq<char>;

/// Relies on ruma's UserId::localpart, after UserId::parse has read the text
/// (`None` where it refuses it).
#[verifier::external_body]
pub(crate) fn user_localpart(user_id: &str) -> (r: Option<String>)
    ensures
        r is Some <==> is_user_id(user_id@),
        r matches Some(l) ==> l@ == localpart_of(user_id@),
{
    UserId::parse(user_id).ok().map(|u| u.localpart().to_owned())
}

/// Relies on ruma's ServerName::host, of the server name that
/// UserId::server_name gives after UserId::parse has read the text (`None`
/// where it refuses it).
#[verifier::external_body]
pub(crate) fn user_host(user_id: &str) -> (r: Option<String>)
    ensures
        r is Some <==> is_user_id(user_id@),
        r matches Some(h) ==> h@ == host_of(user_id@),
{
    UserId::parse(user_id).ok().map(|u| u.server_name().host().to_owned())
}

/// Relies on ruma's UserId::matrix_to_uri, written out, after UserId::parse
/// has read the text (`None` where it refuses it).
#[verifier::external_body]
pub(crate) fn user_link(user_id: &str) -> (r: Option<String>)
    ensures
        r is Some <==> is_user_id(user_id@),
        r matches Some(u) ==> u@ == matrix_to_of(user_id@),
{
    UserId::parse(user_id).ok().map(|u| u.matrix_to_uri().to_string())
}

} // verus!
