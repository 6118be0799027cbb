use vstd::prelude::*;

verus! {

/// Sequential identifier of a user, starting at 1.
pub type UserId = i64;

/// Random 128-bit identifier of a post (the value of a version-4 UUID).
pub type PostId = u128;

pub type Name = String;

pub type Email = String;

/// A password as the user typed it.
pub type Password = String;

/// A self-describing password hash record (PHC string format).
pub type HashedPassword = String;

pub type Title = String;

pub type Content = String;

/// The post id that `text` denotes in one of the textual forms of a UUID
/// (hyphenated, simple, URN or braced), if it is one.
pub uninterp spec fn uuid_value(text: Seq<char>) -> Option<u128>;

/// Relies on `uuid::Uuid::parse_str`, read as the 128-bit value of the UUID.
#[verifier::external_body]
fn parse_uuid(text: &str) -> (r: Option<u128>)
    ensures
        r == uuid_value(text@),
{
    uuid::Uuid::parse_str(text).ok().map(|u| u.as_u128())
}

/// Relies on `uuid::Uuid::new_v4`: a random version-4 UUID, as its 128-bit
/// value. Nothing is promised of the value.
#[verifier::external_body]
pub(crate) fn random_post_id() -> (r: PostId) {
    uuid::Uuid::new_v4().as_u128()
}

/// Reads a post id from its canonical textual form.
pub fn parse_post_id(text: &str) -> (r: Option<PostId>)
    ensures
        r == uuid_value(text@),
{
    parse_uuid(text)
}

} // verus!
