use vstd::prelude::*;
use vstd::utf8::encode_utf8;
use crate::credential::{hash_password_phc, password_matches};
use crate::value_object::{Content, Email, HashedPassword, Name, Password, PostId, Title, UserId};

verus! {

/// A registered user. The password is only ever held as its hash.
#[derive(Debug)]
pub struct User {
    pub id: UserId,
    pub name: Name,
    pub email: Email,
    pub password: HashedPassword,
}

/// The mathematical value of a [`User`].
pub struct UserView {
    pub id: int,
    pub name: Seq<char>,
    pub email: Seq<char>,
    pub password: Seq<char>,
}

impl View for User {
    type V = UserView;

    open spec fn view(&self) -> UserView {
        UserView {
            id: self.id as int,
            name: self.name@,
            email: self.email@,
            password: self.password@,
        }
    }
}

impl Clone for User {
    fn clone(&self) -> (r: Self)
        ensures
            r@ == self@,
    {
        User {
            id: self.id,
            name: self.name.clone(),
            email: self.email.clone(),
            password: self.password.clone(),
        }
    }
}

/// A post, owned by the user that created it.
#[derive(Debug)]
pub struct Post {
    pub id: PostId,
    pub user_id: UserId,
    pub title: Title,
    pub content: Content,
}

/// The mathematical value of a [`Post`].
pub struct PostView {
    pub id: u128,
    pub user_id: int,
    pub title: Seq<char>,
    pub content: Seq<char>,
}

impl View for Post {
    type V = PostView;

    open spec fn view(&self) -> PostView {
        PostView {
            id: self.id,
            user_id: self.user_id as int,
            title: self.title@,
            content: self.content@,
        }
    }
}

impl Clone for Post {
    fn clone(&self) -> (r: Self)
        ensures
            r@ == self@,
    {
        Post {
            id: self.id,
            user_id: self.user_id,
            title: self.title.clone(),
            content: self.content.clone(),
        }
    }
}

#[derive(Debug, PartialEq, Eq, Structural)]
pub enum HashPasswordError {
    HashPassword,
}

impl HashPasswordError {
    /// The text that describes the error.
    pub fn message(&self) -> (r: &'static str)
        ensures
            r@ == "Failed to hash password"@,
    {
        "Failed to hash password"
    }
}

#[derive(Debug, PartialEq, Eq, Structural)]
pub enum UserError {
    CreateUser,
}

impl UserError {
    /// The text that describes the error.
    pub fn message(&self) -> (r: &'static str)
        ensures
            r@ == "Failed to create user"@,
    {
        "Failed to create user"
    }
}

impl User {
    /// Builds a user record, hashing the plaintext password with a fresh
    /// random salt. The stored hash verifies against `password`; it fails
    /// only for a password longer than `u32::MAX` bytes.
    pub fn new(id: UserId, name: Name, email: Email, password: Password) -> (r: Result<
        Self,
        UserError,
    >)
        ensures
            r matches Ok(u) ==> {
                &&& u.id == id
                &&& u.name@ == name@
                &&& u.email@ == email@
                &&& password_matches(u.password@, password@)
            },
            r matches Err(e) ==> e == UserError::CreateUser,
            encode_utf8(password@).len() <= 0xffff_ffff ==> r is Ok,
    {
        match hash_password(password) {
            Ok(hash) => Ok(User { id, name, email, password: hash }),
            Err(_) => Err(UserError::CreateUser),
        }
    }
}

/// Hashes a password with Argon2 and a fresh random salt. The result is a
/// self-describing hash record against which `password` verifies. Any
/// password up to `u32::MAX` bytes is hashed, whatever it holds.
pub fn hash_password(password: Password) -> (r: Result<HashedPassword, HashPasswordError>)
    ensures
        r matches Ok(h) ==> password_matches(h@, password@),
        r matches Err(e) ==> e == HashPasswordError::HashPassword,
        encode_utf8(password@).len() <= 0xffff_ffff ==> r is Ok,
{
    match hash_password_phc(password.as_str()) {
        Some(h) => Ok(h),
        None => Err(HashPasswordError::HashPassword),
    }
}

} // verus!
