use vstd::prelude::*;
use crate::models;
use crate::validation::FieldError;

verus! {

/// Outcome of `POST /auth`.
#[allow(non_camel_case_types)]
pub enum AuthPostResponse {
    /// Authentication successful, token returned.
    Status200_AuthenticationSuccessful(models::Token),
    /// Unknown email or wrong password, told apart from neither.
    Status400,
}

/// Outcome of `GET /posts`.
#[allow(non_camel_case_types)]
pub enum PostsGetResponse {
    /// All posts, in insertion order.
    Status200_ListOfPosts(Vec<models::Post>),
    Status400,
    /// The session token was not accepted.
    Status401,
}

/// Outcome of `POST /posts`.
#[allow(non_camel_case_types)]
pub enum PostsPostResponse {
    /// The post was created.
    Status201_PostCreated(models::Post),
    Status400,
    /// The session token was not accepted.
    Status401,
}

/// Outcome of `DELETE /posts/{postId}`.
#[allow(non_camel_case_types)]
pub enum PostsPostIdDeleteResponse {
    /// The post was removed.
    Status204_NoContent,
    Status400_BadRequest,
    /// The session token was not accepted, or its user does not own the post.
    Status401_Unauthorized,
    /// No post has that id.
    Status404_NotFound,
}

/// Outcome of `GET /posts/{postId}`.
#[allow(non_camel_case_types)]
pub enum PostsPostIdGetResponse {
    /// The post.
    Status200_PostCreated(models::Post),
    Status400,
    /// The session token was not accepted.
    Status401,
    /// No post has that id.
    Status404,
}

/// Outcome of `PUT /posts/{postId}`.
#[allow(non_camel_case_types)]
pub enum PostsPostIdPutResponse {
    /// The post as updated.
    Status200_PostCreated(models::Post),
    Status400,
    /// The session token was not accepted, or its user does not own the post.
    Status401,
    /// No post has that id.
    Status404,
}

/// Outcome of `POST /users`.
#[allow(non_camel_case_types)]
pub enum UsersPostResponse {
    /// The user was registered; the body carries no password.
    Status201_UserCreatedSuccessfully(models::User),
    Status400,
}

/// Why a request never reached its domain operation, or failed inside it.
pub enum Rejection {
    /// The `Authorization` header is absent.
    MissingAuthorization,
    /// The `Authorization` header does not read as text.
    InvalidAuthorization,
    /// The path does not hold a post id.
    InvalidPostId,
    /// The body broke these rules.
    InvalidBody(Vec<FieldError>),
    /// Hashing, signing or id generation failed.
    Internal,
}

impl Rejection {
    /// The HTTP status of the rejection.
    pub fn status(&self) -> (r: u16)
        ensures
            r == (if self is Internal { 500u16 } else { 400u16 }),
    {
        match self {
            Rejection::Internal => 500,
            _ => 400,
        }
    }
}

impl AuthPostResponse {
    pub fn status(&self) -> (r: u16)
        ensures
            r == match self {
                AuthPostResponse::Status200_AuthenticationSuccessful(_) => 200u16,
                AuthPostResponse::Status400 => 400u16,
            },
    {
        match self {
            AuthPostResponse::Status200_AuthenticationSuccessful(_) => 200,
            AuthPostResponse::Status400 => 400,
        }
    }
}

impl PostsGetResponse {
    pub fn status(&self) -> (r: u16)
        ensures
            r == match self {
                PostsGetResponse::Status200_ListOfPosts(_) => 200u16,
                PostsGetResponse::Status400 => 400u16,
                PostsGetResponse::Status401 => 401u16,
            },
    {
        match self {
            PostsGetResponse::Status200_ListOfPosts(_) => 200,
            PostsGetResponse::Status400 => 400,
            PostsGetResponse::Status401 => 401,
        }
    }
}

impl PostsPostResponse {
    pub fn status(&self) -> (r: u16)
        ensures
            r == match self {
                PostsPostResponse::Status201_PostCreated(_) => 201u16,
                PostsPostResponse::Status400 => 400u16,
                PostsPostResponse::Status401 => 401u16,
            },
    {
        match self {
            PostsPostResponse::Status201_PostCreated(_) => 201,
            PostsPostResponse::Status400 => 400,
            PostsPostResponse::Status401 => 401,
        }
    }
}

impl PostsPostIdDeleteResponse {
    pub fn status(&self) -> (r: u16)
        ensures
            r == match self {
                PostsPostIdDeleteResponse::Status204_NoContent => 204u16,
                PostsPostIdDeleteResponse::Status400_BadRequest => 400u16,
                PostsPostIdDeleteResponse::Status401_Unauthorized => 401u16,
                PostsPostIdDeleteResponse::Status404_NotFound => 404u16,
            },
    {
        match self {
            PostsPostIdDeleteResponse::Status204_NoContent => 204,
            PostsPostIdDeleteResponse::Status400_BadRequest => 400,
            PostsPostIdDeleteResponse::Status401_Unauthorized => 401,
            PostsPostIdDeleteResponse::Status404_NotFound => 404,
        }
    }
}

impl PostsPostIdGetResponse {
    pub fn status(&self) -> (r: u16)
        ensures
            r == match self {
                PostsPostIdGetResponse::Status200_PostCreated(_) => 200u16,
                PostsPostIdGetResponse::Status400 => 400u16,
                PostsPostIdGetResponse::Status401 => 401u16,
                PostsPostIdGetResponse::Status404 => 404u16,
            },
    {
        match self {
            PostsPostIdGetResponse::Status200_PostCreated(_) => 200,
            PostsPostIdGetResponse::Status400 => 400,
            PostsPostIdGetResponse::Status401 => 401,
            PostsPostIdGetResponse::Status404 => 404,
        }
    }
}

impl PostsPostIdPutResponse {
    pub fn status(&self) -> (r: u16)
        ensures
            r == match self {
                PostsPostIdPutResponse::Status200_PostCreated(_) => 200u16,
                PostsPostIdPutResponse::Status400 => 400u16,
                PostsPostIdPutResponse::Status401 => 401u16,
                PostsPostIdPutResponse::Status404 => 404u16,
            },
    {
        match self {
            PostsPostIdPutResponse::Status200_PostCreated(_) => 200,
            PostsPostIdPutResponse::Status400 => 400,
            PostsPostIdPutResponse::Status401 => 401,
            PostsPostIdPutResponse::Status404 => 404,
        }
    }
}

impl UsersPostResponse {
    pub fn status(&self) -> (r: u16)
        ensures
            r == match self {
                UsersPostResponse::Status201_UserCreatedSuccessfully(_) => 201u16,
                UsersPostResponse::Status400 => 400u16,
            },
    {
        match self {
            UsersPostResponse::Status201_UserCreatedSuccessfully(_) => 201,
            UsersPostResponse::Status400 => 400,
        }
    }
}

} // verus!
