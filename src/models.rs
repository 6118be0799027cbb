use vstd::prelude::*;
use crate::entity;
use crate::value_object::{PostId, UserId};

verus! {

/// The view of an optional text field.
pub open spec fn opt_text(o: Option<String>) -> Option<Seq<char>> {
    match o {
        Some(s) => Some(s@),
        None => None,
    }
}

fn clone_opt_text(o: &Option<String>) -> (r: Option<String>)
    ensures
        opt_text(r) == opt_text(*o),
{
    match o {
        Some(s) => Some(s.clone()),
        None => None,
    }
}

/// Body of an authentication request.
pub struct Auth {
    pub email: Option<String>,
    pub password: Option<String>,
}

/// Body of a registration request.
pub struct UsersPostRequest {
    pub name: String,
    pub email: String,
    pub password: String,
}

/// Body of a request that creates a post.
pub struct PostsPostRequest {
    pub title: String,
    pub content: String,
}

/// A post as it travels over the wire; also the body of an update.
pub struct Post {
    pub id: Option<PostId>,
    pub user_id: Option<UserId>,
    pub title: Option<String>,
    pub content: Option<String>,
}

/// A user as it travels over the wire. The password is never sent back.
pub struct User {
    pub id: Option<UserId>,
    pub name: Option<String>,
    pub email: Option<String>,
    pub password: Option<String>,
}

/// A session token handed to an authenticated client.
pub struct Token {
    pub token: Option<String>,
}

pub struct PostModelView {
    pub id: Option<u128>,
    pub user_id: Option<int>,
    pub title: Option<Seq<char>>,
    pub content: Option<Seq<char>>,
}

impl View for Post {
    type V = PostModelView;

    open spec fn view(&self) -> PostModelView {
        PostModelView {
            id: self.id,
            user_id: match self.user_id {
                Some(u) => Some(u as int),
                None => None,
            },
            title: opt_text(self.title),
            content: opt_text(self.content),
        }
    }
}

impl Clone for Post {
    fn clone(&self) -> (r: Self)
        ensures
            r@ == self@,
    {
        Post {
            id: self.id,
            user_id: self.user_id,
            title: clone_opt_text(&self.title),
            content: clone_opt_text(&self.content),
        }
    }
}

/// The wire form of a stored post: every field present.
pub open spec fn post_model(p: entity::PostView) -> PostModelView {
    PostModelView {
        id: Some(p.id),
        user_id: Some(p.user_id),
        title: Some(p.title),
        content: Some(p.content),
    }
}

impl Post {
    /// The wire form of a stored post.
    pub fn from_entity(p: &entity::Post) -> (r: Post)
        ensures
            r@ == post_model(p@),
    {
        Post {
            id: Some(p.id),
            user_id: Some(p.user_id),
            title: Some(p.title.clone()),
            content: Some(p.content.clone()),
        }
    }
}

pub struct UserModelView {
    pub id: Option<int>,
    pub name: Option<Seq<char>>,
    pub email: Option<Seq<char>>,
    pub password: Option<Seq<char>>,
}

impl View for User {
    type V = UserModelView;

    open spec fn view(&self) -> UserModelView {
        UserModelView {
            id: match self.id {
                Some(u) => Some(u as int),
                None => None,
            },
            name: opt_text(self.name),
            email: opt_text(self.email),
            password: opt_text(self.password),
        }
    }
}

/// The wire form of a registered user: id, name and email, no password.
pub open spec fn user_model(u: entity::UserView) -> UserModelView {
    UserModelView { id: Some(u.id), name: Some(u.name), email: Some(u.email), password: None }
}

impl User {
    /// The wire form of a registered user, without its password hash.
    pub fn from_entity(u: &entity::User) -> (r: User)
        ensures
            r@ == user_model(u@),
    {
        User {
            id: Some(u.id),
            name: Some(u.name.clone()),
            email: Some(u.email.clone()),
            password: None,
        }
    }
}

} // verus!
