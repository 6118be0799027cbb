use vstd::prelude::*;
use crate::models::{opt_text, Auth, Post, PostsPostRequest, UsersPostRequest};

verus! {

/// A field of a request body.
#[derive(Debug, Clone, Copy, PartialEq, Eq, Structural)]
pub enum Field {
    /// The body as a whole.
    Body,
    Name,
    Email,
    Password,
    Title,
    Content,
}

/// What is wrong with a field.
#[derive(Debug, Clone, Copy, PartialEq, Eq, Structural)]
pub enum Problem {
    /// The field is absent.
    Missing,
    /// The field is an empty string.
    Empty,
}

/// One violation of a body's rules.
#[derive(Debug, Clone, Copy, PartialEq, Eq, Structural)]
pub struct FieldError {
    pub field: Field,
    pub problem: Problem,
}

pub open spec fn violation(field: Field, problem: Problem) -> Seq<FieldError> {
    seq![FieldError { field, problem }]
}

/// The violation of a text field that must not be empty.
pub open spec fn nonempty_errors(field: Field, s: Seq<char>) -> Seq<FieldError> {
    if s.len() == 0 {
        violation(field, Problem::Empty)
    } else {
        Seq::empty()
    }
}

/// The violation of an optional text field that must be present.
pub open spec fn present_errors(field: Field, o: Option<Seq<char>>) -> Seq<FieldError> {
    match o {
        Some(_) => Seq::empty(),
        None => violation(field, Problem::Missing),
    }
}

/// The violation of an optional text field that must be present and not
/// empty.
pub open spec fn filled_errors(field: Field, o: Option<Seq<char>>) -> Seq<FieldError> {
    match o {
        Some(s) => nonempty_errors(field, s),
        None => violation(field, Problem::Missing),
    }
}

/// Rules of an authentication body: both fields present.
pub open spec fn auth_post_errors(body: Option<Auth>) -> Seq<FieldError> {
    match body {
        Some(b) => present_errors(Field::Email, opt_text(b.email)) + present_errors(
            Field::Password,
            opt_text(b.password),
        ),
        None => violation(Field::Body, Problem::Missing),
    }
}

/// Rules of a registration body: name, email and password not empty.
pub open spec fn users_post_errors(body: Option<UsersPostRequest>) -> Seq<FieldError> {
    match body {
        Some(b) => nonempty_errors(Field::Name, b.name@) + nonempty_errors(Field::Email, b.email@)
            + nonempty_errors(Field::Password, b.password@),
        None => violation(Field::Body, Problem::Missing),
    }
}

/// Rules of a body that creates a post: title and content not empty.
pub open spec fn posts_post_errors(body: Option<PostsPostRequest>) -> Seq<FieldError> {
    match body {
        Some(b) => nonempty_errors(Field::Title, b.title@) + nonempty_errors(
            Field::Content,
            b.content@,
        ),
        None => violation(Field::Body, Problem::Missing),
    }
}

/// Rules of a body that updates a post: title and content present and not
/// empty. Its other fields are ignored.
pub open spec fn posts_put_errors(body: Option<Post>) -> Seq<FieldError> {
    match body {
        Some(b) => filled_errors(Field::Title, opt_text(b.title)) + filled_errors(
            Field::Content,
            opt_text(b.content),
        ),
        None => violation(Field::Body, Problem::Missing),
    }
}

fn check_nonempty(errors: &mut Vec<FieldError>, field: Field, s: &String)
    ensures
        final(errors)@ == old(errors)@ + nonempty_errors(field, s@),
{
    if s.as_str().is_empty() {
        errors.push(FieldError { field, problem: Problem::Empty });
        assert(final(errors)@ =~= old(errors)@ + nonempty_errors(field, s@));
    } else {
        assert(errors@ =~= old(errors)@ + nonempty_errors(field, s@));
    }
}

fn check_present(errors: &mut Vec<FieldError>, field: Field, o: &Option<String>)
    ensures
        final(errors)@ == old(errors)@ + present_errors(field, opt_text(*o)),
{
    if o.is_none() {
        errors.push(FieldError { field, problem: Problem::Missing });
        assert(final(errors)@ =~= old(errors)@ + present_errors(field, opt_text(*o)));
    } else {
        assert(errors@ =~= old(errors)@ + present_errors(field, opt_text(*o)));
    }
}

fn check_filled(errors: &mut Vec<FieldError>, field: Field, o: &Option<String>)
    ensures
        final(errors)@ == old(errors)@ + filled_errors(field, opt_text(*o)),
{
    match o {
        Some(s) => check_nonempty(errors, field, s),
        None => {
            errors.push(FieldError { field, problem: Problem::Missing });
            assert(final(errors)@ =~= old(errors)@ + filled_errors(field, opt_text(*o)));
        },
    }
}

fn missing_body() -> (r: Vec<FieldError>)
    ensures
        r@ == violation(Field::Body, Problem::Missing),
{
    let mut r: Vec<FieldError> = Vec::new();
    r.push(FieldError { field: Field::Body, problem: Problem::Missing });
    assert(r@ =~= violation(Field::Body, Problem::Missing));
    r
}

/// Checks an authentication body; on success hands back email and password.
pub fn auth_post_validation(body: Option<Auth>) -> (r: Result<(String, String), Vec<FieldError>>)
    ensures
        auth_post_errors(body).len() == 0 ==> (r matches Ok((e, p)) && opt_text(body->0.email)
            == Some(e@) && opt_text(body->0.password) == Some(p@)),
        auth_post_errors(body).len() > 0 ==> (r matches Err(es) && es@ == auth_post_errors(body)),
{
    match body {
        None => Err(missing_body()),
        Some(b) => {
            let mut errors: Vec<FieldError> = Vec::new();
            check_present(&mut errors, Field::Email, &b.email);
            check_present(&mut errors, Field::Password, &b.password);
            assert(errors@ =~= auth_post_errors(Some(b)));
            match (b.email, b.password) {
                (Some(e), Some(p)) => Ok((e, p)),
                _ => Err(errors),
            }
        },
    }
}

/// Checks a registration body.
pub fn users_post_validation(body: Option<UsersPostRequest>) -> (r: Result<
    UsersPostRequest,
    Vec<FieldError>,
>)
    ensures
        users_post_errors(body).len() == 0 ==> r == Ok::<UsersPostRequest, Vec<FieldError>>(
            body->0,
        ),
        users_post_errors(body).len() > 0 ==> (r matches Err(es) && es@ == users_post_errors(body)),
{
    match body {
        None => Err(missing_body()),
        Some(b) => {
            let mut errors: Vec<FieldError> = Vec::new();
            check_nonempty(&mut errors, Field::Name, &b.name);
            check_nonempty(&mut errors, Field::Email, &b.email);
            check_nonempty(&mut errors, Field::Password, &b.password);
            assert(errors@ =~= users_post_errors(Some(b)));
            if errors.len() == 0 {
                Ok(b)
            } else {
                Err(errors)
            }
        },
    }
}

/// Checks the body of a request that creates a post.
pub fn posts_post_validation(body: Option<PostsPostRequest>) -> (r: Result<
    PostsPostRequest,
    Vec<FieldError>,
>)
    ensures
        posts_post_errors(body).len() == 0 ==> r == Ok::<PostsPostRequest, Vec<FieldError>>(
            body->0,
        ),
        posts_post_errors(body).len() > 0 ==> (r matches Err(es) && es@ == posts_post_errors(body)),
{
    match body {
        None => Err(missing_body()),
        Some(b) => {
            let mut errors: Vec<FieldError> = Vec::new();
            check_nonempty(&mut errors, Field::Title, &b.title);
            check_nonempty(&mut errors, Field::Content, &b.content);
            assert(errors@ =~= posts_post_errors(Some(b)));
            if errors.len() == 0 {
                Ok(b)
            } else {
                Err(errors)
            }
        },
    }
}

/// Checks the body of a request that updates a post; on success hands back
/// the new title and content.
pub fn posts_post_id_put_validation(body: Option<Post>) -> (r: Result<
    (String, String),
    Vec<FieldError>,
>)
    ensures
        posts_put_errors(body).len() == 0 ==> (r matches Ok((t, c)) && opt_text(body->0.title)
            == Some(t@) && opt_text(body->0.content) == Some(c@)),
        posts_put_errors(body).len() > 0 ==> (r matches Err(es) && es@ == posts_put_errors(body)),
{
    match body {
        None => Err(missing_body()),
        Some(b) => {
            let mut errors: Vec<FieldError> = Vec::new();
            check_filled(&mut errors, Field::Title, &b.title);
            check_filled(&mut errors, Field::Content, &b.content);
            assert(errors@ =~= posts_put_errors(Some(b)));
            if errors.len() > 0 {
                return Err(errors);
            }
            match (b.title, b.content) {
                (Some(t), Some(c)) => Ok((t, c)),
                _ => Err(errors),
            }
        },
    }
}

} // verus!
