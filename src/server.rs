use vstd::prelude::*;
use vstd::utf8::encode_utf8;
use crate::handlers::{
    self, auth_post_done, posts_get_done, posts_post_done, posts_post_id_delete_done,
    posts_post_id_get_done, posts_post_id_put_done, users_post_done,
};
use crate::header::{all_visible_ascii, is_text_header_value};
use crate::models::{opt_text, Auth, Post, PostsPostRequest, UsersPostRequest};
use crate::responses::{
    AuthPostResponse, PostsGetResponse, PostsPostIdDeleteResponse, PostsPostIdGetResponse,
    PostsPostIdPutResponse, PostsPostResponse, Rejection, UsersPostResponse,
};
use crate::store::Store;
use crate::validation::{
    auth_post_errors, auth_post_validation, posts_post_errors, posts_post_id_put_validation,
    posts_post_validation, posts_put_errors, users_post_errors, users_post_validation,
};
use crate::value_object::{parse_post_id, random_post_id, uuid_value};

verus! {

/// Extraction of the `Authorization` header: absent, or holding a byte that
/// is not visible ASCII, it stops the request with a 400 before any token
/// is looked at.
pub open spec fn authorization_checked<T>(
    authorization: Option<&[u8]>,
    r: Result<T, Rejection>,
    then: spec_fn(Seq<u8>) -> bool,
) -> bool {
    match authorization {
        None => r == Err::<T, Rejection>(Rejection::MissingAuthorization),
        Some(h) => if !all_visible_ascii(h@) {
            r == Err::<T, Rejection>(Rejection::InvalidAuthorization)
        } else {
            then(h@)
        },
    }
}

/// Checks that the `Authorization` header is present and reads as text.
pub fn authorization_validation(authorization: Option<&[u8]>) -> (r: Result<&[u8], Rejection>)
    ensures
        authorization_checked(authorization, r, (|h: Seq<u8>| r matches Ok(v) && v@ == h)),
{
    match authorization {
        None => Err(Rejection::MissingAuthorization),
        Some(h) => {
            if is_text_header_value(h) {
                Ok(h)
            } else {
                Err(Rejection::InvalidAuthorization)
            }
        },
    }
}

/// Reads the post id of the path; a path that holds none is a 400.
pub fn post_id_validation(post_id: &str) -> (r: Result<u128, Rejection>)
    ensures
        match uuid_value(post_id@) {
            Some(id) => r == Ok::<u128, Rejection>(id),
            None => r == Err::<u128, Rejection>(Rejection::InvalidPostId),
        },
{
    match parse_post_id(post_id) {
        Some(id) => Ok(id),
        None => Err(Rejection::InvalidPostId),
    }
}

/// `POST /users`: body rules, then registration.
pub fn users_post(store: &mut Store, body: Option<UsersPostRequest>) -> (r: Result<
    UsersPostResponse,
    Rejection,
>)
    requires
        old(store)@.wf(),
    ensures
        final(store)@.wf(),
        users_post_errors(body).len() > 0 ==> (r matches Err(Rejection::InvalidBody(es)) && es@
            == users_post_errors(body) && final(store)@ == old(store)@),
        users_post_errors(body).len() == 0 ==> users_post_done(
            old(store)@,
            final(store)@,
            body->0.name@,
            body->0.email@,
            body->0.password@,
            r,
        ),
        users_post_errors(body).len() == 0 && old(store)@.users.len() < i64::MAX && encode_utf8(
            body->0.password@,
        ).len() <= 0xffff_ffff ==> r is Ok,
{
    match users_post_validation(body) {
        Ok(b) => handlers::users_post(store, b.name, b.email, b.password),
        Err(es) => Err(Rejection::InvalidBody(es)),
    }
}

/// `POST /auth`: body rules, then authentication at time `now`.
pub fn auth_post(store: &Store, secret: &[u8], now: u64, body: Option<Auth>) -> (r: Result<
    AuthPostResponse,
    Rejection,
>)
    ensures
        auth_post_errors(body).len() > 0 ==> (r matches Err(Rejection::InvalidBody(es)) && es@
            == auth_post_errors(body)),
        auth_post_errors(body).len() == 0 ==> auth_post_done(
            store@.users,
            secret@,
            now,
            opt_text(body->0.email)->0,
            opt_text(body->0.password)->0,
            r,
        ),
{
    match auth_post_validation(body) {
        Ok((email, password)) => handlers::auth_post(store, secret, now, &email, &password),
        Err(es) => Err(Rejection::InvalidBody(es)),
    }
}

/// `GET /posts`: header extraction, then the listing.
pub fn posts_get(store: &Store, secret: &[u8], now: u64, authorization: Option<&[u8]>) -> (r:
    Result<PostsGetResponse, Rejection>)
    ensures
        authorization_checked(
            authorization,
            r,
            (|h: Seq<u8>| r matches Ok(resp) && posts_get_done(store@, secret@, h, now, resp)),
        ),
{
    let h = match authorization_validation(authorization) {
        Ok(h) => h,
        Err(e) => return Err(e),
    };
    Ok(handlers::posts_get(store, secret, now, h))
}

/// `POST /posts`: header extraction, body rules, then creation under a
/// fresh random id.
pub fn posts_post(
    store: &mut Store,
    secret: &[u8],
    now: u64,
    authorization: Option<&[u8]>,
    body: Option<PostsPostRequest>,
) -> (r: Result<PostsPostResponse, Rejection>)
    requires
        old(store)@.wf(),
    ensures
        final(store)@.wf(),
        r is Err && !(r matches Err(Rejection::Internal)) ==> final(store)@ == old(store)@,
        authorization_checked(
            authorization,
            r,
            (|h: Seq<u8>|
                if posts_post_errors(body).len() > 0 {
                    r matches Err(Rejection::InvalidBody(es)) && es@ == posts_post_errors(body)
                } else {
                    exists|id: u128|
                        posts_post_done(
                            old(store)@,
                            final(store)@,
                            secret@,
                            h,
                            now,
                            body->0.title@,
                            body->0.content@,
                            id,
                            r,
                        )
                }),
        ),
{
    let h = match authorization_validation(authorization) {
        Ok(h) => h,
        Err(e) => return Err(e),
    };
    let b = match posts_post_validation(body) {
        Ok(b) => b,
        Err(es) => return Err(Rejection::InvalidBody(es)),
    };
    let id = random_post_id();
    let r = handlers::posts_post(store, secret, now, h, b.title, b.content, id);
    assert(posts_post_done(
        old(store)@,
        final(store)@,
        secret@,
        h@,
        now,
        body->0.title@,
        body->0.content@,
        id,
        r,
    ));
    r
}

/// `GET /posts/{postId}`: header extraction, path, then the lookup.
pub fn posts_post_id_get(
    store: &Store,
    secret: &[u8],
    now: u64,
    authorization: Option<&[u8]>,
    post_id: &str,
) -> (r: Result<PostsPostIdGetResponse, Rejection>)
    requires
        store@.wf(),
    ensures
        authorization_checked(
            authorization,
            r,
            (|h: Seq<u8>|
                match uuid_value(post_id@) {
                    None => r == Err::<PostsPostIdGetResponse, Rejection>(Rejection::InvalidPostId),
                    Some(id) => r matches Ok(resp) && posts_post_id_get_done(
                        store@,
                        secret@,
                        h,
                        now,
                        id,
                        resp,
                    ),
                }),
        ),
{
    let h = match authorization_validation(authorization) {
        Ok(h) => h,
        Err(e) => return Err(e),
    };
    let id = match post_id_validation(post_id) {
        Ok(id) => id,
        Err(e) => return Err(e),
    };
    Ok(handlers::posts_post_id_get(store, secret, now, h, id))
}

/// `PUT /posts/{postId}`: header extraction, path, body rules, then the
/// owner-only update.
pub fn posts_post_id_put(
    store: &mut Store,
    secret: &[u8],
    now: u64,
    authorization: Option<&[u8]>,
    post_id: &str,
    body: Option<Post>,
) -> (r: Result<PostsPostIdPutResponse, Rejection>)
    requires
        old(store)@.wf(),
    ensures
        final(store)@.wf(),
        r is Err ==> final(store)@ == old(store)@,
        authorization_checked(
            authorization,
            r,
            (|h: Seq<u8>|
                match uuid_value(post_id@) {
                    None => r == Err::<PostsPostIdPutResponse, Rejection>(Rejection::InvalidPostId),
                    Some(id) => if posts_put_errors(body).len() > 0 {
                        r matches Err(Rejection::InvalidBody(es)) && es@ == posts_put_errors(body)
                    } else {
                        r matches Ok(resp) && posts_post_id_put_done(
                            old(store)@,
                            final(store)@,
                            secret@,
                            h,
                            now,
                            id,
                            opt_text(body->0.title)->0,
                            opt_text(body->0.content)->0,
                            resp,
                        )
                    },
                }),
        ),
{
    let h = match authorization_validation(authorization) {
        Ok(h) => h,
        Err(e) => return Err(e),
    };
    let id = match post_id_validation(post_id) {
        Ok(id) => id,
        Err(e) => return Err(e),
    };
    let (title, content) = match posts_post_id_put_validation(body) {
        Ok(tc) => tc,
        Err(es) => return Err(Rejection::InvalidBody(es)),
    };
    Ok(handlers::posts_post_id_put(store, secret, now, h, id, title, content))
}

/// `DELETE /posts/{postId}`: header extraction, path, then the owner-only
/// removal.
pub fn posts_post_id_delete(
    store: &mut Store,
    secret: &[u8],
    now: u64,
    authorization: Option<&[u8]>,
    post_id: &str,
) -> (r: Result<PostsPostIdDeleteResponse, Rejection>)
    requires
        old(store)@.wf(),
    ensures
        final(store)@.wf(),
        r is Err ==> final(store)@ == old(store)@,
        authorization_checked(
            authorization,
            r,
            (|h: Seq<u8>|
                match uuid_value(post_id@) {
                    None => r == Err::<PostsPostIdDeleteResponse, Rejection>(
                        Rejection::InvalidPostId,
                    ),
                    Some(id) => r matches Ok(resp) && posts_post_id_delete_done(
                        old(store)@,
                        final(store)@,
                        secret@,
                        h,
                        now,
                        id,
                        resp,
                    ),
                }),
        ),
{
    let h = match authorization_validation(authorization) {
        Ok(h) => h,
        Err(e) => return Err(e),
    };
    let id = match post_id_validation(post_id) {
        Ok(id) => id,
        Err(e) => return Err(e),
    };
    Ok(handlers::posts_post_id_delete(store, secret, now, h, id))
}

} // verus!
