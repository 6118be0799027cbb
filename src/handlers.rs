use vstd::prelude::*;
use vstd::utf8::encode_utf8;
use crate::credential::{password_matches, verify_password};
use crate::decimal::user_id_text;
use crate::entity::{self, hash_password, PostView, UserView};
use crate::header::{
    bearer_prefix, lemma_strip_bearer_prefix, lemma_without_bearer_no_space, strip_bearer,
    without_bearer,
};
use crate::models::{self, post_model, user_model};
use crate::policy::{can_mutate, may_mutate};
use crate::responses::{
    AuthPostResponse, PostsGetResponse, PostsPostIdDeleteResponse, PostsPostIdGetResponse,
    PostsPostIdPutResponse, PostsPostResponse, Rejection, UsersPostResponse,
};
use crate::store::{first_with_email, with_text, Store, StoreView};
use crate::token::{
    create_token, decoded_claims, is_compact_token, is_token_byte, lemma_issued_token_authenticates,
    TOKEN_TTL_SECS, expiry_for, live_claims, session_user, subject_user_id,
    validate_token,
};
use crate::value_object::{Content, Email, Name, Password, PostId, Title, UserId};

verus! {

/// The claims of the session that an `Authorization` value presents at
/// time `now`, if it presents a live one.
pub open spec fn session_claims(secret: Seq<u8>, authorization: Seq<u8>, now: u64) -> Option<
    (Seq<char>, u64),
> {
    live_claims(secret, without_bearer(authorization), now)
}

/// The user on whose behalf an `Authorization` value acts at time `now`.
pub open spec fn acting_user(secret: Seq<u8>, authorization: Seq<u8>, now: u64) -> Option<int> {
    session_user(secret, without_bearer(authorization), now)
}

/// Whether an `Authorization` value presents a live session at time `now`.
pub fn has_session(secret: &[u8], authorization: &[u8], now: u64) -> (r: bool)
    ensures
        r == session_claims(secret@, authorization@, now) is Some,
{
    let token = strip_bearer(authorization);
    validate_token(secret, token.as_slice(), now).is_ok()
}

/// The user on whose behalf an `Authorization` value acts at time `now`:
/// its session is live and names a user id.
pub fn session_user_id(secret: &[u8], authorization: &[u8], now: u64) -> (r: Option<UserId>)
    ensures
        match r {
            Some(u) => acting_user(secret@, authorization@, now) == Some(u as int),
            None => acting_user(secret@, authorization@, now) is None,
        },
{
    let token = strip_bearer(authorization);
    match validate_token(secret, token.as_slice(), now) {
        Ok(claims) => subject_user_id(&claims),
        Err(_) => None,
    }
}

/// Registration: the new user, with the next id in sequence, is appended
/// and sent back without its password; an internal failure (no id left, or
/// a password too long to hash) changes nothing.
pub open spec fn users_post_done(
    old: StoreView,
    new: StoreView,
    name: Seq<char>,
    email: Seq<char>,
    password: Seq<char>,
    r: Result<UsersPostResponse, Rejection>,
) -> bool {
    &&& new.posts == old.posts
    &&& match r {
        Ok(UsersPostResponse::Status201_UserCreatedSuccessfully(m)) => {
            let u = new.users.last();
            &&& new.users.len() == old.users.len() + 1
            &&& new.users.drop_last() == old.users
            &&& u.id == old.users.len() + 1
            &&& u.name == name
            &&& u.email == email
            &&& password_matches(u.password, password)
            &&& m@ == user_model(u)
        },
        Ok(UsersPostResponse::Status400) => false,
        Err(e) => e == Rejection::Internal && new == old,
    }
}

/// Registers a user: hashes the password, assigns the next id, stores the
/// user and sends it back without the password.
pub fn users_post(store: &mut Store, name: Name, email: Email, password: Password) -> (r: Result<
    UsersPostResponse,
    Rejection,
>)
    requires
        old(store)@.wf(),
    ensures
        final(store)@.wf(),
        users_post_done(old(store)@, final(store)@, name@, email@, password@, r),
        old(store)@.users.len() >= i64::MAX ==> r is Err,
        old(store)@.users.len() < i64::MAX && encode_utf8(password@).len() <= 0xffff_ffff ==> r is Ok,
{
    let hash = match hash_password(password) {
        Ok(h) => h,
        Err(_) => return Err(Rejection::Internal),
    };
    match store.create_user(name, email, hash) {
        Some(user) => {
            assert(store@.users.drop_last() =~= old(store)@.users);
            Ok(
                UsersPostResponse::Status201_UserCreatedSuccessfully(
                    models::User::from_entity(&user),
                ),
            )
        },
        None => Err(Rejection::Internal),
    }
}

/// Authentication: the first user registered with the email, if the
/// password verifies against its hash, always gets a non-empty token for
/// its id that expires one validity window after `now`; any other case is
/// a plain 400, with no hint of which check failed.
pub open spec fn auth_post_done(
    users: Seq<UserView>,
    secret: Seq<u8>,
    now: u64,
    email: Seq<char>,
    password: Seq<char>,
    r: Result<AuthPostResponse, Rejection>,
) -> bool {
    match first_with_email(users, email) {
        Some(u) if password_matches(u.password, password) => match r {
            Ok(AuthPostResponse::Status200_AuthenticationSuccessful(t)) => t.token matches Some(
                tok,
            ) && tok@.len() > 0 && decoded_claims(secret, encode_utf8(tok@)) == Some(
                (user_id_text(u.id), expiry_for(now)),
            ),
            _ => false,
        },
        _ => r == Ok::<AuthPostResponse, Rejection>(AuthPostResponse::Status400),
    }
}

/// Authenticates by email and password and issues a session token.
pub fn auth_post(store: &Store, secret: &[u8], now: u64, email: &Email, password: &Password) -> (r:
    Result<AuthPostResponse, Rejection>)
    ensures
        auth_post_done(store@.users, secret@, now, email@, password@, r),
{
    match store.find_user_by_email(email) {
        Some(user) => {
            if !verify_password(password.as_str(), user.password.as_str()) {
                return Ok(AuthPostResponse::Status400);
            }
            let token = create_token(secret, user.id, now);
            Ok(
                AuthPostResponse::Status200_AuthenticationSuccessful(
                    models::Token { token: Some(token) },
                ),
            )
        },
        None => Ok(AuthPostResponse::Status400),
    }
}

/// The wire forms of posts, in the same order.
pub open spec fn lists_posts(list: Seq<models::Post>, posts: Seq<PostView>) -> bool {
    &&& list.len() == posts.len()
    &&& forall|i: int| 0 <= i < list.len() ==> (#[trigger] list[i])@ == post_model(posts[i])
}

/// Listing: any live session sees every post, in insertion order.
pub open spec fn posts_get_done(
    store: StoreView,
    secret: Seq<u8>,
    authorization: Seq<u8>,
    now: u64,
    r: PostsGetResponse,
) -> bool {
    match session_claims(secret, authorization, now) {
        None => r == PostsGetResponse::Status401,
        Some(_) => r matches PostsGetResponse::Status200_ListOfPosts(list) && lists_posts(
            list@,
            store.posts,
        ),
    }
}

/// Lists all posts to the holder of a live session token.
pub fn posts_get(store: &Store, secret: &[u8], now: u64, authorization: &[u8]) -> (r:
    PostsGetResponse)
    ensures
        posts_get_done(store@, secret@, authorization@, now, r),
{
    if !has_session(secret, authorization, now) {
        return PostsGetResponse::Status401;
    }
    let posts = store.list_posts();
    let mut list: Vec<models::Post> = Vec::new();
    let mut i: usize = 0;
    while i < posts.len()
        invariant
            0 <= i <= posts@.len(),
            posts@.map_values(|p: entity::Post| p@) == store@.posts,
            lists_posts(list@, store@.posts.take(i as int)),
        decreases posts@.len() - i,
    {
        assert(store@.posts[i as int] == posts@[i as int]@);
        list.push(models::Post::from_entity(&posts[i]));
        i = i + 1;
    }
    assert(store@.posts.take(i as int) =~= store@.posts);
    PostsGetResponse::Status200_ListOfPosts(list)
}

/// Creation: a live session that names a user creates a post owned by that
/// user under the id `new_id`, appended after all others; an id already in
/// use is an internal failure. Nothing changes but on success.
pub open spec fn posts_post_done(
    old: StoreView,
    new: StoreView,
    secret: Seq<u8>,
    authorization: Seq<u8>,
    now: u64,
    title: Seq<char>,
    content: Seq<char>,
    new_id: u128,
    r: Result<PostsPostResponse, Rejection>,
) -> bool {
    &&& new.users == old.users
    &&& match acting_user(secret, authorization, now) {
        None => r == Ok::<PostsPostResponse, Rejection>(PostsPostResponse::Status401) && new == old,
        Some(uid) => if old.has_post(new_id) {
            r == Err::<PostsPostResponse, Rejection>(Rejection::Internal) && new == old
        } else {
            let p = PostView { id: new_id, user_id: uid, title, content };
            &&& new.posts == old.posts.push(p)
            &&& r matches Ok(PostsPostResponse::Status201_PostCreated(m)) && m@ == post_model(p)
        },
    }
}

/// Creates a post owned by the session's user, under the id `new_id`.
pub fn posts_post(
    store: &mut Store,
    secret: &[u8],
    now: u64,
    authorization: &[u8],
    title: Title,
    content: Content,
    new_id: PostId,
) -> (r: Result<PostsPostResponse, Rejection>)
    requires
        old(store)@.wf(),
    ensures
        final(store)@.wf(),
        posts_post_done(
            old(store)@,
            final(store)@,
            secret@,
            authorization@,
            now,
            title@,
            content@,
            new_id,
            r,
        ),
{
    let user_id = match session_user_id(secret, authorization, now) {
        Some(u) => u,
        None => return Ok(PostsPostResponse::Status401),
    };
    match store.create_post(new_id, user_id, title, content) {
        Some(post) => Ok(PostsPostResponse::Status201_PostCreated(models::Post::from_entity(&post))),
        None => Err(Rejection::Internal),
    }
}

/// Reading one post: any live session may read any post.
pub open spec fn posts_post_id_get_done(
    store: StoreView,
    secret: Seq<u8>,
    authorization: Seq<u8>,
    now: u64,
    post_id: u128,
    r: PostsPostIdGetResponse,
) -> bool {
    match session_claims(secret, authorization, now) {
        None => r == PostsPostIdGetResponse::Status401,
        Some(_) => match store.post_with_id(post_id) {
            None => r == PostsPostIdGetResponse::Status404,
            Some(p) => r matches PostsPostIdGetResponse::Status200_PostCreated(m) && m@
                == post_model(p),
        },
    }
}

/// Fetches one post for the holder of a live session token.
pub fn posts_post_id_get(
    store: &Store,
    secret: &[u8],
    now: u64,
    authorization: &[u8],
    post_id: PostId,
) -> (r: PostsPostIdGetResponse)
    requires
        store@.wf(),
    ensures
        posts_post_id_get_done(store@, secret@, authorization@, now, post_id, r),
{
    if !has_session(secret, authorization, now) {
        return PostsPostIdGetResponse::Status401;
    }
    match store.find_post_by_id(post_id) {
        Some(post) => PostsPostIdGetResponse::Status200_PostCreated(
            models::Post::from_entity(&post),
        ),
        None => PostsPostIdGetResponse::Status404,
    }
}

/// Updating: only the owner's live session changes a post's title and
/// content, in place; every other outcome leaves the store as it was.
pub open spec fn posts_post_id_put_done(
    old: StoreView,
    new: StoreView,
    secret: Seq<u8>,
    authorization: Seq<u8>,
    now: u64,
    post_id: u128,
    title: Seq<char>,
    content: Seq<char>,
    r: PostsPostIdPutResponse,
) -> bool {
    match acting_user(secret, authorization, now) {
        None => r == PostsPostIdPutResponse::Status401 && new == old,
        Some(uid) => match old.post_with_id(post_id) {
            None => r == PostsPostIdPutResponse::Status404 && new == old,
            Some(p) => if !may_mutate(p, uid) {
                r == PostsPostIdPutResponse::Status401 && new == old
            } else {
                let q = with_text(p, title, content);
                &&& new.users == old.users
                &&& new.posts == old.posts.update(old.post_index(post_id), q)
                &&& r matches PostsPostIdPutResponse::Status200_PostCreated(m) && m@ == post_model(
                    q,
                )
            },
        },
    }
}

/// Replaces the title and content of a post owned by the session's user.
pub fn posts_post_id_put(
    store: &mut Store,
    secret: &[u8],
    now: u64,
    authorization: &[u8],
    post_id: PostId,
    title: Title,
    content: Content,
) -> (r: PostsPostIdPutResponse)
    requires
        old(store)@.wf(),
    ensures
        final(store)@.wf(),
        posts_post_id_put_done(
            old(store)@,
            final(store)@,
            secret@,
            authorization@,
            now,
            post_id,
            title@,
            content@,
            r,
        ),
{
    let user_id = match session_user_id(secret, authorization, now) {
        Some(u) => u,
        None => return PostsPostIdPutResponse::Status401,
    };
    let post = match store.find_post_by_id(post_id) {
        Some(p) => p,
        None => return PostsPostIdPutResponse::Status404,
    };
    if !can_mutate(&post, user_id) {
        return PostsPostIdPutResponse::Status401;
    }
    match store.update_post(post_id, title, content) {
        Some(updated) => PostsPostIdPutResponse::Status200_PostCreated(
            models::Post::from_entity(&updated),
        ),
        None => PostsPostIdPutResponse::Status404,
    }
}

/// Deleting: only the owner's live session removes a post; every other
/// outcome leaves the store as it was.
pub open spec fn posts_post_id_delete_done(
    old: StoreView,
    new: StoreView,
    secret: Seq<u8>,
    authorization: Seq<u8>,
    now: u64,
    post_id: u128,
    r: PostsPostIdDeleteResponse,
) -> bool {
    match acting_user(secret, authorization, now) {
        None => r == PostsPostIdDeleteResponse::Status401_Unauthorized && new == old,
        Some(uid) => match old.post_with_id(post_id) {
            None => r == PostsPostIdDeleteResponse::Status404_NotFound && new == old,
            Some(p) => if !may_mutate(p, uid) {
                r == PostsPostIdDeleteResponse::Status401_Unauthorized && new == old
            } else {
                &&& new.users == old.users
                &&& new.posts == old.posts.remove(old.post_index(post_id))
                &&& r == PostsPostIdDeleteResponse::Status204_NoContent
            },
        },
    }
}

/// Removes a post owned by the session's user.
pub fn posts_post_id_delete(
    store: &mut Store,
    secret: &[u8],
    now: u64,
    authorization: &[u8],
    post_id: PostId,
) -> (r: PostsPostIdDeleteResponse)
    requires
        old(store)@.wf(),
    ensures
        final(store)@.wf(),
        posts_post_id_delete_done(old(store)@, final(store)@, secret@, authorization@, now, post_id, r),
{
    let user_id = match session_user_id(secret, authorization, now) {
        Some(u) => u,
        None => return PostsPostIdDeleteResponse::Status401_Unauthorized,
    };
    let post = match store.find_post_by_id(post_id) {
        Some(p) => p,
        None => return PostsPostIdDeleteResponse::Status404_NotFound,
    };
    if !can_mutate(&post, user_id) {
        return PostsPostIdDeleteResponse::Status401_Unauthorized;
    }
    if store.delete_post(post_id) {
        PostsPostIdDeleteResponse::Status204_NoContent
    } else {
        PostsPostIdDeleteResponse::Status404_NotFound
    }
}


/// A session of a user who does not own a post cannot update it: the answer
/// is 401 and the store, the post included, stays as it was.
pub proof fn lemma_non_owner_cannot_update(
    old: StoreView,
    new: StoreView,
    secret: Seq<u8>,
    authorization: Seq<u8>,
    now: u64,
    post_id: u128,
    title: Seq<char>,
    content: Seq<char>,
    r: PostsPostIdPutResponse,
    user_id: int,
)
    requires
        posts_post_id_put_done(old, new, secret, authorization, now, post_id, title, content, r),
        acting_user(secret, authorization, now) == Some(user_id),
        old.post_with_id(post_id) matches Some(p) && p.user_id != user_id,
    ensures
        r == PostsPostIdPutResponse::Status401,
        new == old,
        new.post_with_id(post_id) == old.post_with_id(post_id),
{
}

/// A session of a user who does not own a post cannot delete it: the answer
/// is 401 and the store, the post included, stays as it was.
pub proof fn lemma_non_owner_cannot_delete(
    old: StoreView,
    new: StoreView,
    secret: Seq<u8>,
    authorization: Seq<u8>,
    now: u64,
    post_id: u128,
    r: PostsPostIdDeleteResponse,
    user_id: int,
)
    requires
        posts_post_id_delete_done(old, new, secret, authorization, now, post_id, r),
        acting_user(secret, authorization, now) == Some(user_id),
        old.post_with_id(post_id) matches Some(p) && p.user_id != user_id,
    ensures
        r == PostsPostIdDeleteResponse::Status401_Unauthorized,
        new == old,
        new.post_with_id(post_id) == old.post_with_id(post_id),
{
}

/// Deleting an id that no post holds, with a session that names a user,
/// answers 404 and changes nothing; asking again answers the same.
pub proof fn lemma_delete_missing_is_not_found(
    old: StoreView,
    new: StoreView,
    secret: Seq<u8>,
    authorization: Seq<u8>,
    now: u64,
    post_id: u128,
    r: PostsPostIdDeleteResponse,
)
    requires
        posts_post_id_delete_done(old, new, secret, authorization, now, post_id, r),
        acting_user(secret, authorization, now) is Some,
        !old.has_post(post_id),
    ensures
        r == PostsPostIdDeleteResponse::Status404_NotFound,
        new == old,
        !new.has_post(post_id),
{
}

/// A token issued for a user at `issued_at`, presented as `Bearer <token>`
/// or bare, acts for that user from issuance until its expiry, and from the
/// end of the validity window on presents no live session.
pub proof fn lemma_issued_token_in_header(
    secret: Seq<u8>,
    token: Seq<u8>,
    user_id: i64,
    issued_at: u64,
    now: u64,
)
    requires
        decoded_claims(secret, token) == Some((user_id_text(user_id as int), expiry_for(issued_at))),
        is_compact_token(token),
    ensures
        issued_at <= now && now < expiry_for(issued_at) ==> acting_user(
            secret,
            bearer_prefix() + token,
            now,
        ) == Some(user_id as int) && acting_user(secret, token, now) == Some(user_id as int),
        now as int >= issued_at as int + TOKEN_TTL_SECS as int ==> session_claims(
            secret,
            bearer_prefix() + token,
            now,
        ) is None && session_claims(secret, token, now) is None,
{
    assert forall|i: int| 0 <= i < token.len() implies #[trigger] token[i] != 32 by {
        assert(is_token_byte(token[i]));
    }
    lemma_strip_bearer_prefix(token);
    lemma_without_bearer_no_space(token);
    lemma_issued_token_authenticates(secret, token, user_id, issued_at, now);
}

} // verus!
