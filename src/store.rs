use vstd::prelude::*;
use crate::entity::{Post, PostView, User, UserView};
use crate::value_object::{Content, Email, HashedPassword, Name, PostId, Title, UserId};

verus! {

/// The contents of a [`Store`]: users and posts in insertion order.
pub struct StoreView {
    pub users: Seq<UserView>,
    pub posts: Seq<PostView>,
}

/// The first user, in order of registration, whose email is `email`.
pub open spec fn first_with_email(users: Seq<UserView>, email: Seq<char>) -> Option<UserView>
    decreases users.len(),
{
    if users.len() == 0 {
        None
    } else if users[0].email == email {
        Some(users[0])
    } else {
        first_with_email(users.skip(1), email)
    }
}

/// `p` with its title and content replaced.
pub open spec fn with_text(p: PostView, title: Seq<char>, content: Seq<char>) -> PostView {
    PostView { title, content, ..p }
}

impl StoreView {
    /// User ids run 1, 2, 3, ... in order of registration, and no two posts
    /// share an id.
    pub open spec fn wf(self) -> bool {
        &&& forall|i: int| 0 <= i < self.users.len() ==> #[trigger] self.users[i].id == i + 1
        &&& forall|i: int, j: int|
            0 <= i < j < self.posts.len() ==> #[trigger] self.posts[i].id != #[trigger] self.posts[j].id
    }

    pub open spec fn has_post(self, id: u128) -> bool {
        exists|i: int| 0 <= i < self.posts.len() && #[trigger] self.posts[i].id == id
    }

    /// The position of the post with id `id`, or -1 when there is none.
    pub open spec fn post_index(self, id: u128) -> int {
        if self.has_post(id) {
            choose|i: int| 0 <= i < self.posts.len() && #[trigger] self.posts[i].id == id
        } else {
            -1
        }
    }

    /// The post with id `id`, if there is one.
    pub open spec fn post_with_id(self, id: u128) -> Option<PostView> {
        if self.has_post(id) {
            Some(self.posts[self.post_index(id)])
        } else {
            None
        }
    }
}

/// The in-memory collections of users and posts. Each operation runs under
/// exclusive access, so every reader sees the state between two whole
/// operations.
pub struct Store {
    users: Vec<User>,
    posts: Vec<Post>,
}

impl View for Store {
    type V = StoreView;

    closed spec fn view(&self) -> StoreView {
        StoreView {
            users: self.users@.map_values(|u: User| u@),
            posts: self.posts@.map_values(|p: Post| p@),
        }
    }
}

impl Store {
    /// An empty store.
    pub fn new() -> (r: Store)
        ensures
            r@.users.len() == 0,
            r@.posts.len() == 0,
            r@.wf(),
    {
        let r = Store { users: Vec::new(), posts: Vec::new() };
        assert(r@.users =~= Seq::<UserView>::empty());
        assert(r@.posts =~= Seq::<PostView>::empty());
        r
    }

    /// The number of registered users.
    pub fn user_count(&self) -> (r: usize)
        ensures
            r == self@.users.len(),
    {
        self.users.len()
    }

    /// Registers a user under the next id in sequence (one more than the
    /// number of users) and returns the stored record; `None`, with nothing
    /// changed, when no id is left.
    pub fn create_user(&mut self, name: Name, email: Email, password: HashedPassword) -> (r:
        Option<User>)
        requires
            old(self)@.wf(),
        ensures
            final(self)@.wf(),
            final(self)@.posts == old(self)@.posts,
            old(self)@.users.len() >= i64::MAX ==> r is None && final(self)@ == old(self)@,
            old(self)@.users.len() < i64::MAX ==> (r matches Some(u) && u@ == (UserView {
                id: old(self)@.users.len() as int + 1,
                name: name@,
                email: email@,
                password: password@,
            }) && final(self)@.users == old(self)@.users.push(u@)),
    {
        let count = self.users.len();
        if count as u64 >= i64::MAX as u64 {
            return None;
        }
        let user = User { id: count as i64 + 1, name, email, password };
        let r = user.clone();
        self.users.push(user);
        assert(self@.users =~= old(self)@.users.push(r@));
        assert(self@.posts =~= old(self)@.posts);
        Some(r)
    }

    /// The first user registered with `email`.
    pub fn find_user_by_email(&self, email: &Email) -> (r: Option<User>)
        ensures
            match r {
                Some(u) => first_with_email(self@.users, email@) == Some(u@),
                None => first_with_email(self@.users, email@) is None,
            },
    {
        let mut i: usize = 0;
        assert(self@.users.skip(0) =~= self@.users);
        while i < self.users.len()
            invariant
                0 <= i <= self.users@.len(),
                first_with_email(self@.users, email@) == first_with_email(
                    self@.users.skip(i as int),
                    email@,
                ),
            decreases self.users@.len() - i,
        {
            let ghost rest = self@.users.skip(i as int);
            assert(self@.users[i as int] == self.users@[i as int]@);
            assert(rest[0] == self.users@[i as int]@);
            if self.users[i].email.eq(email) {
                return Some(self.users[i].clone());
            }
            assert(rest.skip(1) =~= self@.users.skip(i + 1));
            i = i + 1;
        }
        assert(self@.users.skip(i as int) =~= Seq::<UserView>::empty());
        None
    }

    /// Finds the position of the post with id `id`.
    fn position_of_post(&self, id: PostId) -> (r: Option<usize>)
        requires
            self@.wf(),
        ensures
            match r {
                Some(i) => i as int == self@.post_index(id) && i < self.posts@.len(),
                None => !self@.has_post(id) && self@.post_index(id) == -1,
            },
    {
        let mut i: usize = 0;
        while i < self.posts.len()
            invariant
                0 <= i <= self.posts@.len(),
                self@.wf(),
                self@.posts.len() == self.posts@.len(),
                forall|j: int| 0 <= j < i ==> self@.posts[j].id != id,
            decreases self.posts@.len() - i,
        {
            assert(self@.posts[i as int] == self.posts@[i as int]@);
            if self.posts[i].id == id {
                assert(self@.posts[i as int].id == id);
                assert(self@.has_post(id));
                let ghost k = self@.post_index(id);
                assert(self@.posts[k].id == id);
                assert(k == i) by {
                    if k < i {
                        assert(self@.posts[k].id != self@.posts[i as int].id);
                    } else if k > i {
                        assert(self@.posts[i as int].id != self@.posts[k].id);
                    }
                }
                return Some(i);
            }
            i = i + 1;
        }
        None
    }

    /// Appends a post under a fresh id; `None`, with nothing changed, when a
    /// post already holds that id.
    pub fn create_post(&mut self, id: PostId, user_id: UserId, title: Title, content: Content) -> (r:
        Option<Post>)
        requires
            old(self)@.wf(),
        ensures
            final(self)@.wf(),
            final(self)@.users == old(self)@.users,
            old(self)@.has_post(id) ==> r is None && final(self)@ == old(self)@,
            !old(self)@.has_post(id) ==> (r matches Some(p) && p@ == (PostView {
                id,
                user_id: user_id as int,
                title: title@,
                content: content@,
            }) && final(self)@.posts == old(self)@.posts.push(p@)),
    {
        if self.position_of_post(id).is_some() {
            return None;
        }
        let post = Post { id, user_id, title, content };
        let r = post.clone();
        self.posts.push(post);
        assert(self@.posts =~= old(self)@.posts.push(r@));
        assert(self@.users =~= old(self)@.users);
        Some(r)
    }

    /// A snapshot of all posts in insertion order.
    pub fn list_posts(&self) -> (r: Vec<Post>)
        ensures
            r@.map_values(|p: Post| p@) == self@.posts,
    {
        let mut out: Vec<Post> = Vec::new();
        let mut i: usize = 0;
        while i < self.posts.len()
            invariant
                0 <= i <= self.posts@.len(),
                out@.map_values(|p: Post| p@) =~= self@.posts.take(i as int),
            decreases self.posts@.len() - i,
        {
            let p = self.posts[i].clone();
            let ghost before = out@;
            out.push(p);
            assert(out@ =~= before.push(p));
            assert(out@.map_values(|p: Post| p@) =~= before.map_values(|p: Post| p@).push(p@));
            assert(self@.posts.take(i + 1) =~= self@.posts.take(i as int).push(self@.posts[i as int]));
            i = i + 1;
        }
        assert(self@.posts.take(i as int) =~= self@.posts);
        out
    }

    /// The post with id `id`.
    pub fn find_post_by_id(&self, id: PostId) -> (r: Option<Post>)
        requires
            self@.wf(),
        ensures
            match r {
                Some(p) => self@.post_with_id(id) == Some(p@),
                None => self@.post_with_id(id) is None,
            },
    {
        match self.position_of_post(id) {
            Some(i) => Some(self.posts[i].clone()),
            None => None,
        }
    }

    /// Replaces the title and content of the post with id `id`, returning
    /// the updated record; `None`, with nothing changed, when there is no
    /// such post.
    pub fn update_post(&mut self, id: PostId, title: Title, content: Content) -> (r: Option<Post>)
        requires
            old(self)@.wf(),
        ensures
            final(self)@.wf(),
            final(self)@.users == old(self)@.users,
            !old(self)@.has_post(id) ==> r is None && final(self)@ == old(self)@,
            old(self)@.has_post(id) ==> (r matches Some(p) && p@ == with_text(
                old(self)@.posts[old(self)@.post_index(id)],
                title@,
                content@,
            ) && final(self)@.posts == old(self)@.posts.update(old(self)@.post_index(id), p@)),
    {
        match self.position_of_post(id) {
            Some(i) => {
                let user_id = self.posts[i].user_id;
                let post = Post { id, user_id, title, content };
                let r = post.clone();
                self.posts.set(i, post);
                assert(self@.posts =~= old(self)@.posts.update(i as int, r@));
                assert(self@.users =~= old(self)@.users);
                assert forall|a: int, b: int|
                    0 <= a < b < self@.posts.len() implies #[trigger] self@.posts[a].id
                    != #[trigger] self@.posts[b].id by {
                    assert(old(self)@.posts[a].id != old(self)@.posts[b].id);
                }
                Some(r)
            },
            None => None,
        }
    }

    /// Removes the post with id `id`; `false`, with nothing changed, when
    /// there is no such post.
    pub fn delete_post(&mut self, id: PostId) -> (r: bool)
        requires
            old(self)@.wf(),
        ensures
            final(self)@.wf(),
            final(self)@.users == old(self)@.users,
            r == old(self)@.has_post(id),
            !r ==> final(self)@ == old(self)@,
            r ==> final(self)@.posts == old(self)@.posts.remove(old(self)@.post_index(id)),
    {
        match self.position_of_post(id) {
            Some(i) => {
                self.posts.remove(i);
                assert(self@.posts =~= old(self)@.posts.remove(i as int));
                assert(self@.users =~= old(self)@.users);
                assert forall|a: int, b: int|
                    0 <= a < b < self@.posts.len() implies #[trigger] self@.posts[a].id
                    != #[trigger] self@.posts[b].id by {
                    let a0 = if a < i { a } else { a + 1 };
                    let b0 = if b < i { b } else { b + 1 };
                    assert(self@.posts[a] == old(self)@.posts[a0]);
                    assert(self@.posts[b] == old(self)@.posts[b0]);
                    assert(old(self)@.posts[a0].id != old(self)@.posts[b0].id);
                }
                true
            },
            None => false,
        }
    }
}

} // verus!
