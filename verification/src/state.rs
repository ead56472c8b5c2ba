//! What the client knows of itself and of the other users.
use crate::messages::{FileSizeInfo, FileSizeView};
use crate::text::{clone_opt_text, first_index_of, lemma_first_index_of, opt_view, texts_equal};
use vstd::prelude::*;

verus! {

/// A user as the server tells of them. Durations are in milliseconds.
#[derive(Debug)]
pub struct User {
    pub username: String,
    pub room: String,
    pub file: Option<String>,
    pub file_size: Option<FileSizeInfo>,
    pub file_duration: Option<i64>,
    pub is_ready: Option<bool>,
    pub is_controller: bool,
}

pub struct UserView {
    pub username: Seq<char>,
    pub room: Seq<char>,
    pub file: Option<Seq<char>>,
    pub file_size: Option<FileSizeView>,
    pub file_duration: Option<i64>,
    pub is_ready: Option<bool>,
    pub is_controller: bool,
}

impl View for User {
    type V = UserView;

    open spec fn view(&self) -> UserView {
        UserView {
            username: self.username@,
            room: self.room@,
            file: opt_view(self.file),
            file_size: opt_view(self.file_size),
            file_duration: self.file_duration,
            is_ready: self.is_ready,
            is_controller: self.is_controller,
        }
    }
}

impl UserView {
    /// Whether the user is ready, for a user who has a file; nothing for one
    /// who has none.
    pub open spec fn ready_with_file(self) -> Option<bool> {
        if self.file.is_none() {
            None
        } else {
            self.is_ready
        }
    }
}

pub fn clone_opt_size(size: &Option<FileSizeInfo>) -> (r: Option<FileSizeInfo>)
    ensures
        opt_view(r) == opt_view(*size),
{
    match size {
        Some(s) => Some(s.clone()),
        None => None,
    }
}

impl Clone for User {
    fn clone(&self) -> (r: Self)
        ensures
            r@ == self@,
    {
        User {
            username: self.username.clone(),
            room: self.room.clone(),
            file: clone_opt_text(&self.file),
            file_size: clone_opt_size(&self.file_size),
            file_duration: self.file_duration,
            is_ready: self.is_ready,
            is_controller: self.is_controller,
        }
    }
}

impl User {
    pub fn is_ready_with_file(&self) -> (r: Option<bool>)
        ensures
            r == self@.ready_with_file(),
    {
        if self.file.is_none() {
            return None;
        }
        self.is_ready
    }
}

/// The last state of playback that the server announced. Positions are in
/// milliseconds.
#[derive(Debug)]
pub struct GlobalPlayState {
    pub position: i64,
    pub paused: bool,
    pub set_by: Option<String>,
}

pub struct GlobalPlayStateView {
    pub position: i64,
    pub paused: bool,
    pub set_by: Option<Seq<char>>,
}

impl View for GlobalPlayState {
    type V = GlobalPlayStateView;

    open spec fn view(&self) -> GlobalPlayStateView {
        GlobalPlayStateView {
            position: self.position,
            paused: self.paused,
            set_by: opt_view(self.set_by),
        }
    }
}

impl Clone for GlobalPlayState {
    fn clone(&self) -> (r: Self)
        ensures
            r@ == self@,
    {
        GlobalPlayState {
            position: self.position,
            paused: self.paused,
            set_by: clone_opt_text(&self.set_by),
        }
    }
}

/// The client's own state and the users it knows. No two users have the
/// same name.
pub struct ClientState {
    username: String,
    room: String,
    file: Option<String>,
    file_size: Option<FileSizeInfo>,
    file_duration: Option<i64>,
    users: Vec<User>,
    global_state: GlobalPlayState,
    is_ready: bool,
    server_version: Option<String>,
}

pub struct ClientStateView {
    pub username: Seq<char>,
    pub room: Seq<char>,
    pub file: Option<Seq<char>>,
    pub file_size: Option<FileSizeView>,
    pub file_duration: Option<i64>,
    pub users: Seq<UserView>,
    pub global_state: GlobalPlayStateView,
    pub is_ready: bool,
    pub server_version: Option<Seq<char>>,
}

pub open spec fn user_views(users: Seq<User>) -> Seq<UserView> {
    Seq::new(users.len(), |i: int| users[i]@)
}

pub open spec fn user_names(users: Seq<UserView>) -> Seq<Seq<char>> {
    Seq::new(users.len(), |i: int| users[i].username)
}

/// The index of the user of that name, or -1.
pub open spec fn user_index(users: Seq<UserView>, name: Seq<char>) -> int {
    first_index_of(user_names(users), name)
}

/// The user of that name, if there is one.
pub open spec fn user_named(users: Seq<UserView>, name: Seq<char>) -> Option<UserView> {
    if user_index(users, name) >= 0 {
        Some(users[user_index(users, name)])
    } else {
        None
    }
}

pub open spec fn distinct_names(users: Seq<UserView>) -> bool {
    forall|i: int, j: int|
        0 <= i < users.len() && 0 <= j < users.len() && i != j ==> users[i].username
            != users[j].username
}

/// The users with `user` among them: in the place of the one of that name
/// where there is one, else at the end.
pub open spec fn with_user(users: Seq<UserView>, user: UserView) -> Seq<UserView> {
    let i = user_index(users, user.username);
    if i >= 0 {
        users.update(i, user)
    } else {
        users.push(user)
    }
}

/// The users without the one of that name.
pub open spec fn without_user(users: Seq<UserView>, name: Seq<char>) -> Seq<UserView> {
    let i = user_index(users, name);
    if i >= 0 {
        users.remove(i)
    } else {
        users
    }
}

/// The users that are in `room`, in their order.
pub open spec fn users_in(users: Seq<UserView>, room: Seq<char>) -> Seq<UserView>
    decreases users.len(),
{
    if users.len() == 0 {
        Seq::empty()
    } else if users.last().room == room {
        users_in(users.drop_last(), room).push(users.last())
    } else {
        users_in(users.drop_last(), room)
    }
}

pub proof fn lemma_user_index(users: Seq<UserView>, name: Seq<char>)
    ensures
        -1 <= user_index(users, name) < users.len(),
        user_index(users, name) >= 0 ==> users[user_index(users, name)].username == name,
        user_index(users, name) == -1 ==> forall|i: int|
            0 <= i < users.len() ==> users[i].username != name,
{
    lemma_first_index_of(user_names(users), name);
    if user_index(users, name) == -1 {
        assert forall|i: int| 0 <= i < users.len() implies users[i].username != name by {
            assert(user_names(users)[i] == users[i].username);
            assert(user_names(users).contains(user_names(users)[i]));
        }
    }
}

/// Putting a user among users with distinct names leaves the names distinct.
pub proof fn lemma_with_user_distinct(users: Seq<UserView>, user: UserView)
    requires
        distinct_names(users),
    ensures
        distinct_names(with_user(users, user)),
{
    lemma_user_index(users, user.username);
}

/// Taking a user out of users with distinct names leaves the names distinct.
pub proof fn lemma_without_user_distinct(users: Seq<UserView>, name: Seq<char>)
    requires
        distinct_names(users),
    ensures
        distinct_names(without_user(users, name)),
{
    lemma_user_index(users, name);
}

impl View for ClientState {
    type V = ClientStateView;

    closed spec fn view(&self) -> ClientStateView {
        ClientStateView {
            username: self.username@,
            room: self.room@,
            file: opt_view(self.file),
            file_size: opt_view(self.file_size),
            file_duration: self.file_duration,
            users: user_views(self.users@),
            global_state: self.global_state@,
            is_ready: self.is_ready,
            server_version: opt_view(self.server_version),
        }
    }
}

impl ClientState {
    /// The invariant of the state: no two users have the same name.
    pub open spec fn wf(&self) -> bool {
        distinct_names(self@.users)
    }

    pub fn new() -> (r: Self)
        ensures
            r.wf(),
            r@ == (ClientStateView {
                username: Seq::empty(),
                room: Seq::empty(),
                file: None,
                file_size: None,
                file_duration: None,
                users: Seq::empty(),
                global_state: GlobalPlayStateView { position: 0, paused: true, set_by: None },
                is_ready: false,
                server_version: None,
            }),
    {
        let r = Self {
            username: String::new(),
            room: String::new(),
            file: None,
            file_size: None,
            file_duration: None,
            users: Vec::new(),
            global_state: GlobalPlayState { position: 0, paused: true, set_by: None },
            is_ready: false,
            server_version: None,
        };
        assert(r@.users =~= Seq::empty());
        r
    }

    pub fn get_username(&self) -> (r: String)
        ensures
            r@ == self@.username,
    {
        self.username.clone()
    }

    pub fn set_username(&mut self, username: String)
        ensures
            final(self)@ == (ClientStateView { username: username@, ..old(self)@ }),
    {
        self.username = username;
    }

    pub fn get_room(&self) -> (r: String)
        ensures
            r@ == self@.room,
    {
        self.room.clone()
    }

    pub fn set_room(&mut self, room: String)
        ensures
            final(self)@ == (ClientStateView { room: room@, ..old(self)@ }),
    {
        self.room = room;
    }

    pub fn get_file(&self) -> (r: Option<String>)
        ensures
            opt_view(r) == self@.file,
    {
        clone_opt_text(&self.file)
    }

    pub fn set_file(&mut self, file: Option<String>)
        ensures
            final(self)@ == (ClientStateView { file: opt_view(file), ..old(self)@ }),
    {
        self.file = file;
    }

    pub fn get_file_size(&self) -> (r: Option<FileSizeInfo>)
        ensures
            opt_view(r) == self@.file_size,
    {
        clone_opt_size(&self.file_size)
    }

    pub fn set_file_size(&mut self, size: Option<FileSizeInfo>)
        ensures
            final(self)@ == (ClientStateView { file_size: opt_view(size), ..old(self)@ }),
    {
        self.file_size = size;
    }

    pub fn get_file_duration(&self) -> (r: Option<i64>)
        ensures
            r == self@.file_duration,
    {
        self.file_duration
    }

    pub fn set_file_duration(&mut self, duration: Option<i64>)
        ensures
            final(self)@ == (ClientStateView { file_duration: duration, ..old(self)@ }),
    {
        self.file_duration = duration;
    }

    fn position_of(&self, username: &str) -> (r: Option<usize>)
        ensures
            match r {
                Some(i) => user_index(self@.users, username@) == i && i < self.users@.len(),
                None => user_index(self@.users, username@) == -1,
            },
    {
        let ghost names = user_names(self@.users);
        let mut i: usize = 0;
        while i < self.users.len()
            invariant
                i <= self.users.len(),
                names == user_names(self@.users),
                first_index_of(names, username@) == crate::text::index_from(
                    names,
                    username@,
                    i as int,
                ),
            decreases self.users.len() - i,
        {
            assert(names[i as int] == self.users@[i as int].username@);
            if texts_equal(&self.users[i].username, username) {
                return Some(i);
            }
            i = i + 1;
        }
        None
    }

    /// Puts a user among the users; one with the same name is replaced.
    pub fn add_user(&mut self, user: User)
        requires
            old(self).wf(),
        ensures
            final(self).wf(),
            final(self)@ == (ClientStateView {
                users: with_user(old(self)@.users, user@),
                ..old(self)@
            }),
    {
        proof {
            lemma_with_user_distinct(self@.users, user@);
        }
        match self.position_of(user.username.as_str()) {
            Some(i) => {
                self.users.set(i, user);
                assert(self@.users =~= old(self)@.users.update(i as int, user@));
            },
            None => {
                self.users.push(user);
                assert(self@.users =~= old(self)@.users.push(user@));
            },
        }
    }

    pub fn remove_user(&mut self, username: &str)
        requires
            old(self).wf(),
        ensures
            final(self).wf(),
            final(self)@ == (ClientStateView {
                users: without_user(old(self)@.users, username@),
                ..old(self)@
            }),
    {
        proof {
            lemma_without_user_distinct(self@.users, username@);
        }
        match self.position_of(username) {
            Some(i) => {
                self.users.remove(i);
                assert(self@.users =~= old(self)@.users.remove(i as int));
            },
            None => {},
        }
    }

    pub fn get_user(&self, username: &str) -> (r: Option<User>)
        ensures
            opt_view(r) == user_named(self@.users, username@),
    {
        match self.position_of(username) {
            Some(i) => Some(self.users[i].clone()),
            None => None,
        }
    }

    pub fn get_users(&self) -> (r: Vec<User>)
        ensures
            user_views(r@) == self@.users,
    {
        let mut r: Vec<User> = Vec::new();
        let mut i: usize = 0;
        while i < self.users.len()
            invariant
                i <= self.users.len(),
                r.len() == i,
                forall|j: int| 0 <= j < i ==> r@[j]@ == self.users@[j]@,
            decreases self.users.len() - i,
        {
            r.push(self.users[i].clone());
            i = i + 1;
        }
        assert(user_views(r@) =~= self@.users);
        r
    }

    pub fn get_users_in_room(&self, room: &str) -> (r: Vec<User>)
        ensures
            user_views(r@) == users_in(self@.users, room@),
    {
        let mut r: Vec<User> = Vec::new();
        let mut i: usize = 0;
        let ghost all = self@.users;
        assert(all.take(0) =~= Seq::<UserView>::empty());
        assert(user_views(r@) =~= Seq::<UserView>::empty());
        while i < self.users.len()
            invariant
                i <= self.users.len(),
                all == self@.users,
                user_views(r@) == users_in(all.take(i as int), room@),
            decreases self.users.len() - i,
        {
            proof {
                assert(all.take(i + 1).drop_last() =~= all.take(i as int));
                assert(all.take(i + 1).last() == self.users@[i as int]@);
            }
            if texts_equal(&self.users[i].room, room) {
                let ghost before = user_views(r@);
                r.push(self.users[i].clone());
                assert(user_views(r@) =~= before.push(self.users@[i as int]@));
            }
            i = i + 1;
        }
        assert(all.take(self.users.len() as int) =~= all);
        r
    }

    pub fn clear_users(&mut self)
        ensures
            final(self).wf(),
            final(self)@ == (ClientStateView { users: Seq::empty(), ..old(self)@ }),
    {
        self.users.clear();
        assert(self@.users =~= Seq::empty());
    }

    pub fn get_global_state(&self) -> (r: GlobalPlayState)
        ensures
            r@ == self@.global_state,
    {
        self.global_state.clone()
    }

    pub fn set_global_state(&mut self, position: i64, paused: bool, set_by: Option<String>)
        ensures
            final(self)@ == (ClientStateView {
                global_state: GlobalPlayStateView { position, paused, set_by: opt_view(set_by) },
                ..old(self)@
            }),
    {
        self.global_state = GlobalPlayState { position, paused, set_by };
    }

    pub fn is_ready(&self) -> (r: bool)
        ensures
            r == self@.is_ready,
    {
        self.is_ready
    }

    pub fn set_ready(&mut self, ready: bool)
        ensures
            final(self)@ == (ClientStateView { is_ready: ready, ..old(self)@ }),
    {
        self.is_ready = ready;
    }

    pub fn get_server_version(&self) -> (r: Option<String>)
        ensures
            opt_view(r) == self@.server_version,
    {
        clone_opt_text(&self.server_version)
    }

    pub fn set_server_version(&mut self, version: String)
        ensures
            final(self)@ == (ClientStateView { server_version: Some(version@), ..old(self)@ }),
    {
        self.server_version = Some(version);
    }
}

/// A change of the users.
#[derive(Debug)]
pub enum UserChange {
    /// No change.
    Keep,
    /// Put a user among the users.
    Put(User),
    /// Take the user of that name away.
    Remove(String),
}

pub enum UserChangeView {
    Keep,
    Put(UserView),
    Remove(Seq<char>),
}

impl View for UserChange {
    type V = UserChangeView;

    open spec fn view(&self) -> UserChangeView {
        match self {
            UserChange::Keep => UserChangeView::Keep,
            UserChange::Put(u) => UserChangeView::Put(u@),
            UserChange::Remove(n) => UserChangeView::Remove(n@),
        }
    }
}

/// The users after a change.
pub open spec fn users_changed(users: Seq<UserView>, change: UserChangeView) -> Seq<UserView> {
    match change {
        UserChangeView::Keep => users,
        UserChangeView::Put(u) => with_user(users, u),
        UserChangeView::Remove(n) => without_user(users, n),
    }
}

impl ClientState {
    /// Makes a change of the users.
    pub fn change_user(&mut self, change: UserChange)
        requires
            old(self).wf(),
        ensures
            final(self).wf(),
            final(self)@ == (ClientStateView {
                users: users_changed(old(self)@.users, change@),
                ..old(self)@
            }),
    {
        match change {
            UserChange::Keep => {},
            UserChange::Put(u) => {
                self.add_user(u);
            },
            UserChange::Remove(n) => {
                self.remove_user(n.as_str());
            },
        }
    }

    /// Sets the client's readiness where one is given.
    pub fn set_ready_if(&mut self, ready: Option<bool>)
        ensures
            final(self).wf() == old(self).wf(),
            final(self)@ == (ClientStateView {
                is_ready: match ready {
                    Some(r) => r,
                    None => old(self)@.is_ready,
                },
                ..old(self)@
            }),
    {
        match ready {
            Some(r) => {
                self.is_ready = r;
            },
            None => {},
        }
    }
}

} // verus!
