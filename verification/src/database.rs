use vstd::prelude::*;

use crate::auth::{AuthError, CreateUserRequest, LoginRequest, RegisterRequest, User};
use crate::hashing::{bcrypt_matches, hash_password, verify_password, wf_digest};

verus! {

/// The mathematical image of one stored row.
pub ghost struct UserView {
    pub id: int,
    pub username: Seq<char>,
    pub password_hash: Seq<char>,
    pub email: Option<Seq<char>>,
    pub full_name: Option<Seq<char>>,
}

pub open spec fn opt_str_view(o: Option<String>) -> Option<Seq<char>> {
    match o {
        Some(s) => Some(s@),
        None => None,
    }
}

/// Some row of `s` carries `name`.
pub open spec fn has_username(s: Seq<UserView>, name: Seq<char>) -> bool {
    exists|i: int| 0 <= i < s.len() && (#[trigger] s[i]).username == name
}

/// The index of a row carrying `name`; meaningful when `has_username` holds,
/// and unique under the store's well-formedness.
pub open spec fn index_of_username(s: Seq<UserView>, name: Seq<char>) -> int {
    choose|i: int| 0 <= i < s.len() && (#[trigger] s[i]).username == name
}

/// How many rows of `s` carry `name`.
pub open spec fn count_username(s: Seq<UserView>, name: Seq<char>) -> nat
    decreases s.len(),
{
    if s.len() == 0 {
        0
    } else {
        (if s.last().username == name {
            1nat
        } else {
            0nat
        }) + count_username(s.drop_last(), name)
    }
}

struct UserRecord {
    id: i32,
    username: String,
    password_hash: String,
    email: Option<String>,
    full_name: Option<String>,
}

impl View for UserRecord {
    type V = UserView;

    closed spec fn view(&self) -> UserView {
        UserView {
            id: self.id as int,
            username: self.username@,
            password_hash: self.password_hash@,
            email: opt_str_view(self.email),
            full_name: opt_str_view(self.full_name),
        }
    }
}

/// The credential store: rows in creation order, and the identifier the next
/// row will receive.
pub struct Database {
    users: Vec<UserRecord>,
    next_id: i32,
}

impl View for Database {
    type V = Seq<UserView>;

    closed spec fn view(&self) -> Seq<UserView> {
        self.users@.map_values(|u: UserRecord| u@)
    }
}

impl Database {
    pub closed spec fn spec_next_id(&self) -> int {
        self.next_id as int
    }

    /// Well-formedness: identifiers are positive, strictly increasing in
    /// creation order and below the next free one, and usernames are unique.
    pub open spec fn wf(&self) -> bool {
        &&& 1 <= self.spec_next_id() <= i32::MAX
        &&& forall|i: int|
            0 <= i < self@.len() ==> 0 < (#[trigger] self@[i]).id < self.spec_next_id()
        &&& forall|i: int, j: int|
            0 <= i < j < self@.len() ==> (#[trigger] self@[i]).id < (#[trigger] self@[j]).id
        &&& forall|i: int, j: int|
            0 <= i < j < self@.len() ==> (#[trigger] self@[i]).username != (
            #[trigger] self@[j]).username
    }

    /// An empty store.
    pub fn new() -> (db: Database)
        ensures
            db@ =~= Seq::<UserView>::empty(),
            db.wf(),
    {
        let db = Database { users: Vec::new(), next_id: 1 };
        proof {
            assert(db@ =~= Seq::<UserView>::empty());
        }
        db
    }

    /// The index of the row carrying `name`, if any.
    fn find_index(&self, name: &String) -> (r: Option<usize>)
        ensures
            match r {
                Some(i) => i < self@.len() && self@[i as int].username == name@,
                None => !has_username(self@, name@),
            },
    {
        let len: usize = self.users.len();
        let mut i: usize = 0;
        while i < len
            invariant
                len == self.users@.len(),
                i <= len,
                forall|k: int| 0 <= k < i ==> (#[trigger] self@[k]).username != name@,
            decreases len - i,
        {
            if self.users[i].username == *name {
                return Some(i);
            }
            i = i + 1;
        }
        None
    }

    /// Registers a user with optional profile fields. Fails with
    /// `UsernameTaken` exactly when the username is already present; a
    /// hashing failure, and the exhaustion of the identifier space (reported
    /// as a store failure), are the only other errors, and no error changes
    /// the store.
    pub fn create_user(&mut self, req: CreateUserRequest) -> (r: Result<User, AuthError>)
        requires
            old(self).wf(),
        ensures
            final(self).wf(),
            r is Err ==> final(self)@ == old(self)@,
            (r is Err && r->Err_0 is UsernameTaken) <==> has_username(old(self)@, req.username@),
            r is Err ==> (r->Err_0 is UsernameTaken || r->Err_0 is HashingError
                || r->Err_0 is Database),
            (r is Err && r->Err_0 is Database) ==> old(self).spec_next_id() == i32::MAX,
            r is Ok ==> ({
                let u = r->Ok_0;
                let row = final(self)@.last();
                &&& !has_username(old(self)@, req.username@)
                &&& final(self)@ =~= old(self)@.push(row)
                &&& row.id == u.id
                &&& 0 < u.id
                &&& row.username == req.username@
                &&& u.username@ == req.username@
                &&& row.email == opt_str_view(req.email)
                &&& row.full_name == opt_str_view(req.full_name)
                &&& wf_digest(row.password_hash)
                &&& bcrypt_matches(req.password@, row.password_hash)
            }),
    {
        if self.find_index(&req.username).is_some() {
            return Err(AuthError::UsernameTaken);
        }
        if self.next_id == i32::MAX {
            return Err(AuthError::Database(String::from_str("user id space exhausted")));
        }
        let digest = match hash_password(&req.password) {
            Ok(d) => d,
            Err(_) => {
                return Err(AuthError::HashingError);
            },
        };
        let id: i32 = self.next_id;
        self.next_id = self.next_id + 1;
        let stored_name = req.username.clone();
        let rec = UserRecord {
            id,
            username: stored_name,
            password_hash: digest,
            email: req.email,
            full_name: req.full_name,
        };
        let ghost prev = self@;
        let ghost recv = rec@;
        self.users.push(rec);
        proof {
            assert(self@ =~= prev.push(recv));
        }
        Ok(User { id, username: req.username })
    }

    /// Registers a user without profile fields; behaves as `create_user`
    /// with both optional fields absent.
    pub fn register_user(&mut self, req: RegisterRequest) -> (r: Result<User, AuthError>)
        requires
            old(self).wf(),
        ensures
            final(self).wf(),
            r is Err ==> final(self)@ == old(self)@,
            (r is Err && r->Err_0 is UsernameTaken) <==> has_username(old(self)@, req.username@),
            r is Err ==> (r->Err_0 is UsernameTaken || r->Err_0 is HashingError
                || r->Err_0 is Database),
            (r is Err && r->Err_0 is Database) ==> old(self).spec_next_id() == i32::MAX,
            r is Ok ==> ({
                let u = r->Ok_0;
                let row = final(self)@.last();
                &&& !has_username(old(self)@, req.username@)
                &&& final(self)@ =~= old(self)@.push(row)
                &&& row.id == u.id
                &&& 0 < u.id
                &&& row.username == req.username@
                &&& u.username@ == req.username@
                &&& row.email is None
                &&& row.full_name is None
                &&& wf_digest(row.password_hash)
                &&& bcrypt_matches(req.password@, row.password_hash)
            }),
    {
        self.create_user(
            CreateUserRequest {
                username: req.username,
                password: req.password,
                email: None,
                full_name: None,
            },
        )
    }

    /// Checks a password against the stored row. An absent username and a
    /// mismatching password are both reported as `InvalidCredentials` and
    /// are indistinguishable to the caller; on the stored digests the store
    /// itself produces, success is exactly a matching password.
    pub fn login_user(&self, req: LoginRequest) -> (r: Result<User, AuthError>)
        requires
            self.wf(),
        ensures
            !has_username(self@, req.username@) ==> r is Err && r->Err_0 is InvalidCredentials,
            r is Err ==> (r->Err_0 is InvalidCredentials || r->Err_0 is HashingError),
            has_username(self@, req.username@) ==> ({
                let row = self@[index_of_username(self@, req.username@)];
                &&& (r is Ok ==> bcrypt_matches(req.password@, row.password_hash)
                    && r->Ok_0.id == row.id && 0 < r->Ok_0.id && r->Ok_0.username@
                    == req.username@)
                &&& (wf_digest(row.password_hash) ==> (r is Ok <==> bcrypt_matches(
                    req.password@,
                    row.password_hash,
                )))
                &&& ((r is Err && r->Err_0 is InvalidCredentials) ==> !bcrypt_matches(
                    req.password@,
                    row.password_hash,
                ))
            }),
    {
        match self.find_index(&req.username) {
            None => Err(AuthError::InvalidCredentials),
            Some(i) => {
                proof {
                    let j = index_of_username(self@, req.username@);
                    assert(0 <= j < self@.len() && self@[j].username == req.username@);
                    if j < i as int {
                        assert(self@[j].username != self@[i as int].username);
                    }
                    if (i as int) < j {
                        assert(self@[i as int].username != self@[j].username);
                    }
                    assert(j == i as int);
                }
                let row = &self.users[i];
                match verify_password(&req.password, &row.password_hash) {
                    Err(_) => Err(AuthError::HashingError),
                    Ok(true) => Ok(User { id: row.id, username: row.username.clone() }),
                    Ok(false) => Err(AuthError::InvalidCredentials),
                }
            },
        }
    }

    /// All users, most recent first, without digests or profile fields.
    pub fn get_all_users(&self) -> (r: Vec<User>)
        ensures
            r@.len() == self@.len(),
            forall|i: int|
                0 <= i < r@.len() ==> (#[trigger] r@[i]).id == self@[self@.len() - 1 - i].id
                    && r@[i].username@ == self@[self@.len() - 1 - i].username,
    {
        let len: usize = self.users.len();
        let mut out: Vec<User> = Vec::new();
        let mut k: usize = 0;
        while k < len
            invariant
                len == self.users@.len(),
                k <= len,
                out@.len() == k,
                forall|i: int|
                    0 <= i < k ==> (#[trigger] out@[i]).id == self@[len - 1 - i].id
                        && out@[i].username@ == self@[len - 1 - i].username,
            decreases len - k,
        {
            let rec = &self.users[len - 1 - k];
            out.push(User { id: rec.id, username: rec.username.clone() });
            k = k + 1;
        }
        out
    }
}

/// A username absent from every row is counted zero times.
proof fn lemma_count_absent(s: Seq<UserView>, name: Seq<char>)
    requires
        !has_username(s, name),
    ensures
        count_username(s, name) == 0,
    decreases s.len(),
{
    if s.len() > 0 {
        assert(forall|i: int|
            0 <= i < s.drop_last().len() ==> (#[trigger] s.drop_last()[i]) == s[i]);
        lemma_count_absent(s.drop_last(), name);
    }
}

/// Registering a previously absent username leaves the store with exactly
/// one row carrying it.
pub proof fn lemma_register_unique(s: Seq<UserView>, u: UserView)
    requires
        !has_username(s, u.username),
    ensures
        count_username(s.push(u), u.username) == 1,
{
    let t = s.push(u);
    assert(t.last() == u);
    assert(t.drop_last() =~= s);
    lemma_count_absent(s, u.username);
}

/// The row pushed for a previously absent username is the row that a later
/// lookup of that username finds: a registration followed by a login of the
/// same username reaches exactly the registered row.
pub proof fn lemma_lookup_after_push(s: Seq<UserView>, u: UserView)
    requires
        !has_username(s, u.username),
    ensures
        has_username(s.push(u), u.username),
        index_of_username(s.push(u), u.username) == s.len(),
        s.push(u)[index_of_username(s.push(u), u.username)] == u,
{
    let t = s.push(u);
    assert(t[s.len() as int] == u);
    assert(has_username(t, u.username));
    let j = index_of_username(t, u.username);
    assert(0 <= j < t.len() && t[j].username == u.username);
    if j < s.len() {
        assert(t[j] == s[j]);
        assert(has_username(s, u.username));
    }
}

/// A registered row logs in with the password it was registered with: in a
/// store extended by a fresh row whose digest is well formed and matches a
/// password, looking the username up finds that row, and its digest still
/// matches, so `login_user` there returns the registered identifier.
pub proof fn lemma_login_after_register(s: Seq<UserView>, u: UserView, password: Seq<char>)
    requires
        !has_username(s, u.username),
        wf_digest(u.password_hash),
        bcrypt_matches(password, u.password_hash),
    ensures
        has_username(s.push(u), u.username),
        ({
            let row = s.push(u)[index_of_username(s.push(u), u.username)];
            &&& row == u
            &&& wf_digest(row.password_hash)
            &&& bcrypt_matches(password, row.password_hash)
        }),
{
    lemma_lookup_after_push(s, u);
}

} // verus!
