use vstd::prelude::*;

use crate::models::opt_view;
use crate::text::{contains_text, copy_opt, occurs_in, same_text};

verus! {

/// A stored account. Timestamps are seconds since the Unix epoch.
#[derive(Clone, Debug)]
pub struct User {
    pub id: u128,
    pub username: String,
    pub password_hash: String,
    pub first_name: Option<String>,
    pub last_name: Option<String>,
    pub email: String,
    pub verification_token: Option<String>,
    pub verified: bool,
    pub created_at: i64,
    pub updated_at: i64,
}

/// The mathematical value of a [`User`].
pub struct UserView {
    pub id: u128,
    pub username: Seq<char>,
    pub password_hash: Seq<char>,
    pub first_name: Option<Seq<char>>,
    pub last_name: Option<Seq<char>>,
    pub email: Seq<char>,
    pub verification_token: Option<Seq<char>>,
    pub verified: bool,
    pub created_at: i64,
    pub updated_at: i64,
}

impl View for User {
    type V = UserView;

    open spec fn view(&self) -> UserView {
        UserView {
            id: self.id,
            username: self.username@,
            password_hash: self.password_hash@,
            first_name: opt_view(self.first_name),
            last_name: opt_view(self.last_name),
            email: self.email@,
            verification_token: opt_view(self.verification_token),
            verified: self.verified,
            created_at: self.created_at,
            updated_at: self.updated_at,
        }
    }
}

impl User {
    /// A field-by-field copy.
    pub fn duplicate(&self) -> (r: User)
        ensures
            r@ == self@,
    {
        User {
            id: self.id,
            username: self.username.clone(),
            password_hash: self.password_hash.clone(),
            first_name: copy_opt(&self.first_name),
            last_name: copy_opt(&self.last_name),
            email: self.email.clone(),
            verification_token: copy_opt(&self.verification_token),
            verified: self.verified,
            created_at: self.created_at,
            updated_at: self.updated_at,
        }
    }
}

/// The fields of an account that its creator supplies.
pub struct NewUser {
    pub username: String,
    pub password_hash: String,
    pub first_name: Option<String>,
    pub last_name: Option<String>,
    pub email: String,
    pub verification_token: String,
}

/// The account that inserting `n` creates, with identifier `id` at time `now`:
/// unverified, holding its verification token.
pub open spec fn fresh_account(n: NewUser, id: u128, now: i64) -> UserView {
    UserView {
        id,
        username: n.username@,
        password_hash: n.password_hash@,
        first_name: opt_view(n.first_name),
        last_name: opt_view(n.last_name),
        email: n.email@,
        verification_token: Some(n.verification_token@),
        verified: false,
        created_at: now,
        updated_at: now,
    }
}

/// The key that a uniqueness conflict is about.
#[derive(Clone, Copy, Debug, PartialEq, Eq, Structural)]
pub enum ConflictField {
    Email,
    Username,
}

/// A failed store operation.
#[derive(Clone, Copy, Debug, PartialEq, Eq, Structural)]
pub enum StoreError {
    /// The insert would break the uniqueness of a username or an email.
    Conflict(ConflictField),
    /// No account holds the verification token.
    NotFound,
    /// Another account already holds the verification token.
    TokenTaken,
    /// The store cannot take the operation (here: identifiers are exhausted).
    Unavailable,
}

/// What a database driver's failure means for the store: a unique-key
/// violation is a conflict on the key its constraint names (`email`, else the
/// token column `vc`, else the username); anything else is a store failure.
pub open spec fn driver_failure(unique_violation: bool, constraint: Seq<char>) -> StoreError {
    if !unique_violation {
        StoreError::Unavailable
    } else if occurs_in(constraint, "email"@) {
        StoreError::Conflict(ConflictField::Email)
    } else if occurs_in(constraint, "vc"@) {
        StoreError::TokenTaken
    } else {
        StoreError::Conflict(ConflictField::Username)
    }
}

/// Reads a driver failure: whether it was a unique-key violation, and the
/// name of the constraint it reported (empty when none).
pub fn store_error_from_driver(unique_violation: bool, constraint: &str) -> (r: StoreError)
    ensures
        r == driver_failure(unique_violation, constraint@),
{
    if !unique_violation {
        StoreError::Unavailable
    } else if contains_text(constraint, "email") {
        StoreError::Conflict(ConflictField::Email)
    } else if contains_text(constraint, "vc") {
        StoreError::TokenTaken
    } else {
        StoreError::Conflict(ConflictField::Username)
    }
}

pub open spec fn has_email(a: Seq<UserView>, email: Seq<char>) -> bool {
    exists|i: int| 0 <= i < a.len() && #[trigger] a[i].email == email
}

pub open spec fn has_username(a: Seq<UserView>, username: Seq<char>) -> bool {
    exists|i: int| 0 <= i < a.len() && #[trigger] a[i].username == username
}

pub open spec fn has_id(a: Seq<UserView>, id: u128) -> bool {
    exists|i: int| 0 <= i < a.len() && #[trigger] a[i].id == id
}

pub open spec fn has_token(a: Seq<UserView>, token: Seq<char>) -> bool {
    exists|i: int| 0 <= i < a.len() && #[trigger] a[i].verification_token == Some(token)
}

/// No two accounts share an identifier, a username, an email or a
/// verification token.
pub open spec fn keys_unique(a: Seq<UserView>) -> bool {
    forall|i: int, j: int|
        0 <= i < a.len() && 0 <= j < a.len() && i != j ==> {
            &&& #[trigger] a[i].id != #[trigger] a[j].id
            &&& a[i].username != a[j].username
            &&& a[i].email != a[j].email
            &&& a[i].verification_token is Some ==> a[i].verification_token != a[j].verification_token
        }
}

/// An account after its token `token` was redeemed at `now`: verified, its
/// token cleared. Accounts that do not hold the token are left as they are.
pub open spec fn redeemed(u: UserView, token: Seq<char>, now: i64) -> UserView {
    if u.verification_token == Some(token) {
        UserView { verified: true, verification_token: None, updated_at: now, ..u }
    } else {
        u
    }
}

/// The account table. Identifiers are handed out in increasing order.
pub struct AccountStore {
    users: Vec<User>,
    next_id: u128,
}

impl AccountStore {
    /// The accounts, in insertion order.
    pub closed spec fn accounts(&self) -> Seq<UserView> {
        self.users@.map_values(|u: User| u@)
    }

    /// The identifier that the next insert will assign.
    pub closed spec fn next_id(&self) -> u128 {
        self.next_id
    }

    /// Keys are unique, and every identifier is below the next one.
    pub open spec fn wf(&self) -> bool {
        &&& keys_unique(self.accounts())
        &&& forall|i: int| 0 <= i < self.accounts().len() ==> #[trigger] self.accounts()[i].id < self.next_id()
    }

    /// An empty table; the first identifier is 1.
    pub fn new() -> (r: AccountStore)
        ensures
            r.wf(),
            r.accounts() == Seq::<UserView>::empty(),
            r.next_id() == 1,
    {
        let r = AccountStore { users: Vec::new(), next_id: 1 };
        assert(r.accounts() =~= Seq::<UserView>::empty());
        r
    }

    /// The number of accounts.
    pub fn len(&self) -> (r: usize)
        ensures
            r == self.accounts().len(),
    {
        self.users.len()
    }

    /// One read that answers both existence questions: whether an account
    /// holds `email`, and whether one holds `username`.
    pub fn exists_by_email_or_username(&self, email: &str, username: &str) -> (r: (bool, bool))
        ensures
            r.0 == has_email(self.accounts(), email@),
            r.1 == has_username(self.accounts(), username@),
    {
        let mut email_found = false;
        let mut username_found = false;
        let mut i: usize = 0;
        while i < self.users.len()
            invariant
                i <= self.users.len(),
                self.accounts().len() == self.users@.len(),
                email_found ==> has_email(self.accounts(), email@),
                !email_found ==> forall|j: int| 0 <= j < i ==> #[trigger] self.accounts()[j].email != email@,
                username_found ==> has_username(self.accounts(), username@),
                !username_found ==> forall|j: int| 0 <= j < i ==> #[trigger] self.accounts()[j].username != username@,
            decreases self.users.len() - i,
        {
            let u = &self.users[i];
            assert(self.accounts()[i as int] == u@);
            if same_text(u.email.as_str(), email) {
                assert(self.accounts()[i as int].email == email@);
                email_found = true;
            }
            if same_text(u.username.as_str(), username) {
                assert(self.accounts()[i as int].username == username@);
                username_found = true;
            }
            i = i + 1;
        }
        (email_found, username_found)
    }

    /// The account with identifier `id`, if there is one.
    pub fn find_by_id(&self, id: u128) -> (r: Option<User>)
        requires
            self.wf(),
        ensures
            r is None <==> !has_id(self.accounts(), id),
            r matches Some(u) ==> u@.id == id && exists|i: int|
                0 <= i < self.accounts().len() && #[trigger] self.accounts()[i] == u@,
    {
        let mut i: usize = 0;
        while i < self.users.len()
            invariant
                i <= self.users.len(),
                self.accounts().len() == self.users@.len(),
                forall|j: int| 0 <= j < i ==> #[trigger] self.accounts()[j].id != id,
            decreases self.users.len() - i,
        {
            assert(self.accounts()[i as int] == self.users@[i as int]@);
            if self.users[i].id == id {
                assert(self.accounts()[i as int].id == id);
                let u = self.users[i].duplicate();
                return Some(u);
            }
            i = i + 1;
        }
        None
    }

    /// Whether an account holds the verification token `token`.
    pub fn holds_token(&self, token: &str) -> (r: bool)
        ensures
            r == has_token(self.accounts(), token@),
    {
        let mut i: usize = 0;
        while i < self.users.len()
            invariant
                i <= self.users.len(),
                self.accounts().len() == self.users@.len(),
                forall|j: int| 0 <= j < i ==> #[trigger] self.accounts()[j].verification_token != Some(token@),
            decreases self.users.len() - i,
        {
            assert(self.accounts()[i as int] == self.users@[i as int]@);
            let holds = match &self.users[i].verification_token {
                Some(t) => same_text(t.as_str(), token),
                None => false,
            };
            if holds {
                assert(self.accounts()[i as int].verification_token == Some(token@));
                return true;
            }
            i = i + 1;
        }
        false
    }

    /// Inserts an account, unless its email, username or verification token
    /// is taken. Their uniqueness is enforced here, whatever a caller checked
    /// before.
    pub fn insert_account(&mut self, n: NewUser, now: i64) -> (r: Result<u128, StoreError>)
        requires
            old(self).wf(),
        ensures
            final(self).wf(),
            has_email(old(self).accounts(), n.email@) ==> r == Err::<u128, StoreError>(
                StoreError::Conflict(ConflictField::Email),
            ),
            !has_email(old(self).accounts(), n.email@) && has_username(
                old(self).accounts(),
                n.username@,
            ) ==> r == Err::<u128, StoreError>(StoreError::Conflict(ConflictField::Username)),
            !has_email(old(self).accounts(), n.email@) && !has_username(
                old(self).accounts(),
                n.username@,
            ) && has_token(old(self).accounts(), n.verification_token@) ==> r == Err::<
                u128,
                StoreError,
            >(StoreError::TokenTaken),
            !has_email(old(self).accounts(), n.email@) && !has_username(
                old(self).accounts(),
                n.username@,
            ) && !has_token(old(self).accounts(), n.verification_token@) ==> if old(self).next_id()
                == u128::MAX {
                r == Err::<u128, StoreError>(StoreError::Unavailable)
            } else {
                &&& r == Ok::<u128, StoreError>(old(self).next_id())
                &&& final(self).accounts() == old(self).accounts().push(
                    fresh_account(n, old(self).next_id(), now),
                )
                &&& final(self).next_id() == old(self).next_id() + 1
            },
            r is Err ==> final(self).accounts() == old(self).accounts() && final(self).next_id()
                == old(self).next_id(),
    {
        let (email_taken, username_taken) = self.exists_by_email_or_username(
            n.email.as_str(),
            n.username.as_str(),
        );
        if email_taken {
            return Err(StoreError::Conflict(ConflictField::Email));
        }
        if username_taken {
            return Err(StoreError::Conflict(ConflictField::Username));
        }
        if self.holds_token(n.verification_token.as_str()) {
            return Err(StoreError::TokenTaken);
        }
        if self.next_id == u128::MAX {
            return Err(StoreError::Unavailable);
        }
        let id = self.next_id;
        let ghost before = self.accounts();
        let ghost fresh = fresh_account(n, id, now);
        let u = User {
            id,
            username: n.username,
            password_hash: n.password_hash,
            first_name: n.first_name,
            last_name: n.last_name,
            email: n.email,
            verification_token: Some(n.verification_token),
            verified: false,
            created_at: now,
            updated_at: now,
        };
        assert(u@ == fresh);
        self.users.push(u);
        self.next_id = id + 1;
        assert(self.accounts() =~= before.push(fresh));
        assert(keys_unique(self.accounts())) by {
            assert forall|i: int, j: int|
                0 <= i < self.accounts().len() && 0 <= j < self.accounts().len() && i != j
                    implies {
                    &&& #[trigger] self.accounts()[i].id != #[trigger] self.accounts()[j].id
                    &&& self.accounts()[i].username != self.accounts()[j].username
                    &&& self.accounts()[i].email != self.accounts()[j].email
                    &&& self.accounts()[i].verification_token is Some
                        ==> self.accounts()[i].verification_token != self.accounts()[j].verification_token
                } by {
                if i == before.len() {
                    assert(before[j].email != fresh.email);
                    assert(before[j].username != fresh.username);
                    assert(before[j].verification_token != fresh.verification_token);
                } else if j == before.len() {
                    assert(before[i].email != fresh.email);
                    assert(before[i].username != fresh.username);
                    assert(before[i].verification_token != fresh.verification_token);
                }
            }
        }
        Ok(id)
    }

    /// Redeems a verification token: the one account holding it becomes
    /// verified and loses the token, so the token cannot be redeemed again.
    /// Returns that account's username; `NotFound`, with nothing changed,
    /// when no account holds it.
    pub fn redeem_verification_token(&mut self, token: &str, now: i64) -> (r: Result<
        String,
        StoreError,
    >)
        requires
            old(self).wf(),
        ensures
            final(self).wf(),
            final(self).next_id() == old(self).next_id(),
            !has_token(old(self).accounts(), token@) ==> r == Err::<String, StoreError>(
                StoreError::NotFound,
            ) && final(self).accounts() == old(self).accounts(),
            has_token(old(self).accounts(), token@) ==> r is Ok && exists|i: int|
                0 <= i < old(self).accounts().len()
                    && #[trigger] old(self).accounts()[i].verification_token == Some(token@)
                    && old(self).accounts()[i].username == r->Ok_0@
                    && final(self).accounts() == old(self).accounts().update(
                    i,
                    redeemed(old(self).accounts()[i], token@, now),
                ),
    {
        let ghost before = self.accounts();
        let mut i: usize = 0;
        while i < self.users.len()
            invariant
                i <= self.users.len(),
                self.accounts() == before,
                before == old(self).accounts(),
                self.next_id == old(self).next_id,
                old(self).wf(),
                self.accounts().len() == self.users@.len(),
                forall|j: int| 0 <= j < i ==> #[trigger] before[j].verification_token != Some(token@),
            decreases self.users.len() - i,
        {
            assert(self.accounts()[i as int] == self.users@[i as int]@);
            let holds = match &self.users[i].verification_token {
                Some(t) => same_text(t.as_str(), token),
                None => false,
            };
            if holds {
                let u = self.users[i].duplicate();
                let name = u.username.clone();
                let v = User { verified: true, verification_token: None, updated_at: now, ..u };
                let ghost changed = redeemed(before[i as int], token@, now);
                assert(v@ == changed);
                self.users.set(i, v);
                assert(self.accounts() =~= before.update(i as int, changed));
                assert(keys_unique(self.accounts())) by {
                    let a = self.accounts();
                    assert forall|x: int, y: int|
                        0 <= x < a.len() && 0 <= y < a.len() && x != y implies {
                            &&& #[trigger] a[x].id != #[trigger] a[y].id
                            &&& a[x].username != a[y].username
                            &&& a[x].email != a[y].email
                            &&& a[x].verification_token is Some ==> a[x].verification_token
                                != a[y].verification_token
                        } by {
                        assert(before[x].id != before[y].id);
                    }
                }
                assert(forall|k: int| 0 <= k < self.accounts().len() ==> #[trigger] self.accounts()[k].id == before[k].id);
                return Ok(name);
            }
            i = i + 1;
        }
        Err(StoreError::NotFound)
    }
}

} // verus!
