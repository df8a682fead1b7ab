use vstd::prelude::*;
use crate::errors::ApiError;
use crate::user::UserRow;

verus! {

/// The index of the first row at or after `i` whose email matches, if any:
/// the row a lookup by email hits.
pub open spec fn user_index_by_email(rows: Seq<UserRow>, email: Seq<char>, i: int) -> Option<int>
    decreases rows.len() - i,
{
    if i < 0 || i >= rows.len() {
        None
    } else if rows[i].email@ == email {
        Some(i)
    } else {
        user_index_by_email(rows, email, i + 1)
    }
}

/// The index of the first row at or after `i` with this id, if any.
pub open spec fn user_index_by_id(rows: Seq<UserRow>, id: Seq<char>, i: int) -> Option<int>
    decreases rows.len() - i,
{
    if i < 0 || i >= rows.len() {
        None
    } else if rows[i].id@ == id {
        Some(i)
    } else {
        user_index_by_id(rows, id, i + 1)
    }
}

/// The row a lookup by email returns.
pub open spec fn spec_find_by_email(rows: Seq<UserRow>, email: Seq<char>) -> Option<UserRow> {
    match user_index_by_email(rows, email, 0) {
        Some(k) => Some(rows[k]),
        None => None,
    }
}

/// The row a lookup by id returns.
pub open spec fn spec_find_by_id(rows: Seq<UserRow>, id: Seq<char>) -> Option<UserRow> {
    match user_index_by_id(rows, id, 0) {
        Some(k) => Some(rows[k]),
        None => None,
    }
}

pub open spec fn email_taken(rows: Seq<UserRow>, email: Seq<char>) -> bool {
    user_index_by_email(rows, email, 0) is Some
}

pub open spec fn user_id_taken(rows: Seq<UserRow>, id: Seq<char>) -> bool {
    user_index_by_id(rows, id, 0) is Some
}

/// The unique-column constraints of the user table: no two rows share an id
/// or an email.
pub open spec fn unique_users(rows: Seq<UserRow>) -> bool {
    forall|i: int, j: int|
        0 <= i < j < rows.len() ==> rows[i].id@ != rows[j].id@ && rows[i].email@ != rows[j].email@
}

/// What an email lookup starting at `i` means, element by element: a hit is
/// the first match, a miss means no row from `i` on matches.
pub proof fn lemma_email_index_props(rows: Seq<UserRow>, email: Seq<char>, i: int)
    requires
        0 <= i <= rows.len(),
    ensures
        match user_index_by_email(rows, email, i) {
            Some(k) => i <= k < rows.len() && rows[k].email@ == email && (forall|j: int|
                i <= j < k ==> rows[j].email@ != email),
            None => forall|j: int| i <= j < rows.len() ==> rows[j].email@ != email,
        },
    decreases rows.len() - i,
{
    if i < rows.len() && rows[i].email@ != email {
        lemma_email_index_props(rows, email, i + 1);
    }
}

/// The same, for an id lookup.
pub proof fn lemma_id_index_props(rows: Seq<UserRow>, id: Seq<char>, i: int)
    requires
        0 <= i <= rows.len(),
    ensures
        match user_index_by_id(rows, id, i) {
            Some(k) => i <= k < rows.len() && rows[k].id@ == id && (forall|j: int|
                i <= j < k ==> rows[j].id@ != id),
            None => forall|j: int| i <= j < rows.len() ==> rows[j].id@ != id,
        },
    decreases rows.len() - i,
{
    if i < rows.len() && rows[i].id@ != id {
        lemma_id_index_props(rows, id, i + 1);
    }
}

/// Appending a row whose email is new makes that row the one an email
/// lookup hits.
pub proof fn lemma_email_index_push(rows: Seq<UserRow>, row: UserRow, email: Seq<char>, i: int)
    requires
        0 <= i <= rows.len(),
        forall|j: int| 0 <= j < rows.len() ==> rows[j].email@ != email,
        row.email@ == email,
    ensures
        user_index_by_email(rows.push(row), email, i) == Some(rows.len() as int),
    decreases rows.len() - i,
{
    if i < rows.len() {
        lemma_email_index_push(rows, row, email, i + 1);
    }
}

/// Appending a row whose id is new makes that row the one an id lookup
/// hits.
pub proof fn lemma_id_index_push(rows: Seq<UserRow>, row: UserRow, id: Seq<char>, i: int)
    requires
        0 <= i <= rows.len(),
        forall|j: int| 0 <= j < rows.len() ==> rows[j].id@ != id,
        row.id@ == id,
    ensures
        user_index_by_id(rows.push(row), id, i) == Some(rows.len() as int),
    decreases rows.len() - i,
{
    if i < rows.len() {
        lemma_id_index_push(rows, row, id, i + 1);
    }
}

/// The user table: rows behind the repository operations, constrained by
/// the unique-column invariant.
pub struct UserStore {
    rows: Vec<UserRow>,
}

impl View for UserStore {
    type V = Seq<UserRow>;

    closed spec fn view(&self) -> Seq<UserRow> {
        self.rows@
    }
}

impl UserStore {
    pub open spec fn wf(&self) -> bool {
        unique_users(self@)
    }

    /// How many rows the table holds, soft-deleted ones included.
    pub fn len(&self) -> (r: usize)
        ensures
            r == self@.len(),
    {
        self.rows.len()
    }

    pub fn new() -> (r: UserStore)
        ensures
            r@ == Seq::<UserRow>::empty(),
            r.wf(),
    {
        UserStore { rows: Vec::new() }
    }

    /// Looks a user up by email; `None` reads as not found.
    pub fn find_by_email(&self, email: &String) -> (r: Option<&UserRow>)
        ensures
            match r {
                Some(u) => spec_find_by_email(self@, email@) == Some(*u),
                None => spec_find_by_email(self@, email@) is None,
            },
    {
        let mut i: usize = 0;
        while i < self.rows.len()
            invariant
                i <= self.rows.len(),
                user_index_by_email(self@, email@, 0) == user_index_by_email(
                    self@,
                    email@,
                    i as int,
                ),
            decreases self.rows.len() - i,
        {
            let row = &self.rows[i];
            if row.email == *email {
                return Some(row);
            }
            i += 1;
        }
        None
    }

    /// Looks a user up by id.
    pub fn find_by_id(&self, id: &String) -> (r: Option<&UserRow>)
        ensures
            match r {
                Some(u) => spec_find_by_id(self@, id@) == Some(*u),
                None => spec_find_by_id(self@, id@) is None,
            },
    {
        let mut i: usize = 0;
        while i < self.rows.len()
            invariant
                i <= self.rows.len(),
                user_index_by_id(self@, id@, 0) == user_index_by_id(self@, id@, i as int),
            decreases self.rows.len() - i,
        {
            let row = &self.rows[i];
            if row.id == *id {
                return Some(row);
            }
            i += 1;
        }
        None
    }

    /// Whether a user with this email exists.
    pub fn exists_by_email(&self, email: &String) -> (r: bool)
        ensures
            r == email_taken(self@, email@),
    {
        self.find_by_email(email).is_some()
    }

    /// Inserts a fully-built row; the caller generated the id and supplied
    /// the timestamps. Fails, as the table's unique columns would make it
    /// fail, when the id or the email is already present.
    pub fn insert(&mut self, row: UserRow) -> (r: Result<(), ApiError>)
        requires
            old(self).wf(),
        ensures
            final(self).wf(),
            r matches Ok(u) ==> final(self)@ == old(self)@.push(row) && !email_taken(
                old(self)@,
                row.email@,
            ) && !user_id_taken(old(self)@, row.id@),
            r matches Err(e) ==> e == ApiError::Internal && final(self)@ == old(self)@ && (
            email_taken(old(self)@, row.email@) || user_id_taken(old(self)@, row.id@)),
    {
        if self.exists_by_email(&row.email) {
            return Err(ApiError::Internal);
        }
        if self.find_by_id(&row.id).is_some() {
            return Err(ApiError::Internal);
        }
        proof {
            lemma_email_index_props(self@, row.email@, 0);
            lemma_id_index_props(self@, row.id@, 0);
        }
        let ghost old_rows = self@;
        self.rows.push(row);
        proof {
            assert forall|i: int, j: int| 0 <= i < j < self@.len() implies self@[i].id@
                != self@[j].id@ && self@[i].email@ != self@[j].email@ by {
                if j < old_rows.len() {
                    assert(unique_users(old_rows));
                } else {
                    assert(self@[j] == row);
                    assert(self@[i] == old_rows[i]);
                }
            }
        }
        Ok(())
    }
}

} // verus!
