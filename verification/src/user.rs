use vstd::prelude::*;

verus! {

/// A user's role. Stored as a free-form string; unrecognized strings are
/// coerced to the default role `Cashier` when a row is read back.
#[derive(Clone, Copy, Debug, PartialEq, Eq, Structural)]
pub enum UserRole {
    Admin,
    Cashier,
}

/// The total coercion from a stored role string to a role: an explicit
/// mapping with a wildcard arm, so reading a row can never fail.
pub open spec fn spec_role_of(s: Seq<char>) -> UserRole {
    if s == "admin"@ {
        UserRole::Admin
    } else if s == "cashier"@ {
        UserRole::Cashier
    } else {
        UserRole::Cashier
    }
}

impl UserRole {
    /// The storage and serialization form of the role.
    pub open spec fn spec_str(self) -> Seq<char> {
        match self {
            UserRole::Admin => "admin"@,
            UserRole::Cashier => "cashier"@,
        }
    }

    /// Renders the role the way it is stored.
    pub fn as_str(&self) -> (r: &'static str)
        ensures
            r@ == self.spec_str(),
    {
        match self {
            UserRole::Admin => "admin",
            UserRole::Cashier => "cashier",
        }
    }

    /// Rendering a role and coercing it back yields the same role.
    pub proof fn lemma_str_roundtrip(self)
        ensures
            spec_role_of(self.spec_str()) == self,
    {
        reveal_strlit("admin");
        reveal_strlit("cashier");
        if self == UserRole::Cashier {
            assert("cashier"@.len() != "admin"@.len());
        }
    }

    /// Parses an inbound role string strictly: unlike the stored-row
    /// coercion, an unknown value is refused rather than defaulted.
    pub fn parse(s: &String) -> (r: Option<UserRole>)
        ensures
            r == (if s@ == "admin"@ {
                Some(UserRole::Admin)
            } else if s@ == "cashier"@ {
                Some(UserRole::Cashier)
            } else {
                None::<UserRole>
            }),
            r matches Some(role) ==> s@ == role.spec_str(),
    {
        if *s == "admin".to_owned() {
            Some(UserRole::Admin)
        } else if *s == "cashier".to_owned() {
            Some(UserRole::Cashier)
        } else {
            None
        }
    }
}

impl From<String> for UserRole {
    /// Coerces a stored role string, defaulting unknown values to `Cashier`.
    fn from(s: String) -> (r: UserRole) {
        if s == "admin".to_owned() {
            UserRole::Admin
        } else if s == "cashier".to_owned() {
            UserRole::Cashier
        } else {
            UserRole::Cashier
        }
    }
}

impl vstd::std_specs::convert::FromSpecImpl<String> for UserRole {
    open spec fn obeys_from_spec() -> bool {
        true
    }

    open spec fn from_spec(s: String) -> UserRole {
        spec_role_of(s@)
    }
}

/// The raw persistence shape of a user: the role as a free-form string, the
/// active flag as an integer, and the timestamps nullable.
#[derive(Debug)]
pub struct UserRow {
    pub id: String,
    pub email: String,
    pub name: String,
    pub password_hash: String,
    pub role: String,
    pub is_active: i8,
    pub created_at: Option<i64>,
    pub updated_at: Option<i64>,
}

/// The domain shape of a user, as handlers work with it.
#[derive(Debug)]
pub struct User {
    pub id: String,
    pub email: String,
    pub name: String,
    pub password_hash: String,
    pub role: UserRole,
    pub is_active: bool,
    pub created_at: i64,
    pub updated_at: i64,
}

/// The row coercion: unknown role strings degrade to `Cashier`, a nonzero
/// integer means active, and a missing timestamp falls back to the read time.
pub open spec fn spec_user_of_row(row: UserRow, now: i64) -> User {
    User {
        id: row.id,
        email: row.email,
        name: row.name,
        password_hash: row.password_hash,
        role: spec_role_of(row.role@),
        is_active: row.is_active != 0,
        created_at: match row.created_at {
            Some(t) => t,
            None => now,
        },
        updated_at: match row.updated_at {
            Some(t) => t,
            None => now,
        },
    }
}

impl User {
    /// Coerces a stored row into a domain user. Total: every row, however
    /// malformed its role or flags, yields a user. `now` is the read time,
    /// used only when a timestamp column is absent.
    pub fn from_row(row: &UserRow, now: i64) -> (r: User)
        ensures
            r == spec_user_of_row(*row, now),
    {
        let created_at = match row.created_at {
            Some(t) => t,
            None => now,
        };
        let updated_at = match row.updated_at {
            Some(t) => t,
            None => now,
        };
        User {
            id: row.id.clone(),
            email: row.email.clone(),
            name: row.name.clone(),
            password_hash: row.password_hash.clone(),
            role: UserRole::from(row.role.clone()),
            is_active: row.is_active != 0,
            created_at,
            updated_at,
        }
    }
}

/// The outward shape of a user: the user minus the password hash. The hash
/// cannot appear in a response, because this type has no field for it.
#[derive(Debug)]
pub struct UserResponse {
    pub id: String,
    pub email: String,
    pub name: String,
    pub role: UserRole,
    pub is_active: bool,
    pub created_at: i64,
    pub updated_at: i64,
}

/// What stripping the credentials from a user leaves.
pub open spec fn spec_response_of(u: User) -> UserResponse {
    UserResponse {
        id: u.id,
        email: u.email,
        name: u.name,
        role: u.role,
        is_active: u.is_active,
        created_at: u.created_at,
        updated_at: u.updated_at,
    }
}

impl From<User> for UserResponse {
    fn from(user: User) -> (r: UserResponse) {
        UserResponse {
            id: user.id,
            email: user.email,
            name: user.name,
            role: user.role,
            is_active: user.is_active,
            created_at: user.created_at,
            updated_at: user.updated_at,
        }
    }
}

impl vstd::std_specs::convert::FromSpecImpl<User> for UserResponse {
    open spec fn obeys_from_spec() -> bool {
        true
    }

    open spec fn from_spec(u: User) -> UserResponse {
        spec_response_of(u)
    }
}

/// An inbound login payload.
#[derive(Debug)]
pub struct LoginRequest {
    pub email: String,
    pub password: String,
}

/// An inbound registration payload.
#[derive(Debug)]
pub struct CreateUserRequest {
    pub email: String,
    pub name: String,
    pub password: String,
    pub role: UserRole,
}

} // verus!
