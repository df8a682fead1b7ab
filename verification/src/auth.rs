use vstd::prelude::*;
use crate::errors::ApiError;
use crate::ids::fresh_id;
use crate::jwt::{TOKEN_LIFETIME_SECONDS, create_jwt, token_of};
use crate::password::{hash_password, password_accepted, verify_password};
use crate::user::{
    CreateUserRequest, LoginRequest, User, UserResponse, UserRow, spec_response_of, spec_role_of,
    spec_user_of_row,
};
use crate::user_store::{
    UserStore, email_taken, lemma_email_index_props, lemma_email_index_push, lemma_id_index_props,
    lemma_id_index_push, spec_find_by_email,
};
use crate::validation::{valid_login, valid_registration, validate_login, validate_registration};

verus! {

/// A successful login: the signed token and the user without the hash.
#[derive(Debug)]
pub struct LoginOk {
    pub token: String,
    pub user: UserResponse,
}

/// A successful registration: the created user without the hash.
#[derive(Debug)]
pub struct RegisterOk {
    pub user: UserResponse,
}

/// Whether these credentials pass the login check against this table: the
/// email lookup hits a row whose stored hash accepts the password.
pub open spec fn login_accepts(rows: Seq<UserRow>, email: Seq<char>, password: Seq<char>) -> bool {
    match spec_find_by_email(rows, email) {
        Some(u) => password_accepted(password, u.password_hash@),
        None => false,
    }
}

/// The login decision over a fetched row: validate the payload, treat an
/// absent row and a rejected password the same — bad credentials, never a
/// not-found, so that account existence is not leaked — and issue a token
/// for the row's user. Succeeds exactly when the payload is valid and the
/// row's stored hash accepts the password.
pub fn login_with_row(
    payload: &LoginRequest,
    row: Option<&UserRow>,
    secret: &String,
    now: i64,
) -> (r: Result<LoginOk, ApiError>)
    requires
        now <= i64::MAX - TOKEN_LIFETIME_SECONDS,
    ensures
        r == Err::<LoginOk, ApiError>(ApiError::Validation) <==> !valid_login(
            payload.email@,
            payload.password@,
        ),
        r is Ok <==> (valid_login(payload.email@, payload.password@) && (row matches Some(u)
            && password_accepted(payload.password@, u.password_hash@))),
        r == Err::<LoginOk, ApiError>(ApiError::Authentication) <==> (valid_login(
            payload.email@,
            payload.password@,
        ) && !(row matches Some(u) && password_accepted(payload.password@, u.password_hash@))),
        r matches Ok(ok) ==> (row matches Some(u) && ok.token@ == token_of(
            u.id@,
            spec_role_of(u.role@).spec_str(),
            now as int,
            now + TOKEN_LIFETIME_SECONDS,
            secret@,
        ) && ok.user == spec_response_of(spec_user_of_row(*u, now))),
{
    let issues = validate_login(payload);
    if issues.len() > 0 {
        return Err(ApiError::Validation);
    }
    let row = match row {
        Some(row) => row,
        None => {
            return Err(ApiError::Authentication);
        },
    };
    if !verify_password(&payload.password, &row.password_hash) {
        return Err(ApiError::Authentication);
    }
    let user = User::from_row(row, now);
    let token = match create_jwt(&user.id, &user.role, secret, now) {
        Ok(t) => t,
        Err(_) => {
            return Err(ApiError::Internal);
        },
    };
    Ok(LoginOk { token, user: UserResponse::from(user) })
}

/// The login pipeline over the table: look the user up by email and decide
/// over the fetched row. Succeeds exactly when the payload is valid and the
/// stored credentials match.
pub fn login(store: &UserStore, payload: &LoginRequest, secret: &String, now: i64) -> (r: Result<
    LoginOk,
    ApiError,
>)
    requires
        now <= i64::MAX - TOKEN_LIFETIME_SECONDS,
    ensures
        r == Err::<LoginOk, ApiError>(ApiError::Validation) <==> !valid_login(
            payload.email@,
            payload.password@,
        ),
        r is Ok <==> (valid_login(payload.email@, payload.password@) && login_accepts(
            store@,
            payload.email@,
            payload.password@,
        )),
        r == Err::<LoginOk, ApiError>(ApiError::Authentication) <==> (valid_login(
            payload.email@,
            payload.password@,
        ) && !login_accepts(store@, payload.email@, payload.password@)),
        r matches Err(e) ==> e == ApiError::Validation || e == ApiError::Authentication,
        r matches Ok(ok) ==> (spec_find_by_email(store@, payload.email@) matches Some(u)
            && ok.token@ == token_of(
            u.id@,
            spec_role_of(u.role@).spec_str(),
            now as int,
            now + TOKEN_LIFETIME_SECONDS,
            secret@,
        ) && ok.user == spec_response_of(spec_user_of_row(u, now))),
{
    login_with_row(payload, store.find_by_email(&payload.email), secret, now)
}

/// The registration decision up to the insert: validate the payload, refuse
/// a taken email as a conflict, hash the password, generate a fresh id, and
/// hand back the fully-built row to persist, with both timestamps set to
/// `now` and the active flag set. Fails only on a bad payload, a taken
/// email, or a hashing failure.
pub fn prepare_registration(payload: &CreateUserRequest, email_exists: bool, now: i64) -> (r:
    Result<UserRow, ApiError>)
    ensures
        r == Err::<UserRow, ApiError>(ApiError::Validation) <==> !valid_registration(
            payload.email@,
            payload.name@,
            payload.password@,
        ),
        r == Err::<UserRow, ApiError>(ApiError::Conflict) <==> (valid_registration(
            payload.email@,
            payload.name@,
            payload.password@,
        ) && email_exists),
        r matches Err(e) ==> e == ApiError::Validation || e == ApiError::Conflict || e
            == ApiError::Internal,
        r matches Ok(row) ==> {
            &&& !email_exists
            &&& row.email@ == payload.email@
            &&& row.name@ == payload.name@
            &&& row.role@ == payload.role.spec_str()
            &&& row.is_active == 1
            &&& row.created_at == Some(now)
            &&& row.updated_at == Some(now)
            &&& password_accepted(payload.password@, row.password_hash@)
            &&& row.id@.len() == 36
        },
{
    let issues = validate_registration(payload);
    if issues.len() > 0 {
        return Err(ApiError::Validation);
    }
    if email_exists {
        return Err(ApiError::Conflict);
    }
    let password_hash = match hash_password(&payload.password) {
        Ok(h) => h,
        Err(e) => {
            return Err(e);
        },
    };
    Ok(
        UserRow {
            id: fresh_id(),
            email: payload.email.clone(),
            name: payload.name.clone(),
            password_hash,
            role: payload.role.as_str().to_owned(),
            is_active: 1,
            created_at: Some(now),
            updated_at: Some(now),
        },
    )
}

/// The registration pipeline over the table: prepare the row, insert it,
/// and read the created user back. Every failure leaves the table
/// unchanged.
pub fn register(store: &mut UserStore, payload: &CreateUserRequest, now: i64) -> (r: Result<
    RegisterOk,
    ApiError,
>)
    requires
        old(store).wf(),
    ensures
        final(store).wf(),
        r == Err::<RegisterOk, ApiError>(ApiError::Validation) <==> !valid_registration(
            payload.email@,
            payload.name@,
            payload.password@,
        ),
        r == Err::<RegisterOk, ApiError>(ApiError::Conflict) <==> (valid_registration(
            payload.email@,
            payload.name@,
            payload.password@,
        ) && email_taken(old(store)@, payload.email@)),
        r matches Err(e) ==> final(store)@ == old(store)@ && (e == ApiError::Validation || e
            == ApiError::Conflict || e == ApiError::Internal),
        r matches Ok(ok) ==> {
            let row = final(store)@.last();
            &&& !email_taken(old(store)@, payload.email@)
            &&& final(store)@ == old(store)@.push(row)
            &&& row.email@ == payload.email@
            &&& row.name@ == payload.name@
            &&& row.role@ == payload.role.spec_str()
            &&& row.is_active == 1
            &&& row.created_at == Some(now)
            &&& row.updated_at == Some(now)
            &&& password_accepted(payload.password@, row.password_hash@)
            &&& ok.user == spec_response_of(spec_user_of_row(row, now))
        },
{
    let email_exists = store.exists_by_email(&payload.email);
    let row = match prepare_registration(payload, email_exists, now) {
        Ok(row) => row,
        Err(e) => {
            return Err(e);
        },
    };
    let user_id = row.id.clone();
    let ghost rows0 = store@;
    let ghost inserted = row;
    match store.insert(row) {
        Ok(u) => (),
        Err(e) => {
            return Err(e);
        },
    }
    proof {
        lemma_id_index_props(rows0, inserted.id@, 0);
        lemma_id_index_push(rows0, inserted, inserted.id@, 0);
    }
    let fetched = match store.find_by_id(&user_id) {
        Some(u) => u,
        None => {
            // Unreachable in this table model: the row was just inserted.
            // A storage backend that lost it would surface as an internal
            // error, not as a silent success.
            return Err(ApiError::Internal);
        },
    };
    let user = User::from_row(fetched, now);
    Ok(RegisterOk { user: UserResponse::from(user) })
}

/// Law: registering then logging in with the same credentials succeeds.
/// A successful registration of a previously-unused email appends a row
/// whose stored hash accepts the password; against the grown table, a valid
/// login payload with those credentials passes the whole login check.
pub proof fn lemma_register_then_login(
    rows0: Seq<UserRow>,
    row: UserRow,
    email: Seq<char>,
    name: Seq<char>,
    password: Seq<char>,
)
    requires
        valid_registration(email, name, password),
        !email_taken(rows0, email),
        row.email@ == email,
        password_accepted(password, row.password_hash@),
    ensures
        valid_login(email, password),
        login_accepts(rows0.push(row), email, password),
{
    lemma_email_index_props(rows0, email, 0);
    lemma_email_index_push(rows0, row, email, 0);
    assert(rows0.push(row)[rows0.len() as int] == row);
}

/// Law: a second registration with the same email is a conflict. After a
/// successful registration appends a row with the email, the email is taken
/// in the grown table, so `register` refuses the repeat attempt with
/// `Conflict` and leaves the table as it is: across both calls the table
/// gains exactly the one row.
pub proof fn lemma_register_conflict(rows0: Seq<UserRow>, row: UserRow, email: Seq<char>)
    requires
        row.email@ == email,
    ensures
        email_taken(rows0.push(row), email),
{
    let rows1 = rows0.push(row);
    lemma_email_index_props(rows1, email, 0);
    if !email_taken(rows1, email) {
        assert(rows1[rows0.len() as int] == row);
        assert(false);
    }
}

} // verus!
