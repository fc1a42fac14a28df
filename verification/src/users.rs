//! Creating an account: the row that goes to the store, and what the client
//! is told of the store's answer.

use vstd::prelude::*;
use crate::ids::{fresh_id, ID_LENGTH};
use crate::password::{hash_password, names_cost, password_matches, HashError};
use crate::records::{CreateUser, ErrorResponse, ErrorView, UserDataView, UserResponseData};

verus! {

/// The row of a new account: what is inserted into the store. The password
/// is held as its hash only.
#[derive(Debug, Clone, PartialEq, Eq)]
pub struct NewAccount {
    pub id: String,
    pub username: String,
    pub password_hash: String,
    pub name: String,
}

/// What a [`NewAccount`] holds.
pub struct NewAccountView {
    pub id: Seq<char>,
    pub username: Seq<char>,
    pub password_hash: Seq<char>,
    pub name: Seq<char>,
}

impl View for NewAccount {
    type V = NewAccountView;

    open spec fn view(&self) -> NewAccountView {
        NewAccountView {
            id: self.id@,
            username: self.username@,
            password_hash: self.password_hash@,
            name: self.name@,
        }
    }
}

/// The reply to an account that was not created.
pub open spec fn not_created() -> ErrorView {
    ErrorView { message: "User not created"@, status: 400 }
}

/// The row for a request, given the id and the outcome of hashing its
/// password. Without a hash there is no row.
pub open spec fn row_for(request: CreateUser, id: Seq<char>, hashed: Result<String, HashError>) -> Result<
    NewAccountView,
    ErrorView,
> {
    match hashed {
        Ok(hash) => Ok(
            NewAccountView {
                id,
                username: request.username@,
                password_hash: hash@,
                name: request.name@,
            },
        ),
        Err(_) => Err(not_created()),
    }
}

/// What the client is told once the store has answered the insert.
pub open spec fn creation_outcome(request: CreateUser, id: Seq<char>, stored: bool) -> Result<
    UserDataView,
    ErrorView,
> {
    if stored {
        Ok(UserDataView { name: request.name@, username: request.username@, id })
    } else {
        Err(not_created())
    }
}

/// What preparing a row returns, seen as plain values.
pub open spec fn row_view(r: Result<NewAccount, ErrorResponse>) -> Result<
    NewAccountView,
    ErrorView,
> {
    match r {
        Ok(row) => Ok(row@),
        Err(e) => Err(e@),
    }
}

/// What a creation returns, seen as plain values.
pub open spec fn created_view(r: Result<UserResponseData, ErrorResponse>) -> Result<
    UserDataView,
    ErrorView,
> {
    match r {
        Ok(data) => Ok(data@),
        Err(e) => Err(e@),
    }
}

fn refusal() -> (e: ErrorResponse)
    ensures
        e@ == not_created(),
{
    ErrorResponse { message: "User not created".to_owned(), status: 400 }
}

impl CreateUser {
    /// Puts the row of a new account together: see [`row_for`].
    pub fn account_row(arg: &CreateUser, id: String, hashed: Result<String, HashError>) -> (r:
        Result<NewAccount, ErrorResponse>)
        ensures
            row_view(r) == row_for(*arg, id@, hashed),
    {
        match hashed {
            Ok(password_hash) => Ok(
                NewAccount {
                    id,
                    username: arg.username.clone(),
                    password_hash,
                    name: arg.name.clone(),
                },
            ),
            Err(_) => Err(refusal()),
        }
    }

    /// Prepares the account that `arg` asks for: a generated id, and the
    /// password as a salted hash that matches it. Where the password cannot
    /// be hashed the account is not created.
    pub fn create(&self, arg: &CreateUser) -> (r: Result<NewAccount, ErrorResponse>)
        ensures
            match r {
                Ok(row) => {
                    &&& row@.id.len() == ID_LENGTH
                    &&& row@.username == arg.username@
                    &&& row@.name == arg.name@
                    &&& password_matches(arg.password@, row@.password_hash)
                    &&& names_cost(row@.password_hash)
                },
                Err(e) => e@ == not_created(),
            },
    {
        let id = fresh_id();
        let hashed = hash_password(arg.password.as_str());
        CreateUser::account_row(arg, id, hashed)
    }

    /// Reads the store's answer to the insert of `row`: the new account as
    /// the request named it, or that it was not created. See
    /// [`creation_outcome`].
    pub fn created(&self, row: &NewAccount, stored: bool) -> (r: Result<
        UserResponseData,
        ErrorResponse,
    >)
        ensures
            created_view(r) == creation_outcome(*self, row.id@, stored),
    {
        if stored {
            Ok(
                UserResponseData {
                    id: row.id.clone(),
                    username: self.username.clone(),
                    name: self.name.clone(),
                },
            )
        } else {
            Err(refusal())
        }
    }
}

} // verus!
