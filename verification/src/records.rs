//! The records that travel between the store, the library and its callers.

use vstd::prelude::*;

verus! {

/// One row of the account query: the account joined with one of its custom
/// attributes, or with none.
#[derive(Debug, Clone, PartialEq, Eq)]
pub struct AppUser {
    pub id: String,
    pub name: String,
    pub username: String,
    pub attr_id: Option<String>,
    pub attr_key: Option<String>,
    pub attr_value: Option<String>,
}

/// A role granted to an account.
#[derive(Debug, Clone, PartialEq, Eq)]
pub struct AppRole {
    pub id: String,
    pub role_name: String,
    pub is_active: i8,
    pub user_id: String,
}

/// A request to create an account.
#[derive(Debug, Clone, PartialEq, Eq)]
pub struct CreateUser {
    pub name: String,
    pub username: String,
    pub password: String,
}

/// An account as it is shown to a caller, with its custom attributes.
#[derive(Debug, Clone, PartialEq, Eq)]
pub struct GetUser {
    pub id: String,
    pub name: String,
    pub username: String,
    pub attributes: Vec<GetCustomAttribute>,
}

/// The part of an account that a login needs. `is_active` is 0 for an
/// account that has been switched off.
#[derive(Debug, Clone, PartialEq, Eq)]
pub struct GetUserWithPassword {
    pub id: String,
    pub username: String,
    pub password: String,
    pub is_active: i8,
}

/// One custom attribute of an account, as it is stored.
#[derive(Debug, Clone, PartialEq, Eq)]
pub struct AddCustomAttribute {
    pub id: String,
    pub key: String,
    pub value: String,
    pub user_id: String,
}

/// One custom attribute as it is shown to a caller.
#[derive(Debug, Clone, PartialEq, Eq)]
pub struct GetCustomAttribute {
    pub id: String,
    pub key: String,
    pub value: String,
}

/// The answer to a successful account creation.
#[derive(Debug, Clone, PartialEq, Eq)]
pub struct UserResponseData {
    pub name: String,
    pub username: String,
    pub id: String,
}

/// The answer to a request that failed, with its HTTP status.
#[derive(Debug, Clone, PartialEq, Eq)]
pub struct ErrorResponse {
    pub message: String,
    pub status: u16,
}

/// The answer to a request that succeeded and has nothing to show.
#[derive(Debug, Clone, PartialEq, Eq)]
pub struct SuccessResponse {
    pub message: String,
}

/// The store could not answer. The detail is for the log, never for the
/// client.
#[derive(Debug, Clone, PartialEq, Eq)]
pub struct StoreFailure {
    pub detail: String,
}

/// What a [`GetCustomAttribute`] holds.
pub struct AttributeView {
    pub id: Seq<char>,
    pub key: Seq<char>,
    pub value: Seq<char>,
}

impl View for GetCustomAttribute {
    type V = AttributeView;

    open spec fn view(&self) -> AttributeView {
        AttributeView { id: self.id@, key: self.key@, value: self.value@ }
    }
}

/// What a [`GetUser`] holds.
pub struct UserView {
    pub id: Seq<char>,
    pub name: Seq<char>,
    pub username: Seq<char>,
    pub attributes: Seq<AttributeView>,
}

/// What a list of attributes holds.
pub open spec fn attribute_views(attributes: Seq<GetCustomAttribute>) -> Seq<AttributeView> {
    attributes.map_values(|a: GetCustomAttribute| a@)
}

impl View for GetUser {
    type V = UserView;

    open spec fn view(&self) -> UserView {
        UserView {
            id: self.id@,
            name: self.name@,
            username: self.username@,
            attributes: attribute_views(self.attributes@),
        }
    }
}

/// What an [`AddCustomAttribute`] holds.
pub struct StoredAttributeView {
    pub id: Seq<char>,
    pub key: Seq<char>,
    pub value: Seq<char>,
    pub user_id: Seq<char>,
}

impl View for AddCustomAttribute {
    type V = StoredAttributeView;

    open spec fn view(&self) -> StoredAttributeView {
        StoredAttributeView {
            id: self.id@,
            key: self.key@,
            value: self.value@,
            user_id: self.user_id@,
        }
    }
}

/// What a [`GetUserWithPassword`] holds.
pub struct CredentialView {
    pub id: Seq<char>,
    pub username: Seq<char>,
    pub password: Seq<char>,
    pub is_active: i8,
}

impl View for GetUserWithPassword {
    type V = CredentialView;

    open spec fn view(&self) -> CredentialView {
        CredentialView {
            id: self.id@,
            username: self.username@,
            password: self.password@,
            is_active: self.is_active,
        }
    }
}

/// What a [`UserResponseData`] holds.
pub struct UserDataView {
    pub name: Seq<char>,
    pub username: Seq<char>,
    pub id: Seq<char>,
}

impl View for UserResponseData {
    type V = UserDataView;

    open spec fn view(&self) -> UserDataView {
        UserDataView { name: self.name@, username: self.username@, id: self.id@ }
    }
}

/// What an [`ErrorResponse`] holds.
pub struct ErrorView {
    pub message: Seq<char>,
    pub status: u16,
}

impl View for ErrorResponse {
    type V = ErrorView;

    open spec fn view(&self) -> ErrorView {
        ErrorView { message: self.message@, status: self.status }
    }
}

/// What the client is told of a failure: the HTTP status and the two members
/// of the JSON body.
#[derive(Debug, Clone, PartialEq, Eq)]
pub struct Reply {
    pub code: u16,
    pub status: String,
    pub message: Option<String>,
}

/// What a [`Reply`] holds.
pub struct ReplyView {
    pub code: u16,
    pub status: Seq<char>,
    pub message: Option<Seq<char>>,
}

/// The text of an optional string.
pub open spec fn text_of(s: Option<String>) -> Option<Seq<char>> {
    match s {
        Some(t) => Some(t@),
        None => None,
    }
}

impl View for Reply {
    type V = ReplyView;

    open spec fn view(&self) -> ReplyView {
        ReplyView { code: self.code, status: self.status@, message: text_of(self.message) }
    }
}

impl View for SuccessResponse {
    type V = Seq<char>;

    open spec fn view(&self) -> Seq<char> {
        self.message@
    }
}

impl Default for CreateUser {
    fn default() -> (r: Self)
        ensures
            r.name@.len() == 0,
            r.username@.len() == 0,
            r.password@.len() == 0,
    {
        CreateUser { name: String::new(), username: String::new(), password: String::new() }
    }
}

impl Default for GetUser {
    fn default() -> (r: Self)
        ensures
            r@.id.len() == 0,
            r@.name.len() == 0,
            r@.username.len() == 0,
            r@.attributes.len() == 0,
    {
        GetUser {
            id: String::new(),
            name: String::new(),
            username: String::new(),
            attributes: Vec::new(),
        }
    }
}

impl Default for GetUserWithPassword {
    fn default() -> (r: Self)
        ensures
            r@.id.len() == 0,
            r@.username.len() == 0,
            r@.password.len() == 0,
            r@.is_active == 0,
    {
        GetUserWithPassword {
            id: String::new(),
            username: String::new(),
            password: String::new(),
            is_active: 0,
        }
    }
}

impl Default for GetCustomAttribute {
    fn default() -> (r: Self)
        ensures
            r@.id.len() == 0,
            r@.key.len() == 0,
            r@.value.len() == 0,
    {
        GetCustomAttribute { id: String::new(), key: String::new(), value: String::new() }
    }
}

} // verus!
