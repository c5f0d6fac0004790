//! Records exchanged with the storage and HTTP layers.
use vstd::prelude::*;

pub use crate::schedule::ExecuteType;

verus! {

/// Protocol of a fetch definition.
#[derive(Clone, Copy, Debug, PartialEq, Eq, Structural)]
pub enum ApiType {
    Rest,
    Websocket,
    Mqtt,
    Graphql,
}

/// HTTP verb of a fetch definition.
#[derive(Clone, Copy, Debug, PartialEq, Eq, Structural)]
pub enum ApiMethod {
    Get,
    Post,
    Put,
    Patch,
    Delete,
}

/// Role of a member of a fetch definition.
#[derive(Clone, Copy, Debug, PartialEq, Eq, Structural)]
pub enum Role {
    Owner,
    Editor,
    Viewer,
}

/// A new member of a fetch definition.
pub struct CreateApiMembers {
    pub user_id: i32,
    pub role: Role,
}

/// A member's new role.
pub struct UpdateApiMembers {
    pub role: Role,
}

/// A schedule policy to store, owned by `user_id`.
pub struct CreateApiExecute {
    pub user_id: i32,
    pub name: String,
    pub is_repeat: bool,
    pub unit: Option<ExecuteType>,
    pub value: i64,
}

/// A schedule policy as a user submits it.
pub struct ReqCreateApiExecute {
    pub name: String,
    pub is_repeat: bool,
    pub unit: Option<ExecuteType>,
    pub value: i64,
}

impl ReqCreateApiExecute {
    /// The policy to store for `user_id`: every submitted field is kept.
    pub fn into_model(self, user_id: i32) -> (r: CreateApiExecute)
        ensures
            r.user_id == user_id,
            r.name == self.name,
            r.is_repeat == self.is_repeat,
            r.unit == self.unit,
            r.value == self.value,
    {
        CreateApiExecute {
            user_id,
            name: self.name,
            is_repeat: self.is_repeat,
            unit: self.unit,
            value: self.value,
        }
    }
}

/// Changes to a schedule policy; `None` keeps a field.
pub struct UpdateApiExecute {
    pub name: Option<String>,
    pub is_repeat: Option<bool>,
    pub unit: Option<ExecuteType>,
    pub value: Option<i64>,
}

/// Claims carried by an access or refresh token.
pub struct Claims {
    pub sub: String,
    pub username: String,
    pub exp: usize,
    pub iat: usize,
    pub token_type: String,
}

/// Login request: user name or e-mail, and password.
pub struct LoginReq {
    pub identifier: String,
    pub password: String,
}

/// Tokens handed out at login.
pub struct LoginRes {
    pub access_token: String,
    pub refresh_token: String,
}

/// Request to exchange a refresh token.
pub struct RefreshTokenReq {
    pub refresh_token: String,
}

/// Token signing settings; lifetimes in seconds.
pub struct JwtConfig {
    pub secret: String,
    pub access_ttl: i64,
    pub refresh_ttl: i64,
}

/// A request body that passed validation.
pub struct ValidatedJson<T>(pub T);

} // verus!
