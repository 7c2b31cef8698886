//! The records that travel through the library.

use vstd::prelude::*;

verus! {

/// The identity claims that a token carries.
#[derive(Debug, Clone)]
pub struct Claim {
    /// The subject: an opaque identity string.
    pub sub: String,
    /// Issued at, in seconds since the epoch.
    pub iat: usize,
    /// Expires at, in seconds since the epoch.
    pub exp: usize,
}

/// The mathematical value of a [`Claim`].
pub struct ClaimView {
    pub sub: Seq<char>,
    pub iat: nat,
    pub exp: nat,
}

impl ClaimView {
    /// A claim expires strictly after it was issued.
    pub open spec fn well_formed(self) -> bool {
        self.iat < self.exp
    }
}

impl View for Claim {
    type V = ClaimView;

    open spec fn view(&self) -> ClaimView {
        ClaimView { sub: self.sub@, iat: self.iat as nat, exp: self.exp as nat }
    }
}

/// A stored user. The id is the 128-bit value of the user's UUID.
#[derive(Debug)]
pub struct User {
    pub id: u128,
    pub name: String,
    pub email: String,
    /// The stored password hash, as a PHC string.
    pub password: String,
}

/// The body of a registration request.
#[derive(Debug)]
pub struct UserRegistration {
    pub name: String,
    pub email: String,
    pub password: String,
}

/// The body of a login request.
#[derive(Debug)]
pub struct UserLogin {
    pub email: String,
    pub password: String,
}

/// A post. The two ids are the 128-bit values of UUIDs; the two times are in
/// microseconds since the epoch.
#[derive(Debug)]
pub struct Post {
    pub id: u128,
    pub user_id: u128,
    pub title: String,
    pub content: String,
    pub created_at: Option<i64>,
    pub updated_at: Option<i64>,
}

/// The body of a request that creates a post.
#[derive(Debug)]
pub struct NewPost {
    pub title: String,
    pub content: String,
}

/// The body of a request that edits a post: a field that is absent is left
/// as it is.
#[derive(Debug)]
pub struct UpdatePost {
    pub title: Option<String>,
    pub content: Option<String>,
}

} // verus!
