//! The rows of the two tables, and the value objects that create and change
//! them.

use chrono::NaiveDateTime;
use uuid::Uuid;
use vstd::prelude::*;

verus! {

/// A row of `users`: the root account record.
#[derive(Clone, Debug, PartialEq, Eq)]
pub struct User {
    pub user_id: Uuid,
    pub username: String,
    pub email: String,
    /// A salted hash, never the password itself.
    pub password: String,
    pub changed_password_at: NaiveDateTime,
    pub updated_at: NaiveDateTime,
}

/// A row of `profile_users`: the details that belong to one user.
#[derive(Clone, Debug, PartialEq, Eq)]
pub struct ProfileUser {
    pub profile_id: Uuid,
    pub user_id: Option<Uuid>,
    pub display_name: String,
    pub bio: String,
    pub updated_at: NaiveDateTime,
}

/// What a caller supplies to create a profile. The service decides the owner.
#[derive(Clone, Debug, PartialEq, Eq)]
pub struct NewProfileUser {
    pub user_id: Option<Uuid>,
    pub display_name: String,
    pub bio: String,
}

/// A partial update of a user: `None` leaves the column as it is.
///
/// The two times are the service's to set. What a caller names there is
/// never stored.
#[derive(Clone, Debug, PartialEq, Eq)]
pub struct UpdateUser {
    pub username: Option<String>,
    pub email: Option<String>,
    pub password: Option<String>,
    pub changed_password_at: Option<NaiveDateTime>,
    pub updated_at: Option<NaiveDateTime>,
}

/// A partial update of a profile: `None` leaves the column as it is.
///
/// The time of update is the service's to set. What a caller names there is
/// never stored.
#[derive(Clone, Debug, PartialEq, Eq)]
pub struct UpdateProfileUser {
    pub display_name: Option<String>,
    pub bio: Option<String>,
    pub updated_at: Option<NaiveDateTime>,
}

impl NewProfileUser {
    /// Whether `row` holds what this value asks to be stored. The profile's own
    /// identifier and its time of update are the store's to choose.
    pub open spec fn describes(self, row: ProfileUser) -> bool {
        &&& row.user_id == self.user_id
        &&& row.display_name == self.display_name
        &&& row.bio == self.bio
    }
}

impl UpdateUser {
    /// The row that results when this update is applied to `row`.
    pub open spec fn applied_to(self, row: User) -> User {
        User {
            user_id: row.user_id,
            username: match self.username {
                Some(username) => username,
                None => row.username,
            },
            email: match self.email {
                Some(email) => email,
                None => row.email,
            },
            password: match self.password {
                Some(password) => password,
                None => row.password,
            },
            changed_password_at: match self.changed_password_at {
                Some(time) => time,
                None => row.changed_password_at,
            },
            updated_at: match self.updated_at {
                Some(time) => time,
                None => row.updated_at,
            },
        }
    }
}

impl UpdateProfileUser {
    /// The row that results when this update is applied to `row`.
    pub open spec fn applied_to(self, row: ProfileUser) -> ProfileUser {
        ProfileUser {
            profile_id: row.profile_id,
            user_id: row.user_id,
            display_name: match self.display_name {
                Some(display_name) => display_name,
                None => row.display_name,
            },
            bio: match self.bio {
                Some(bio) => bio,
                None => row.bio,
            },
            updated_at: match self.updated_at {
                Some(time) => time,
                None => row.updated_at,
            },
        }
    }

    /// An update that names no column.
    pub open spec fn is_empty(self) -> bool {
        self.display_name is None && self.bio is None && self.updated_at is None
    }
}

impl ProfileUser {
    /// Whether two rows agree in everything but the time of their last update.
    pub open spec fn same_apart_from_updated_at(self, other: ProfileUser) -> bool {
        &&& self.profile_id == other.profile_id
        &&& self.user_id == other.user_id
        &&& self.display_name == other.display_name
        &&& self.bio == other.bio
    }
}

} // verus!
