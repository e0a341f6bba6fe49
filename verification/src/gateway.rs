//! What the service asks of storage, what storage answers, and a model of a
//! store that answers as the service expects.
//!
//! The model is mathematics only: nothing here reads or writes a table. It
//! says what each request means, so that what the service does can be stated
//! as an effect on stored rows.

use crate::records::{NewProfileUser, ProfileUser, UpdateProfileUser, UpdateUser, User};
use uuid::Uuid;
use vstd::prelude::*;

verus! {

/// One storage operation that the service asks its caller to perform.
#[derive(Clone, Debug, PartialEq, Eq)]
pub enum Request {
    /// Fetch the user with this identifier.
    FindUser(Uuid),
    /// Fetch the user with exactly this email.
    FindUserByEmail(String),
    /// Fetch a profile that belongs to the user with this identifier.
    FindProfileOf(Uuid),
    /// Insert this profile.
    InsertProfile(NewProfileUser),
    /// Apply the update to the user with this identifier.
    UpdateUser(Uuid, UpdateUser),
    /// Apply the update to the profile with this identifier.
    UpdateProfile(Uuid, UpdateProfileUser),
    /// Delete the user with the first identifier and, if a second is given,
    /// the profile with that one: both, or neither.
    DeleteUserAndProfile(Uuid, Option<Uuid>),
}

/// How the deletion of a user and a profile ended. Where either row was
/// refused, neither was deleted.
#[derive(Clone, Copy, Debug, PartialEq, Eq)]
pub enum Deletion {
    /// Every row that was named is gone.
    Done,
    /// Storage did not delete the user.
    UserRefused,
    /// Storage did not delete the profile.
    ProfileRefused,
}

/// What came of a request. A fetch that failed and a fetch that found nothing
/// both answer with `None`.
#[derive(Clone, Debug, PartialEq, Eq)]
pub enum Reply {
    User(Option<User>),
    Profile(Option<ProfileUser>),
    Written(bool),
    Deleted(Deletion),
}

impl Reply {
    /// The user that was found. Any other reply counts as none found.
    pub open spec fn user(self) -> Option<User> {
        match self {
            Reply::User(found) => found,
            _ => None,
        }
    }

    /// The profile that was found. Any other reply counts as none found.
    pub open spec fn profile(self) -> Option<ProfileUser> {
        match self {
            Reply::Profile(found) => found,
            _ => None,
        }
    }

    /// Whether a write went through. Any other reply counts as a failure.
    pub open spec fn written(self) -> bool {
        self == Reply::Written(true)
    }

    /// How a deletion ended. Any other reply counts as the user refused.
    pub open spec fn deletion(self) -> Deletion {
        match self {
            Reply::Deleted(ended) => ended,
            _ => Deletion::UserRefused,
        }
    }

    /// The user that was found, if this reply carries one.
    pub fn into_user(self) -> (found: Option<User>)
        ensures
            found == self.user(),
    {
        match self {
            Reply::User(found) => found,
            _ => None,
        }
    }

    /// The profile that was found, if this reply carries one.
    pub fn into_profile(self) -> (found: Option<ProfileUser>)
        ensures
            found == self.profile(),
    {
        match self {
            Reply::Profile(found) => found,
            _ => None,
        }
    }

    /// Whether this reply reports a write that went through.
    pub fn is_written(&self) -> (yes: bool)
        ensures
            yes == self.written(),
    {
        match self {
            Reply::Written(done) => *done,
            _ => false,
        }
    }

    /// How the deletion ended that this reply reports.
    pub fn into_deletion(self) -> (ended: Deletion)
        ensures
            ended == self.deletion(),
    {
        match self {
            Reply::Deleted(ended) => ended,
            _ => Deletion::UserRefused,
        }
    }
}

/// The rows of the two tables.
pub struct Store {
    pub users: Set<User>,
    pub profiles: Set<ProfileUser>,
}

impl Store {
    /// Whether a user with this identifier is stored.
    pub open spec fn has_user(self, id: Uuid) -> bool {
        exists|row: User| #[trigger] self.users.contains(row) && row.user_id == id
    }

    /// Whether a user with exactly this email is stored.
    pub open spec fn has_email(self, email: Seq<char>) -> bool {
        exists|row: User| #[trigger] self.users.contains(row) && row.email@ == email
    }

    /// Whether a profile of the user with this identifier is stored.
    pub open spec fn has_profile_of(self, id: Uuid) -> bool {
        exists|row: ProfileUser| #[trigger] self.profiles.contains(row) && row.user_id == Some(id)
    }

    /// Whether a profile with this identifier is stored.
    pub open spec fn has_profile(self, id: Uuid) -> bool {
        exists|row: ProfileUser| #[trigger] self.profiles.contains(row) && row.profile_id == id
    }

    /// Whether every row is the only one with its identifier.
    pub open spec fn keyed(self) -> bool {
        &&& forall|one: User, other: User|
            #![trigger self.users.contains(one), self.users.contains(other)]
            self.users.contains(one) && self.users.contains(other) && one.user_id
                == other.user_id ==> one == other
        &&& forall|one: ProfileUser, other: ProfileUser|
            #![trigger self.profiles.contains(one), self.profiles.contains(other)]
            self.profiles.contains(one) && self.profiles.contains(other) && one.profile_id
                == other.profile_id ==> one == other
    }

    /// The users after `update` was applied to every user identified by `id`.
    pub open spec fn users_updated(self, id: Uuid, update: UpdateUser) -> Set<User> {
        self.users.map(
            |row: User|
                if row.user_id == id {
                    update.applied_to(row)
                } else {
                    row
                },
        )
    }

    /// The profiles after `update` was applied to every profile identified by
    /// `id`.
    pub open spec fn profiles_updated(self, id: Uuid, update: UpdateProfileUser) -> Set<
        ProfileUser,
    > {
        self.profiles.map(
            |row: ProfileUser|
                if row.profile_id == id {
                    update.applied_to(row)
                } else {
                    row
                },
        )
    }

    /// Whether `after` holds what this store holds once `request`, a write,
    /// went through.
    pub open spec fn wrote(self, request: Request, after: Store) -> bool {
        match request {
            Request::InsertProfile(new) => after.users == self.users && exists|row: ProfileUser|
                #[trigger] new.describes(row) && !self.has_profile(row.profile_id)
                    && after.profiles == self.profiles.insert(row),
            Request::UpdateUser(id, update) => after.users == self.users_updated(id, update)
                && after.profiles == self.profiles,
            Request::UpdateProfile(id, update) => after.users == self.users && after.profiles
                == self.profiles_updated(id, update),
            Request::DeleteUserAndProfile(user, profile) => after.users == self.users.filter(
                |row: User| row.user_id != user,
            ) && after.profiles == match profile {
                Some(id) => self.profiles.filter(|row: ProfileUser| row.profile_id != id),
                None => self.profiles,
            },
            _ => after == self,
        }
    }

    /// Whether a store holding these rows may answer `request` with `reply` and
    /// hold the rows of `after` from then on.
    ///
    /// `ok` says that storage performed the request. Where it did not, nothing
    /// is found and nothing changes. Where it did, a fetch finds a row that
    /// matches if and only if there is one, and a write goes through: an
    /// insertion adds one row under an identifier that no profile had, an
    /// update rewrites the rows it names, a deletion removes them. A fetch
    /// never changes a row, and no write touches a row it does not name. A
    /// deletion that is refused for either row removes neither.
    pub open spec fn serves(self, request: Request, ok: bool, reply: Reply, after: Store) -> bool {
        match request {
            Request::FindUser(id) => after == self && match reply {
                Reply::User(Some(row)) => ok && self.users.contains(row) && row.user_id == id,
                Reply::User(None) => ok ==> !self.has_user(id),
                _ => false,
            },
            Request::FindUserByEmail(email) => after == self && match reply {
                Reply::User(Some(row)) => ok && self.users.contains(row) && row.email@ == email@,
                Reply::User(None) => ok ==> !self.has_email(email@),
                _ => false,
            },
            Request::FindProfileOf(id) => after == self && match reply {
                Reply::Profile(Some(row)) => ok && self.profiles.contains(row) && row.user_id
                    == Some(id),
                Reply::Profile(None) => ok ==> !self.has_profile_of(id),
                _ => false,
            },
            Request::DeleteUserAndProfile(_, profile) => if ok {
                reply == Reply::Deleted(Deletion::Done) && self.wrote(request, after)
            } else {
                after == self && (reply == Reply::Deleted(Deletion::UserRefused) || (profile is Some
                    && reply == Reply::Deleted(Deletion::ProfileRefused)))
            },
            _ => if ok {
                reply == Reply::Written(true) && self.wrote(request, after)
            } else {
                reply == Reply::Written(false) && after == self
            },
        }
    }
}

} // verus!
