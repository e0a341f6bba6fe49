//! The account service: eight operations, each a short conversation with
//! storage.
//!
//! An operation begins with a [`Step`]. While the step is [`Step::Ask`], the
//! caller performs the request and hands the reply to [`Task::resume`], which
//! gives the next step. [`Step::Done`] carries the operation's outcome.
//! [`Task::allows`] says which step may follow which reply.

use crate::email::{is_email, is_well_formed_email};
use crate::gateway::{Deletion, Reply, Request};
use crate::outside::{bcrypt_verifies, current_utc_time, salted_hash};
use crate::records::{NewProfileUser, ProfileUser, UpdateProfileUser, UpdateUser, User};
use bcrypt::BcryptError;
use chrono::NaiveDateTime;
use uuid::Uuid;
use vstd::prelude::*;

verus! {

/// Why an operation was abandoned.
#[derive(Clone, Copy, Debug, PartialEq, Eq)]
pub enum Failure {
    /// No usable hash of the new password could be had.
    Hashing,
    /// Storage did not delete the user.
    Storage,
}

/// What an operation came to.
#[derive(Clone, Debug, PartialEq, Eq)]
pub enum Outcome {
    User(Option<User>),
    Profile(Option<ProfileUser>),
    Flag(bool),
    Failed(Failure),
}

/// What the resolved profile is wanted for.
#[derive(Clone, Debug, PartialEq, Eq)]
pub enum Purpose {
    /// To be handed to the caller.
    Report,
    /// To receive this update.
    Revise(UpdateProfileUser),
    /// To be deleted together with this user, who was resolved beforehand.
    Erase(Option<User>),
}

/// Where an operation stands while a request is out.
#[derive(Clone, Debug, PartialEq, Eq)]
pub enum Task {
    /// Waiting for a user, to report it.
    ReportUser,
    /// Waiting for the user who has an email, to judge whether it is new.
    JudgeEmail { well_formed: bool },
    /// Waiting for the user who is to own a new profile.
    AttachProfile { data_profile: NewProfileUser },
    /// Waiting for the user who is to be updated.
    ReviseUser { payload: UpdateUser },
    /// Waiting for the user who is to be deleted.
    ResolveUser { uuid_user: Uuid },
    /// Waiting for the user whose profile is wanted.
    FindOwner { purpose: Purpose },
    /// Waiting for the profile.
    FindProfile { purpose: Purpose },
    /// Waiting for the deletion of the user and the profile.
    RemoveBoth,
    /// Waiting for the last write.
    Conclude,
}

/// Either the next request, with the task that awaits its reply, or the
/// outcome.
#[derive(Clone, Debug, PartialEq, Eq)]
pub enum Step {
    Ask(Task, Request),
    Done(Outcome),
}

impl UpdateUser {
    /// Whether `update` is this payload made ready for storage.
    ///
    /// Name and email are the payload's. The time of update is set. Where the
    /// payload carries a password, the update carries in its place a hash of
    /// sixty characters that bcrypt accepts for that password and that does
    /// not spell it, and the time of the change is set. Where it carries
    /// none, the update carries neither a password nor a time of its change,
    /// whatever time the payload named.
    pub open spec fn sealed_as(self, update: UpdateUser) -> bool {
        &&& update.username == self.username
        &&& update.email == self.email
        &&& update.updated_at is Some
        &&& match self.password {
            Some(plain) => {
                &&& update.password matches Some(text)
                &&& text@ != plain@
                &&& text@.len() == 60
                &&& bcrypt_verifies(plain@, text@)
                &&& update.changed_password_at is Some
            },
            None => update.password is None && update.changed_password_at is None,
        }
    }

    /// This payload made ready for storage, given what hashing its password
    /// returned, if it has one, and the two times that were read.
    ///
    /// Without a password the result carries no password and no time of its
    /// change. With one, the result carries the hash and `changed`, unless
    /// there is no hash to accept. In either case it carries `updated`.
    pub open spec fn sealing(
        self,
        hashed: Option<Result<String, BcryptError>>,
        changed: NaiveDateTime,
        updated: NaiveDateTime,
    ) -> Result<UpdateUser, Failure> {
        match self.password {
            Some(plain) => match hashed {
                Some(Ok(text)) if text@ != plain@ => Ok(
                    UpdateUser {
                        username: self.username,
                        email: self.email,
                        password: Some(text),
                        changed_password_at: Some(changed),
                        updated_at: Some(updated),
                    },
                ),
                _ => Err(Failure::Hashing),
            },
            None => Ok(
                UpdateUser {
                    username: self.username,
                    email: self.email,
                    password: None,
                    changed_password_at: None,
                    updated_at: Some(updated),
                },
            ),
        }
    }
}

impl UpdateProfileUser {
    /// Whether `update` is this payload stamped with a time of update.
    pub open spec fn stamped_as(self, update: UpdateProfileUser) -> bool {
        &&& update.display_name == self.display_name
        &&& update.bio == self.bio
        &&& update.updated_at is Some
    }

    /// This payload with `now` for its time of update.
    pub fn stamped(self, now: NaiveDateTime) -> (update: UpdateProfileUser)
        ensures
            update.display_name == self.display_name,
            update.bio == self.bio,
            update.updated_at == Some(now),
    {
        let mut update = self;
        update.updated_at = Some(now);
        update
    }
}

/// The identifier of the profile, if there is one.
pub open spec fn identifier_of(profile: Option<ProfileUser>) -> Option<Uuid> {
    match profile {
        Some(row) => Some(row.profile_id),
        None => None,
    }
}

impl Purpose {
    /// Whether `step` is what follows once the profile is resolved.
    pub open spec fn settles(self, profile: Option<ProfileUser>, step: Step) -> bool {
        match self {
            Purpose::Report => step == Step::Done(Outcome::Profile(profile)),
            Purpose::Revise(payload) => match profile {
                Some(row) => match step {
                    Step::Ask(Task::Conclude, Request::UpdateProfile(id, update)) => id
                        == row.profile_id && payload.stamped_as(update),
                    _ => false,
                },
                None => step == Step::Done(Outcome::Flag(false)),
            },
            Purpose::Erase(user) => match user {
                Some(row) => step == Step::Ask(
                    Task::RemoveBoth,
                    Request::DeleteUserAndProfile(row.user_id, identifier_of(profile)),
                ),
                None => step == Step::Done(Outcome::Flag(false)),
            },
        }
    }

    fn settle(self, profile: Option<ProfileUser>) -> (step: Step)
        ensures
            self.settles(profile, step),
    {
        match self {
            Purpose::Report => Step::Done(Outcome::Profile(profile)),
            Purpose::Revise(payload) => match profile {
                Some(row) => Step::Ask(
                    Task::Conclude,
                    Request::UpdateProfile(row.profile_id, payload.stamped(current_utc_time())),
                ),
                None => Step::Done(Outcome::Flag(false)),
            },
            Purpose::Erase(user) => match user {
                Some(row) => {
                    let profile_id = match profile {
                        Some(found) => Some(found.profile_id),
                        None => None,
                    };
                    Step::Ask(
                        Task::RemoveBoth,
                        Request::DeleteUserAndProfile(row.user_id, profile_id),
                    )
                },
                None => Step::Done(Outcome::Flag(false)),
            },
        }
    }
}

/// Makes an update of a user ready for storage, from the payload, from what
/// hashing its password returned, if it has one, and from the two times that
/// were read: the time of the password's change and the time of the update.
pub fn sealed_update(
    payload: UpdateUser,
    hashed: Option<Result<String, BcryptError>>,
    changed: NaiveDateTime,
    updated: NaiveDateTime,
) -> (sealed: Result<UpdateUser, Failure>)
    ensures
        sealed == payload.sealing(hashed, changed, updated),
{
    let UpdateUser { username, email, password, changed_password_at: _, updated_at: _ } = payload;
    match password {
        Some(plain) => match hashed {
            Some(Ok(text)) => if text == plain {
                Err(Failure::Hashing)
            } else {
                Ok(
                    UpdateUser {
                        username,
                        email,
                        password: Some(text),
                        changed_password_at: Some(changed),
                        updated_at: Some(updated),
                    },
                )
            },
            _ => Err(Failure::Hashing),
        },
        None => Ok(
            UpdateUser {
                username,
                email,
                password: None,
                changed_password_at: None,
                updated_at: Some(updated),
            },
        ),
    }
}

/// Makes an update of a user ready for storage.
///
/// A password in the payload is hashed, with a salt of its own, and the
/// clock is read for the time of the change and for the time of the update.
/// What becomes of the payload then is [`sealed_update`]'s to say. Without a
/// password nothing is hashed and nothing can fail.
pub fn seal_user_update(payload: UpdateUser) -> (sealed: Result<UpdateUser, Failure>)
    ensures
        sealed matches Ok(update) ==> payload.sealed_as(update),
        sealed matches Err(failure) ==> failure == Failure::Hashing && payload.password is Some,
{
    let hashed = match &payload.password {
        Some(plain) => Some(salted_hash(plain)),
        None => None,
    };
    let changed = current_utc_time();
    let updated = current_utc_time();
    sealed_update(payload, hashed, changed, updated)
}

impl Task {
    /// Whether `step` may follow when `reply` answers the request that this
    /// task waits on.
    ///
    /// Where the step carries a hash or a time, the hash and the time are not
    /// determined; everything else is.
    pub open spec fn allows(self, reply: Reply, step: Step) -> bool {
        match self {
            Task::ReportUser => step == Step::Done(Outcome::User(reply.user())),
            Task::JudgeEmail { well_formed } => step == Step::Done(
                Outcome::Flag(well_formed && reply.user() is None),
            ),
            Task::AttachProfile { data_profile } => match reply.user() {
                Some(user) => step == Step::Ask(
                    Task::Conclude,
                    Request::InsertProfile(
                        NewProfileUser {
                            user_id: Some(user.user_id),
                            display_name: data_profile.display_name,
                            bio: data_profile.bio,
                        },
                    ),
                ),
                None => step == Step::Done(Outcome::Flag(false)),
            },
            Task::ReviseUser { payload } => match reply.user() {
                Some(user) => match step {
                    Step::Ask(Task::Conclude, Request::UpdateUser(id, update)) => id
                        == user.user_id && payload.sealed_as(update),
                    Step::Done(Outcome::Failed(Failure::Hashing)) => payload.password is Some,
                    _ => false,
                },
                None => step == Step::Done(Outcome::Flag(false)),
            },
            Task::ResolveUser { uuid_user } => step == Step::Ask(
                Task::FindOwner { purpose: Purpose::Erase(reply.user()) },
                Request::FindUser(uuid_user),
            ),
            Task::FindOwner { purpose } => match reply.user() {
                Some(user) => step == Step::Ask(
                    Task::FindProfile { purpose },
                    Request::FindProfileOf(user.user_id),
                ),
                None => purpose.settles(None, step),
            },
            Task::FindProfile { purpose } => purpose.settles(reply.profile(), step),
            Task::RemoveBoth => step == Step::Done(
                match reply.deletion() {
                    Deletion::Done => Outcome::Flag(true),
                    Deletion::ProfileRefused => Outcome::Flag(false),
                    Deletion::UserRefused => Outcome::Failed(Failure::Storage),
                },
            ),
            Task::Conclude => step == Step::Done(Outcome::Flag(reply.written())),
        }
    }

    /// The most requests that can still follow the one that is out.
    pub open spec fn rank(self) -> nat {
        match self {
            Task::ResolveUser { .. } => 3,
            Task::FindOwner { .. } => 2,
            Task::FindProfile { .. } | Task::AttachProfile { .. } | Task::ReviseUser { .. } => 1,
            Task::ReportUser | Task::JudgeEmail { .. } | Task::RemoveBoth | Task::Conclude => 0,
        }
    }

    /// Takes the reply to the request that is out and decides what comes next.
    pub fn resume(self, reply: Reply) -> (step: Step)
        ensures
            self.allows(reply, step),
    {
        match self {
            Task::ReportUser => Step::Done(Outcome::User(reply.into_user())),
            Task::JudgeEmail { well_formed } => {
                let taken = reply.into_user().is_some();
                Step::Done(Outcome::Flag(well_formed && !taken))
            },
            Task::AttachProfile { data_profile } => match reply.into_user() {
                Some(user) => {
                    let mut data_profile = data_profile;
                    data_profile.user_id = Some(user.user_id);
                    Step::Ask(Task::Conclude, Request::InsertProfile(data_profile))
                },
                None => Step::Done(Outcome::Flag(false)),
            },
            Task::ReviseUser { payload } => match reply.into_user() {
                Some(user) => match seal_user_update(payload) {
                    Ok(update) => Step::Ask(
                        Task::Conclude,
                        Request::UpdateUser(user.user_id, update),
                    ),
                    Err(failure) => Step::Done(Outcome::Failed(failure)),
                },
                None => Step::Done(Outcome::Flag(false)),
            },
            Task::ResolveUser { uuid_user } => Step::Ask(
                Task::FindOwner { purpose: Purpose::Erase(reply.into_user()) },
                Request::FindUser(uuid_user),
            ),
            Task::FindOwner { purpose } => match reply.into_user() {
                Some(user) => Step::Ask(
                    Task::FindProfile { purpose },
                    Request::FindProfileOf(user.user_id),
                ),
                None => purpose.settle(None),
            },
            Task::FindProfile { purpose } => purpose.settle(reply.into_profile()),
            Task::RemoveBoth => Step::Done(
                match reply.into_deletion() {
                    Deletion::Done => Outcome::Flag(true),
                    Deletion::ProfileRefused => Outcome::Flag(false),
                    Deletion::UserRefused => Outcome::Failed(Failure::Storage),
                },
            ),
            Task::Conclude => Step::Done(Outcome::Flag(reply.is_written())),
        }
    }
}

impl Step {
    /// The most requests that this step can still lead to, its own included.
    pub open spec fn rank(self) -> nat {
        match self {
            Step::Ask(task, _) => task.rank() + 1,
            Step::Done(_) => 0,
        }
    }
}

/// Looks a user up by identifier.
///
/// The outcome is the user that storage finds, if any.
#[verifier::allow_in_spec]
pub fn get_user(uuid_user: Uuid) -> (step: Step)
    returns
        Step::Ask(Task::ReportUser, Request::FindUser(uuid_user)),
{
    Step::Ask(Task::ReportUser, Request::FindUser(uuid_user))
}

/// Looks a user up by email.
///
/// The outcome is the user that storage finds, if any.
#[verifier::allow_in_spec]
pub fn get_user_by_email(email_user: &String) -> (step: Step)
    returns
        Step::Ask(Task::ReportUser, Request::FindUserByEmail(*email_user)),
{
    Step::Ask(Task::ReportUser, Request::FindUserByEmail(email_user.clone()))
}

/// Looks up the profile of a user.
///
/// The user is resolved first. The profile table is asked only if there is
/// such a user.
#[verifier::allow_in_spec]
pub fn get_user_profile(uuid_user: Uuid) -> (step: Step)
    returns
        Step::Ask(
            Task::FindOwner { purpose: Purpose::Report },
            Request::FindUser(uuid_user),
        ),
{
    Step::Ask(Task::FindOwner { purpose: Purpose::Report }, Request::FindUser(uuid_user))
}

/// Judges whether `email` can be given to a new user.
///
/// The outcome is `true` if the email has the shape of an address and no user
/// is found who has exactly this email.
#[verifier::allow_in_spec]
pub fn verify_new_email(email: String) -> (step: Step)
    returns
        Step::Ask(
            Task::JudgeEmail { well_formed: is_email(email@) },
            Request::FindUserByEmail(email),
        ),
{
    let well_formed = is_well_formed_email(email.as_str());
    Step::Ask(Task::JudgeEmail { well_formed }, Request::FindUserByEmail(email))
}

/// Creates a profile for a user.
///
/// Without such a user nothing is inserted and the outcome is `false`. With
/// one, the profile is inserted as belonging to that user, whatever owner
/// `data_profile` names, and the outcome is whether storage took it.
#[verifier::allow_in_spec]
pub fn create_profile(uuid_user: Uuid, data_profile: NewProfileUser) -> (step: Step)
    returns
        Step::Ask(Task::AttachProfile { data_profile }, Request::FindUser(uuid_user)),
{
    Step::Ask(Task::AttachProfile { data_profile }, Request::FindUser(uuid_user))
}

/// Updates a user.
///
/// Without such a user the outcome is `false`. With one, the payload is
/// sealed and applied to that user, and the outcome is whether storage took
/// it. If the payload's password cannot be hashed, nothing is written.
#[verifier::allow_in_spec]
pub fn update_user(uuid_user: Uuid, payload: UpdateUser) -> (step: Step)
    returns
        Step::Ask(Task::ReviseUser { payload }, Request::FindUser(uuid_user)),
{
    Step::Ask(Task::ReviseUser { payload }, Request::FindUser(uuid_user))
}

/// Updates the profile of a user.
///
/// Without such a user, or without a profile, the outcome is `false`.
/// Otherwise the payload is stamped and applied to that profile, and the
/// outcome is whether storage took it.
#[verifier::allow_in_spec]
pub fn update_profile(uuid_user: Uuid, payload: UpdateProfileUser) -> (step: Step)
    returns
        Step::Ask(
            Task::FindOwner { purpose: Purpose::Revise(payload) },
            Request::FindUser(uuid_user),
        ),
{
    Step::Ask(Task::FindOwner { purpose: Purpose::Revise(payload) }, Request::FindUser(uuid_user))
}

/// Deletes a user, and the user's profile with it.
///
/// The user and the profile are both resolved before anything is deleted.
/// Without such a user nothing is deleted and the outcome is `false`. With
/// one, storage is asked once, to delete the user and the profile that was
/// found, both or neither. If it refuses the user, the operation fails; if it
/// refuses the profile, the outcome is `false`; otherwise it is `true`.
#[verifier::allow_in_spec]
pub fn delete_user_with_profile(uuid_user: Uuid) -> (step: Step)
    returns
        Step::Ask(Task::ResolveUser { uuid_user }, Request::FindUser(uuid_user)),
{
    Step::Ask(Task::ResolveUser { uuid_user }, Request::FindUser(uuid_user))
}

} // verus!
