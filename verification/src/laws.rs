//! What holds of whole operations, stated against the model of a store.
//!
//! An operation is run by performing its requests one after another. [`runs`]
//! says which outcomes, and which rows, such a run can end with; the laws say
//! what all those runs have in common.

use crate::email::is_email;
use crate::gateway::{Reply, Request, Store};
use crate::outside::bcrypt_verifies;
use crate::records::{NewProfileUser, ProfileUser, UpdateProfileUser, UpdateUser, User};
use crate::service::{
    create_profile, delete_user_with_profile, get_user, get_user_by_email, get_user_profile,
    update_profile, update_user, verify_new_email, Failure, Outcome, Step, Task,
};
use uuid::Uuid;
use vstd::prelude::*;

verus! {

/// One request and its reply: the store answers `request`, and the task
/// takes the reply and gives `next`. Where `faultless` holds, storage performs
/// the request.
///
/// The last line restricts nothing, as
/// [`law_every_reply_brings_the_end_closer`] shows; it is here so that a run
/// is seen to end.
pub open spec fn exchange(
    before: Store,
    task: Task,
    request: Request,
    faultless: bool,
    ok: bool,
    reply: Reply,
    between: Store,
    next: Step,
) -> bool {
    &&& faultless ==> ok
    &&& before.serves(request, ok, reply, between)
    &&& task.allows(reply, next)
    &&& next.rank() <= task.rank()
}

/// Whether an operation that stands at `step`, carried to its end against a
/// store that holds `before`, can come to `outcome` and leave `after`.
pub open spec fn runs(
    step: Step,
    before: Store,
    faultless: bool,
    outcome: Outcome,
    after: Store,
) -> bool
    decreases step.rank(),
{
    match step {
        Step::Done(reached) => reached == outcome && after == before,
        Step::Ask(task, request) => exists|ok: bool, reply: Reply, between: Store, next: Step|
            #[trigger] exchange(before, task, request, faultless, ok, reply, between, next)
                && runs(next, between, faultless, outcome, after),
    }
}

/// The first exchange of a run that begins with a request: whether storage
/// performed it, the reply, the rows after it, and the step that follows.
proof fn lemma_first_exchange(
    step: Step,
    before: Store,
    faultless: bool,
    outcome: Outcome,
    after: Store,
) -> (first: (bool, Reply, Store, Step))
    requires
        step is Ask,
        runs(step, before, faultless, outcome, after),
    ensures
        exchange(before, step->Ask_0, step->Ask_1, faultless, first.0, first.1, first.2, first.3),
        runs(first.3, first.2, faultless, outcome, after),
{
    choose|ok: bool, reply: Reply, between: Store, next: Step|
        #[trigger] exchange(before, step->Ask_0, step->Ask_1, faultless, ok, reply, between, next)
            && runs(next, between, faultless, outcome, after)
}

/// A reply never leaves more requests to come than the task allowed for, so
/// every operation ends: after four requests at the most.
pub proof fn law_every_reply_brings_the_end_closer(task: Task, reply: Reply, next: Step)
    requires
        task.allows(reply, next),
    ensures
        next.rank() <= task.rank(),
        task.rank() <= 3,
{
}

/// Whatever storage does with one request, identifiers stay unique.
pub proof fn law_request_keeps_identifiers_unique(
    before: Store,
    request: Request,
    ok: bool,
    reply: Reply,
    after: Store,
)
    requires
        before.keyed(),
        before.serves(request, ok, reply, after),
    ensures
        after.keyed(),
{
}

/// Whatever an operation does, and however it ends, identifiers stay unique.
pub proof fn law_operation_keeps_identifiers_unique(
    step: Step,
    before: Store,
    faultless: bool,
    outcome: Outcome,
    after: Store,
)
    requires
        before.keyed(),
        runs(step, before, faultless, outcome, after),
    ensures
        after.keyed(),
    decreases step.rank(),
{
    if step is Ask {
        let (ok, reply, between, next) = lemma_first_exchange(
            step,
            before,
            faultless,
            outcome,
            after,
        );
        law_request_keeps_identifiers_unique(before, step->Ask_1, ok, reply, between);
        law_operation_keeps_identifiers_unique(next, between, faultless, outcome, after);
    }
}

/// Looking a user up by identifier changes nothing. A user that is found is
/// a stored user with that identifier; if no such user is stored, nobody is
/// found; and if one is, and storage performs the request, somebody is.
pub proof fn law_user_is_found_by_identifier(
    before: Store,
    uuid_user: Uuid,
    faultless: bool,
    outcome: Outcome,
    after: Store,
)
    requires
        runs(get_user(uuid_user), before, faultless, outcome, after),
    ensures
        after == before,
        outcome is User,
        outcome matches Outcome::User(Some(row)) ==> before.users.contains(row) && row.user_id
            == uuid_user,
        !before.has_user(uuid_user) ==> outcome == Outcome::User(None),
        faultless && before.has_user(uuid_user) ==> outcome != Outcome::User(None),
{
    lemma_first_exchange(get_user(uuid_user), before, faultless, outcome, after);
}

/// Looking a user up by email changes nothing. A user that is found is a
/// stored user with exactly that email; if no such user is stored, nobody is
/// found; and if one is, and storage performs the request, somebody is.
pub proof fn law_user_is_found_by_email(
    before: Store,
    email_user: String,
    faultless: bool,
    outcome: Outcome,
    after: Store,
)
    requires
        runs(get_user_by_email(&email_user), before, faultless, outcome, after),
    ensures
        after == before,
        outcome is User,
        outcome matches Outcome::User(Some(row)) ==> before.users.contains(row) && row.email@
            == email_user@,
        !before.has_email(email_user@) ==> outcome == Outcome::User(None),
        faultless && before.has_email(email_user@) ==> outcome != Outcome::User(None),
{
    lemma_first_exchange(get_user_by_email(&email_user), before, faultless, outcome, after);
}

/// Looking up a user's profile changes nothing. A profile that is found is a
/// stored profile of that user, and the user is stored too; without the user
/// no profile is found, whatever profiles are stored; and with the user and a
/// profile of the user stored, and storage performing every request, a
/// profile is found.
pub proof fn law_profile_is_found_through_its_user(
    before: Store,
    uuid_user: Uuid,
    faultless: bool,
    outcome: Outcome,
    after: Store,
)
    requires
        runs(get_user_profile(uuid_user), before, faultless, outcome, after),
    ensures
        after == before,
        outcome is Profile,
        outcome matches Outcome::Profile(Some(row)) ==> before.profiles.contains(row)
            && row.user_id == Some(uuid_user) && before.has_user(uuid_user),
        !before.has_user(uuid_user) ==> outcome == Outcome::Profile(None),
        faultless && before.has_user(uuid_user) && before.has_profile_of(uuid_user) ==> outcome
            != Outcome::Profile(None),
{
    let (_, _, between, next) = lemma_first_exchange(
        get_user_profile(uuid_user),
        before,
        faultless,
        outcome,
        after,
    );
    if next is Ask {
        lemma_first_exchange(next, between, faultless, outcome, after);
    }
}

/// Judging an email changes nothing. The email is judged new only if it has
/// the shape of an address. If storage performs the request, it is judged new
/// exactly if it has that shape and no stored user has exactly this email.
pub proof fn law_new_email_is_well_formed_and_unused(
    before: Store,
    email: String,
    faultless: bool,
    outcome: Outcome,
    after: Store,
)
    requires
        runs(verify_new_email(email), before, faultless, outcome, after),
    ensures
        after == before,
        outcome is Flag,
        outcome == Outcome::Flag(true) ==> is_email(email@),
        faultless ==> outcome == Outcome::Flag(is_email(email@) && !before.has_email(email@)),
{
    lemma_first_exchange(verify_new_email(email), before, faultless, outcome, after);
}

/// Whether `after` holds what `before` held and one row more: a profile of
/// `owner` with the name and the biography of `data`, under an identifier
/// that no profile had.
pub open spec fn one_profile_was_added(
    before: Store,
    after: Store,
    owner: Uuid,
    data: NewProfileUser,
) -> bool {
    &&& after.users == before.users
    &&& exists|row: ProfileUser|
        #![trigger after.profiles.contains(row)]
        after.profiles.contains(row) && after.profiles == before.profiles.insert(row)
            && !before.has_profile(row.profile_id) && row.user_id == Some(owner)
            && row.display_name == data.display_name && row.bio == data.bio
}

/// Without the user no profile is created: the outcome is `false` and
/// nothing is inserted.
pub proof fn law_no_profile_without_its_user(
    before: Store,
    uuid_user: Uuid,
    data_profile: NewProfileUser,
    faultless: bool,
    outcome: Outcome,
    after: Store,
)
    requires
        !before.has_user(uuid_user),
        runs(create_profile(uuid_user, data_profile), before, faultless, outcome, after),
    ensures
        outcome == Outcome::Flag(false),
        after == before,
{
    lemma_first_exchange(
        create_profile(uuid_user, data_profile),
        before,
        faultless,
        outcome,
        after,
    );
}

/// A profile that is created belongs to the user it was created for, whatever
/// owner the data named. Creating succeeds only for a stored user, and then
/// stores exactly one more row: a profile of that user with the data's name
/// and biography. Creating that fails stores nothing. For a stored user, and
/// with storage performing every request, creating succeeds.
pub proof fn law_created_profile_belongs_to_its_user(
    before: Store,
    uuid_user: Uuid,
    data_profile: NewProfileUser,
    faultless: bool,
    outcome: Outcome,
    after: Store,
)
    requires
        runs(create_profile(uuid_user, data_profile), before, faultless, outcome, after),
    ensures
        outcome is Flag,
        outcome == Outcome::Flag(false) ==> after == before,
        outcome == Outcome::Flag(true) ==> before.has_user(uuid_user) && one_profile_was_added(
            before,
            after,
            uuid_user,
            data_profile,
        ),
        faultless && before.has_user(uuid_user) ==> outcome == Outcome::Flag(true),
{
    let (_, _, between, next) = lemma_first_exchange(
        create_profile(uuid_user, data_profile),
        before,
        faultless,
        outcome,
        after,
    );
    if let Step::Ask(_, Request::InsertProfile(new)) = next {
        let (ok, _, _, _) = lemma_first_exchange(next, between, faultless, outcome, after);
        if ok {
            let row = choose|row: ProfileUser| #[trigger]
                new.describes(row) && !before.has_profile(row.profile_id) && after.profiles
                    == before.profiles.insert(row);
            assert(after.profiles.contains(row));
        }
    }
}

/// Whether `after` holds what `before` held, with `payload`, sealed, applied
/// to the user `uuid_user`.
pub open spec fn user_was_updated(
    before: Store,
    after: Store,
    uuid_user: Uuid,
    payload: UpdateUser,
) -> bool {
    &&& after.profiles == before.profiles
    &&& exists|update: UpdateUser| #[trigger]
        payload.sealed_as(update) && after.users == before.users_updated(uuid_user, update)
}

/// What an update of a user amounts to. Where the update succeeds, the user
/// was stored, and the rows are as they were with the sealed payload applied
/// to that user. Otherwise nothing has changed. Without the user the outcome
/// is `false`; hashing can fail only if there is a password to hash. With the
/// user stored and storage performing every request, the outcome is never
/// `false`, and without a password the update succeeds.
pub proof fn law_user_update_applies_the_sealed_payload(
    before: Store,
    uuid_user: Uuid,
    payload: UpdateUser,
    faultless: bool,
    outcome: Outcome,
    after: Store,
)
    requires
        runs(update_user(uuid_user, payload), before, faultless, outcome, after),
    ensures
        outcome is Flag || outcome == Outcome::Failed(Failure::Hashing),
        outcome is Failed ==> payload.password is Some,
        outcome != Outcome::Flag(true) ==> after == before,
        outcome == Outcome::Flag(true) ==> before.has_user(uuid_user) && user_was_updated(
            before,
            after,
            uuid_user,
            payload,
        ),
        !before.has_user(uuid_user) ==> outcome == Outcome::Flag(false),
        faultless && before.has_user(uuid_user) ==> outcome != Outcome::Flag(false),
        faultless && before.has_user(uuid_user) && payload.password is None ==> outcome
            == Outcome::Flag(true),
{
    let (_, _, between, next) = lemma_first_exchange(
        update_user(uuid_user, payload),
        before,
        faultless,
        outcome,
        after,
    );
    if next is Ask {
        lemma_first_exchange(next, between, faultless, outcome, after);
    }
}

/// A password is never stored as it was given. Where an update that carries
/// a password succeeds, every stored row of that user holds a hash of sixty
/// characters that bcrypt accepts for the password and that does not spell
/// it.
pub proof fn law_password_is_never_stored_as_given(
    before: Store,
    uuid_user: Uuid,
    payload: UpdateUser,
    faultless: bool,
    after: Store,
    row: User,
)
    requires
        payload.password is Some,
        runs(update_user(uuid_user, payload), before, faultless, Outcome::Flag(true), after),
        after.users.contains(row),
        row.user_id == uuid_user,
    ensures
        row.password@ != payload.password->Some_0@,
        row.password@.len() == 60,
        bcrypt_verifies(payload.password->Some_0@, row.password@),
{
    law_user_update_applies_the_sealed_payload(
        before,
        uuid_user,
        payload,
        faultless,
        Outcome::Flag(true),
        after,
    );
}

/// Whether `before` held a row of the user `uuid_user` with the password of
/// `row` and the time of its last change.
pub open spec fn has_earlier_password(before: Store, uuid_user: Uuid, row: User) -> bool {
    exists|earlier: User| #[trigger]
        before.users.contains(earlier) && earlier.user_id == uuid_user && row.password
            == earlier.password && row.changed_password_at == earlier.changed_password_at
}

/// An update without a password leaves the password and the time of its last
/// change as they were, whatever time of change the payload names. Where such
/// an update succeeds, every stored row of that user has the password, and
/// the time of its change, of an earlier row of that user.
pub proof fn law_update_without_password_keeps_the_password(
    before: Store,
    uuid_user: Uuid,
    payload: UpdateUser,
    faultless: bool,
    after: Store,
    row: User,
)
    requires
        payload.password is None,
        runs(update_user(uuid_user, payload), before, faultless, Outcome::Flag(true), after),
        after.users.contains(row),
        row.user_id == uuid_user,
    ensures
        has_earlier_password(before, uuid_user, row),
{
    law_user_update_applies_the_sealed_payload(
        before,
        uuid_user,
        payload,
        faultless,
        Outcome::Flag(true),
        after,
    );
}

/// Whether `after` holds what `before` held, with `payload`, stamped, applied
/// to a profile of the user `uuid_user`.
pub open spec fn profile_was_updated(
    before: Store,
    after: Store,
    uuid_user: Uuid,
    payload: UpdateProfileUser,
) -> bool {
    &&& after.users == before.users
    &&& exists|row: ProfileUser, update: UpdateProfileUser|
        #![trigger before.profiles.contains(row), payload.stamped_as(update)]
        before.profiles.contains(row) && row.user_id == Some(uuid_user) && payload.stamped_as(
            update,
        ) && after.profiles == before.profiles_updated(row.profile_id, update)
}

/// What an update of a profile amounts to. Where the update succeeds, the
/// user was stored with a profile, and the rows are as they were with the
/// stamped payload applied to one profile of that user. Otherwise nothing has
/// changed. Without the user, or without a profile of the user, the outcome
/// is `false`; with both stored, and storage performing every request, the
/// update succeeds.
pub proof fn law_profile_update_applies_the_stamped_payload(
    before: Store,
    uuid_user: Uuid,
    payload: UpdateProfileUser,
    faultless: bool,
    outcome: Outcome,
    after: Store,
)
    requires
        runs(update_profile(uuid_user, payload), before, faultless, outcome, after),
    ensures
        outcome is Flag,
        outcome == Outcome::Flag(false) ==> after == before,
        outcome == Outcome::Flag(true) ==> before.has_user(uuid_user) && profile_was_updated(
            before,
            after,
            uuid_user,
            payload,
        ),
        !before.has_user(uuid_user) || !before.has_profile_of(uuid_user) ==> outcome
            == Outcome::Flag(false),
        faultless && before.has_user(uuid_user) && before.has_profile_of(uuid_user) ==> outcome
            == Outcome::Flag(true),
{
    let (_, _, store1, next1) = lemma_first_exchange(
        update_profile(uuid_user, payload),
        before,
        faultless,
        outcome,
        after,
    );
    let (store2, next2) = if next1 matches Step::Ask(Task::FindProfile { .. }, _) {
        let (_, _, store2, next2) = lemma_first_exchange(next1, store1, faultless, outcome, after);
        (store2, next2)
    } else {
        (store1, next1)
    };
    if next2 is Ask {
        lemma_first_exchange(next2, store2, faultless, outcome, after);
    }
}

/// Whether `rows` holds a row that agrees with `row` in everything but the
/// time of its last update.
#[verifier::opaque]
pub open spec fn has_twin(rows: Set<ProfileUser>, row: ProfileUser) -> bool {
    exists|twin: ProfileUser| #[trigger]
        rows.contains(twin) && row.same_apart_from_updated_at(twin)
}

/// Whether two tables of profiles hold the same rows apart from the times of
/// their last update.
pub open spec fn same_profiles_apart_from_updated_at(
    one: Set<ProfileUser>,
    other: Set<ProfileUser>,
) -> bool {
    &&& forall|row: ProfileUser| #[trigger] one.contains(row) ==> has_twin(other, row)
    &&& forall|row: ProfileUser| #[trigger] other.contains(row) ==> has_twin(one, row)
}

proof fn lemma_twin_is_found(rows: Set<ProfileUser>, row: ProfileUser, twin: ProfileUser)
    requires
        rows.contains(twin),
        row.same_apart_from_updated_at(twin),
    ensures
        has_twin(rows, row),
{
    reveal(has_twin);
}

proof fn lemma_some_twin(rows: Set<ProfileUser>, row: ProfileUser) -> (twin: ProfileUser)
    requires
        has_twin(rows, row),
    ensures
        rows.contains(twin),
        row.same_apart_from_updated_at(twin),
{
    reveal(has_twin);
    choose|twin: ProfileUser| #[trigger] rows.contains(twin) && row.same_apart_from_updated_at(twin)
}

/// A twin of a twin is a twin.
proof fn lemma_twin_of_twin(
    one: Set<ProfileUser>,
    other: Set<ProfileUser>,
    last: Set<ProfileUser>,
    row: ProfileUser,
)
    requires
        one.contains(row),
        same_profiles_apart_from_updated_at(one, other),
        same_profiles_apart_from_updated_at(other, last),
    ensures
        has_twin(last, row),
{
    let middle = lemma_some_twin(other, row);
    let twin = lemma_some_twin(last, middle);
    lemma_twin_is_found(last, row, twin);
}

/// Stamping a profile's rows leaves them as they were apart from the times
/// of their last update.
proof fn lemma_stamping_keeps_rows(before: Store, id: Uuid, update: UpdateProfileUser)
    requires
        update.display_name is None,
        update.bio is None,
    ensures
        same_profiles_apart_from_updated_at(before.profiles, before.profiles_updated(id, update)),
{
    let after = before.profiles_updated(id, update);
    let stamp = |row: ProfileUser|
        if row.profile_id == id {
            update.applied_to(row)
        } else {
            row
        };
    assert forall|row: ProfileUser| #[trigger] before.profiles.contains(row) implies has_twin(
        after,
        row,
    ) by {
        lemma_twin_is_found(after, row, stamp(row));
    }
    assert forall|row: ProfileUser| #[trigger] after.contains(row) implies has_twin(
        before.profiles,
        row,
    ) by {
        let earlier = choose|earlier: ProfileUser|
            before.profiles.contains(earlier) && row == stamp(earlier);
        lemma_twin_is_found(before.profiles, row, earlier);
    }
}

/// Every row is its own twin.
proof fn lemma_rows_are_their_own_twins(rows: Set<ProfileUser>)
    ensures
        same_profiles_apart_from_updated_at(rows, rows),
{
    assert forall|row: ProfileUser| #[trigger] rows.contains(row) implies has_twin(rows, row) by {
        lemma_twin_is_found(rows, row, row);
    }
}

/// An update of a profile that names no column changes no row but in the
/// time of its last update, and changes no user.
pub proof fn law_empty_profile_update_only_stamps(
    before: Store,
    uuid_user: Uuid,
    payload: UpdateProfileUser,
    faultless: bool,
    outcome: Outcome,
    after: Store,
)
    requires
        payload.display_name is None,
        payload.bio is None,
        runs(update_profile(uuid_user, payload), before, faultless, outcome, after),
    ensures
        after.users == before.users,
        same_profiles_apart_from_updated_at(before.profiles, after.profiles),
{
    law_profile_update_applies_the_stamped_payload(
        before,
        uuid_user,
        payload,
        faultless,
        outcome,
        after,
    );
    if outcome == Outcome::Flag(true) {
        let (row, update) = choose|row: ProfileUser, update: UpdateProfileUser|
            #![trigger before.profiles.contains(row), payload.stamped_as(update)]
            before.profiles.contains(row) && row.user_id == Some(uuid_user) && payload.stamped_as(
                update,
            ) && after.profiles == before.profiles_updated(row.profile_id, update);
        lemma_stamping_keeps_rows(before, row.profile_id, update);
    } else {
        lemma_rows_are_their_own_twins(before.profiles);
    }
}

/// Updating a profile with an empty payload, twice, leaves the stored
/// profiles as they were apart from the times of their last update, after the
/// first call and after the second.
pub proof fn law_empty_profile_update_is_idempotent(
    before: Store,
    uuid_user: Uuid,
    payload: UpdateProfileUser,
    faultless: bool,
    first: Outcome,
    between: Store,
    second: Outcome,
    after: Store,
)
    requires
        payload.is_empty(),
        runs(update_profile(uuid_user, payload), before, faultless, first, between),
        runs(update_profile(uuid_user, payload), between, faultless, second, after),
    ensures
        after.users == before.users,
        same_profiles_apart_from_updated_at(before.profiles, between.profiles),
        same_profiles_apart_from_updated_at(between.profiles, after.profiles),
        same_profiles_apart_from_updated_at(before.profiles, after.profiles),
{
    law_empty_profile_update_only_stamps(before, uuid_user, payload, faultless, first, between);
    law_empty_profile_update_only_stamps(between, uuid_user, payload, faultless, second, after);
    assert forall|row: ProfileUser| #[trigger] before.profiles.contains(row) implies has_twin(
        after.profiles,
        row,
    ) by {
        lemma_twin_of_twin(before.profiles, between.profiles, after.profiles, row);
    }
    assert forall|row: ProfileUser| #[trigger] after.profiles.contains(row) implies has_twin(
        before.profiles,
        row,
    ) by {
        lemma_twin_of_twin(after.profiles, between.profiles, before.profiles, row);
    }
}

/// Whether `after` holds the profiles of `before` but one, a profile of the
/// user `uuid_user`.
pub open spec fn one_profile_was_deleted(before: Store, after: Store, uuid_user: Uuid) -> bool {
    exists|found: ProfileUser| #[trigger]
        before.profiles.contains(found) && found.user_id == Some(uuid_user) && after.profiles
            == before.profiles.filter(|row: ProfileUser| row.profile_id != found.profile_id)
}

/// Whether `after` holds what `before` held without the user `uuid_user`,
/// and without one profile of that user at the most.
pub open spec fn user_was_deleted(before: Store, after: Store, uuid_user: Uuid) -> bool {
    &&& after.users == before.users.filter(|row: User| row.user_id != uuid_user)
    &&& after.profiles == before.profiles || one_profile_was_deleted(before, after, uuid_user)
}

/// Deleting a user who is not stored deletes nothing: the outcome is
/// `false` and every row stays.
pub proof fn law_deleting_an_absent_user_changes_nothing(
    before: Store,
    uuid_user: Uuid,
    faultless: bool,
    outcome: Outcome,
    after: Store,
)
    requires
        !before.has_user(uuid_user),
        runs(delete_user_with_profile(uuid_user), before, faultless, outcome, after),
    ensures
        outcome == Outcome::Flag(false),
        after == before,
{
    law_deleting_removes_user_and_profile(before, uuid_user, faultless, outcome, after);
}

/// Deleting a user removes the user and the profile that was found with it,
/// both or neither.
///
/// Where deleting does not succeed, nothing has changed. Where it succeeds,
/// the user was stored and is stored no longer; every other user stays; and
/// the profiles are as they were, or as they were without one profile of that
/// user. They are as they were if the user had no profile. For a stored user,
/// and with storage performing every request, deleting succeeds, and if the
/// user had a profile, one profile of that user is gone.
pub proof fn law_deleting_removes_user_and_profile(
    before: Store,
    uuid_user: Uuid,
    faultless: bool,
    outcome: Outcome,
    after: Store,
)
    requires
        runs(delete_user_with_profile(uuid_user), before, faultless, outcome, after),
    ensures
        outcome is Flag || outcome == Outcome::Failed(Failure::Storage),
        outcome != Outcome::Flag(true) ==> after == before,
        outcome == Outcome::Flag(true) ==> before.has_user(uuid_user) && !after.has_user(uuid_user)
            && user_was_deleted(before, after, uuid_user),
        !before.has_user(uuid_user) ==> outcome == Outcome::Flag(false),
        !before.has_profile_of(uuid_user) ==> after.profiles == before.profiles,
        faultless && before.has_user(uuid_user) ==> outcome == Outcome::Flag(true),
        faultless && before.has_user(uuid_user) && before.has_profile_of(uuid_user)
            ==> one_profile_was_deleted(before, after, uuid_user),
{
    let (_, _, store1, next1) = lemma_first_exchange(
        delete_user_with_profile(uuid_user),
        before,
        faultless,
        outcome,
        after,
    );
    let (_, _, store2, next2) = lemma_first_exchange(next1, store1, faultless, outcome, after);
    let (store3, next3) = if next2 matches Step::Ask(Task::FindProfile { .. }, _) {
        let (_, _, store3, next3) = lemma_first_exchange(next2, store2, faultless, outcome, after);
        (store3, next3)
    } else {
        (store2, next2)
    };
    if next3 is Ask {
        lemma_first_exchange(next3, store3, faultless, outcome, after);
    }
}

/// Deleting a user removes no profile of another user, as long as profiles
/// are told apart by their identifiers.
pub proof fn law_deleting_spares_the_profiles_of_others(
    before: Store,
    uuid_user: Uuid,
    faultless: bool,
    outcome: Outcome,
    after: Store,
    row: ProfileUser,
)
    requires
        before.keyed(),
        runs(delete_user_with_profile(uuid_user), before, faultless, outcome, after),
        before.profiles.contains(row),
        row.user_id != Some(uuid_user),
    ensures
        after.profiles.contains(row),
{
    law_deleting_removes_user_and_profile(before, uuid_user, faultless, outcome, after);
}

/// Deleting a user leaves no profile behind, where the user has one profile
/// at the most and storage performs every request.
pub proof fn law_deleting_leaves_no_orphan(
    before: Store,
    uuid_user: Uuid,
    outcome: Outcome,
    after: Store,
)
    requires
        forall|one: ProfileUser, other: ProfileUser|
            #![trigger before.profiles.contains(one), before.profiles.contains(other)]
            before.profiles.contains(one) && before.profiles.contains(other) && one.user_id
                == Some(uuid_user) && other.user_id == Some(uuid_user) ==> one == other,
        before.has_user(uuid_user),
        runs(delete_user_with_profile(uuid_user), before, true, outcome, after),
    ensures
        outcome == Outcome::Flag(true),
        !after.has_user(uuid_user),
        !after.has_profile_of(uuid_user),
{
    law_deleting_removes_user_and_profile(before, uuid_user, true, outcome, after);
}

/// Once a user is deleted, neither the user nor a profile of the user is
/// found again.
pub proof fn law_deleted_user_is_not_found_again(
    before: Store,
    uuid_user: Uuid,
    faultless: bool,
    after: Store,
    found_user: Outcome,
    later: Store,
    found_profile: Outcome,
    last: Store,
)
    requires
        runs(
            delete_user_with_profile(uuid_user),
            before,
            faultless,
            Outcome::Flag(true),
            after,
        ),
        runs(get_user(uuid_user), after, faultless, found_user, later),
        runs(get_user_profile(uuid_user), later, faultless, found_profile, last),
    ensures
        found_user == Outcome::User(None),
        found_profile == Outcome::Profile(None),
        last == after,
{
    law_deleting_removes_user_and_profile(before, uuid_user, faultless, Outcome::Flag(true), after);
    law_user_is_found_by_identifier(after, uuid_user, faultless, found_user, later);
    law_profile_is_found_through_its_user(later, uuid_user, faultless, found_profile, last);
}

} // verus!
