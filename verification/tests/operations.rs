use account_service::gateway::{Deletion, Reply, Request};
use account_service::records::{NewProfileUser, ProfileUser, UpdateProfileUser, UpdateUser, User};
use account_service::service::{
    create_profile, delete_user_with_profile, get_user, get_user_by_email, get_user_profile,
    update_profile, update_user, verify_new_email, Failure, Outcome, Step,
};
use chrono::{DateTime, NaiveDateTime, Utc};
use uuid::Uuid;

/// Two tables in memory, answering requests as a store would.
struct Tables {
    users: Vec<User>,
    profiles: Vec<ProfileUser>,
    /// Every request that was performed, in order.
    asked: Vec<Request>,
    /// Positions in `asked` at which storage fails.
    failing: Vec<usize>,
    /// Whether a failing deletion fails at the profile, after the user.
    failing_at_profile: bool,
    next_profile: u128,
}

impl Tables {
    fn holding(users: Vec<User>, profiles: Vec<ProfileUser>) -> Tables {
        Tables {
            users,
            profiles,
            asked: Vec::new(),
            failing: Vec::new(),
            failing_at_profile: false,
            next_profile: 1000,
        }
    }

    fn perform(&mut self, request: Request) -> Reply {
        let fails = self.failing.contains(&self.asked.len());
        self.asked.push(request.clone());
        match request {
            Request::FindUser(id) => Reply::User(if fails {
                None
            } else {
                self.users.iter().find(|row| row.user_id == id).cloned()
            }),
            Request::FindUserByEmail(email) => Reply::User(if fails {
                None
            } else {
                self.users.iter().find(|row| row.email == email).cloned()
            }),
            Request::FindProfileOf(id) => Reply::Profile(if fails {
                None
            } else {
                self.profiles.iter().find(|row| row.user_id == Some(id)).cloned()
            }),
            Request::DeleteUserAndProfile(_, _) if fails => {
                Reply::Deleted(if self.failing_at_profile {
                    Deletion::ProfileRefused
                } else {
                    Deletion::UserRefused
                })
            }
            _ if fails => Reply::Written(false),
            Request::InsertProfile(new) => {
                self.next_profile += 1;
                self.profiles.push(ProfileUser {
                    profile_id: Uuid::from_u128(self.next_profile),
                    user_id: new.user_id,
                    display_name: new.display_name,
                    bio: new.bio,
                    updated_at: at(0),
                });
                Reply::Written(true)
            }
            Request::UpdateUser(id, update) => {
                for row in self.users.iter_mut().filter(|row| row.user_id == id) {
                    if let Some(username) = update.username.clone() {
                        row.username = username;
                    }
                    if let Some(email) = update.email.clone() {
                        row.email = email;
                    }
                    if let Some(password) = update.password.clone() {
                        row.password = password;
                    }
                    if let Some(time) = update.changed_password_at {
                        row.changed_password_at = time;
                    }
                    if let Some(time) = update.updated_at {
                        row.updated_at = time;
                    }
                }
                Reply::Written(true)
            }
            Request::UpdateProfile(id, update) => {
                for row in self.profiles.iter_mut().filter(|row| row.profile_id == id) {
                    if let Some(display_name) = update.display_name.clone() {
                        row.display_name = display_name;
                    }
                    if let Some(bio) = update.bio.clone() {
                        row.bio = bio;
                    }
                    if let Some(time) = update.updated_at {
                        row.updated_at = time;
                    }
                }
                Reply::Written(true)
            }
            Request::DeleteUserAndProfile(user, profile) => {
                self.users.retain(|row| row.user_id != user);
                if let Some(id) = profile {
                    self.profiles.retain(|row| row.profile_id != id);
                }
                Reply::Deleted(Deletion::Done)
            }
        }
    }

    /// Carries an operation to its end.
    fn carry_out(&mut self, first: Step) -> Outcome {
        let mut step = first;
        loop {
            match step {
                Step::Ask(task, request) => {
                    let reply = self.perform(request);
                    step = task.resume(reply);
                }
                Step::Done(outcome) => return outcome,
            }
        }
    }
}

fn id(n: u128) -> Uuid {
    Uuid::from_u128(n)
}

fn at(seconds: i64) -> NaiveDateTime {
    DateTime::from_timestamp(seconds, 0).unwrap().naive_utc()
}

fn user(n: u128, name: &str) -> User {
    User {
        user_id: id(n),
        username: String::from(name),
        email: format!("{}@example.com", name),
        password: String::from("$2b$12$stored"),
        changed_password_at: at(100),
        updated_at: at(200),
    }
}

fn profile(n: u128, owner: u128, name: &str) -> ProfileUser {
    ProfileUser {
        profile_id: id(n),
        user_id: Some(id(owner)),
        display_name: String::from(name),
        bio: String::from("hello"),
        updated_at: at(300),
    }
}

fn ann_and_bob() -> Tables {
    Tables::holding(
        vec![user(1, "ann"), user(2, "bob")],
        vec![profile(10, 1, "Ann"), profile(20, 2, "Bob")],
    )
}

fn new_profile(owner: Option<Uuid>) -> NewProfileUser {
    NewProfileUser { user_id: owner, display_name: String::from("New"), bio: String::from("bio") }
}

fn no_change_of_user() -> UpdateUser {
    UpdateUser {
        username: None,
        email: None,
        password: None,
        changed_password_at: None,
        updated_at: None,
    }
}

fn no_change_of_profile() -> UpdateProfileUser {
    UpdateProfileUser { display_name: None, bio: None, updated_at: None }
}

#[test]
fn get_user_finds_a_stored_user() {
    let mut tables = ann_and_bob();
    assert_eq!(tables.carry_out(get_user(id(2))), Outcome::User(Some(user(2, "bob"))));
    assert_eq!(tables.asked, vec![Request::FindUser(id(2))]);
}

#[test]
fn get_user_finds_nobody_under_an_unused_identifier() {
    let mut tables = ann_and_bob();
    for n in [0, 3, 10, 20, u128::MAX] {
        assert_eq!(tables.carry_out(get_user(id(n))), Outcome::User(None));
    }
    assert_eq!(tables.users, ann_and_bob().users);
    assert_eq!(tables.profiles, ann_and_bob().profiles);
}

#[test]
fn get_user_finds_nobody_when_the_query_fails() {
    let mut tables = ann_and_bob();
    tables.failing = vec![0];
    assert_eq!(tables.carry_out(get_user(id(1))), Outcome::User(None));
}

#[test]
fn get_user_by_email_finds_the_user_with_exactly_that_email() {
    let mut tables = ann_and_bob();
    assert_eq!(
        tables.carry_out(get_user_by_email(&String::from("ann@example.com"))),
        Outcome::User(Some(user(1, "ann")))
    );
    assert_eq!(
        tables.carry_out(get_user_by_email(&String::from("Ann@example.com"))),
        Outcome::User(None)
    );
    assert_eq!(
        tables.carry_out(get_user_by_email(&String::from("carl@example.com"))),
        Outcome::User(None)
    );
}

#[test]
fn get_user_profile_finds_the_profile_of_a_stored_user() {
    let mut tables = ann_and_bob();
    assert_eq!(
        tables.carry_out(get_user_profile(id(2))),
        Outcome::Profile(Some(profile(20, 2, "Bob")))
    );
    assert_eq!(tables.asked, vec![Request::FindUser(id(2)), Request::FindProfileOf(id(2))]);
}

#[test]
fn get_user_profile_does_not_ask_for_the_profile_of_an_absent_user() {
    let mut tables = Tables::holding(vec![user(1, "ann")], vec![profile(30, 3, "Orphan")]);
    assert_eq!(tables.carry_out(get_user_profile(id(3))), Outcome::Profile(None));
    assert_eq!(tables.asked, vec![Request::FindUser(id(3))]);
}

#[test]
fn get_user_profile_finds_nothing_for_a_user_without_profile() {
    let mut tables = Tables::holding(vec![user(1, "ann")], vec![]);
    assert_eq!(tables.carry_out(get_user_profile(id(1))), Outcome::Profile(None));
    assert_eq!(tables.asked, vec![Request::FindUser(id(1)), Request::FindProfileOf(id(1))]);
}

#[test]
fn verify_new_email_refuses_text_that_is_no_address() {
    let mut tables = ann_and_bob();
    assert_eq!(
        tables.carry_out(verify_new_email(String::from("not-an-email"))),
        Outcome::Flag(false)
    );
    assert_eq!(tables.asked, vec![Request::FindUserByEmail(String::from("not-an-email"))]);
}

#[test]
fn verify_new_email_accepts_an_address_that_no_user_has() {
    let mut tables = ann_and_bob();
    assert_eq!(
        tables.carry_out(verify_new_email(String::from("new@example.com"))),
        Outcome::Flag(true)
    );
    assert_eq!(tables.users, ann_and_bob().users);
}

#[test]
fn verify_new_email_refuses_an_address_that_a_user_has() {
    let mut tables = ann_and_bob();
    tables.users.push(User { email: String::from("new@example.com"), ..user(3, "carl") });
    assert_eq!(
        tables.carry_out(verify_new_email(String::from("new@example.com"))),
        Outcome::Flag(false)
    );
}

#[test]
fn verify_new_email_compares_emails_as_they_are_written() {
    let mut tables = ann_and_bob();
    tables.users.push(User { email: String::from("New@example.com"), ..user(3, "carl") });
    assert_eq!(
        tables.carry_out(verify_new_email(String::from("new@example.com"))),
        Outcome::Flag(true)
    );
}

#[test]
fn verify_new_email_takes_a_failed_query_for_no_user() {
    let mut tables = ann_and_bob();
    tables.failing = vec![0];
    assert_eq!(
        tables.carry_out(verify_new_email(String::from("ann@example.com"))),
        Outcome::Flag(true)
    );
}

#[test]
fn create_profile_for_an_absent_user_inserts_nothing() {
    let mut tables = ann_and_bob();
    assert_eq!(
        tables.carry_out(create_profile(id(3), new_profile(Some(id(1))))),
        Outcome::Flag(false)
    );
    assert_eq!(tables.asked, vec![Request::FindUser(id(3))]);
    assert_eq!(tables.profiles, ann_and_bob().profiles);
    assert_eq!(tables.users, ann_and_bob().users);
}

#[test]
fn create_profile_stores_the_user_as_owner_whatever_the_data_names() {
    for named in [None, Some(id(1)), Some(id(2)), Some(id(77))] {
        let mut tables = ann_and_bob();
        assert_eq!(tables.carry_out(create_profile(id(2), new_profile(named))), Outcome::Flag(true));
        assert_eq!(tables.profiles.len(), 3);
        assert_eq!(tables.profiles[..2], ann_and_bob().profiles[..]);
        let stored = &tables.profiles[2];
        assert_eq!(stored.user_id, Some(id(2)));
        assert_eq!(stored.display_name, "New");
        assert_eq!(stored.bio, "bio");
        assert_eq!(tables.users, ann_and_bob().users);
    }
}

#[test]
fn create_profile_twice_stores_two_profiles() {
    let mut tables = Tables::holding(vec![user(1, "ann")], vec![]);
    assert_eq!(tables.carry_out(create_profile(id(1), new_profile(None))), Outcome::Flag(true));
    assert_eq!(tables.carry_out(create_profile(id(1), new_profile(None))), Outcome::Flag(true));
    assert_eq!(tables.profiles.len(), 2);
    assert_eq!(tables.profiles[0].user_id, Some(id(1)));
    assert_eq!(tables.profiles[1].user_id, Some(id(1)));
    assert_ne!(tables.profiles[0].profile_id, tables.profiles[1].profile_id);
}

#[test]
fn create_profile_reports_a_refused_insert() {
    let mut tables = ann_and_bob();
    tables.failing = vec![1];
    assert_eq!(tables.carry_out(create_profile(id(1), new_profile(None))), Outcome::Flag(false));
    assert_eq!(tables.profiles, ann_and_bob().profiles);
}

#[test]
fn update_user_stores_a_hash_in_place_of_the_password() {
    let mut tables = ann_and_bob();
    let before = Utc::now().naive_utc();
    let payload = UpdateUser { password: Some(String::from("secret")), ..no_change_of_user() };
    assert_eq!(tables.carry_out(update_user(id(1), payload)), Outcome::Flag(true));
    let after = Utc::now().naive_utc();

    let stored = &tables.users[0];
    assert_ne!(stored.password, "secret");
    assert_ne!(stored.password, user(1, "ann").password);
    assert!(bcrypt::verify("secret", &stored.password).unwrap());
    assert!(stored.changed_password_at > user(1, "ann").changed_password_at);
    assert!(before <= stored.changed_password_at && stored.changed_password_at <= after);
    assert!(stored.changed_password_at <= stored.updated_at && stored.updated_at <= after);
    assert_eq!(stored.user_id, id(1));
    assert_eq!(stored.username, "ann");
    assert_eq!(stored.email, "ann@example.com");
    assert_eq!(tables.users[1], user(2, "bob"));
    assert_eq!(tables.profiles, ann_and_bob().profiles);
}

#[test]
fn update_user_without_password_keeps_the_time_of_its_change() {
    let mut tables = ann_and_bob();
    let before = Utc::now().naive_utc();
    let payload = UpdateUser { username: Some(String::from("x")), ..no_change_of_user() };
    assert_eq!(tables.carry_out(update_user(id(1), payload)), Outcome::Flag(true));
    let after = Utc::now().naive_utc();

    let stored = &tables.users[0];
    assert_eq!(stored.username, "x");
    assert_eq!(stored.password, user(1, "ann").password);
    assert_eq!(stored.changed_password_at, user(1, "ann").changed_password_at);
    assert!(stored.updated_at > user(1, "ann").updated_at);
    assert!(before <= stored.updated_at && stored.updated_at <= after);
    assert_eq!(tables.users[1], user(2, "bob"));
}

#[test]
fn update_user_without_password_does_not_store_a_given_time_of_change() {
    let mut tables = ann_and_bob();
    let payload = UpdateUser {
        username: Some(String::from("x")),
        changed_password_at: Some(at(999)),
        ..no_change_of_user()
    };
    assert_eq!(tables.carry_out(update_user(id(1), payload)), Outcome::Flag(true));
    let stored = &tables.users[0];
    assert_eq!(stored.username, "x");
    assert_eq!(stored.changed_password_at, user(1, "ann").changed_password_at);
    assert_eq!(stored.password, user(1, "ann").password);
}

#[test]
fn update_user_of_an_absent_user_writes_nothing() {
    let mut tables = ann_and_bob();
    let payload = UpdateUser { username: Some(String::from("x")), ..no_change_of_user() };
    assert_eq!(tables.carry_out(update_user(id(3), payload)), Outcome::Flag(false));
    assert_eq!(tables.asked, vec![Request::FindUser(id(3))]);
    assert_eq!(tables.users, ann_and_bob().users);
}

#[test]
fn update_user_reports_a_refused_update() {
    let mut tables = ann_and_bob();
    tables.failing = vec![1];
    let payload = UpdateUser { username: Some(String::from("x")), ..no_change_of_user() };
    assert_eq!(tables.carry_out(update_user(id(1), payload)), Outcome::Flag(false));
    assert_eq!(tables.users, ann_and_bob().users);
}

#[test]
fn update_profile_changes_the_named_columns_and_the_time() {
    let mut tables = ann_and_bob();
    let before = Utc::now().naive_utc();
    let payload = UpdateProfileUser { bio: Some(String::from("x")), ..no_change_of_profile() };
    assert_eq!(tables.carry_out(update_profile(id(1), payload)), Outcome::Flag(true));
    let after = Utc::now().naive_utc();

    let stored = &tables.profiles[0];
    assert_eq!(stored.profile_id, id(10));
    assert_eq!(stored.user_id, Some(id(1)));
    assert_eq!(stored.display_name, "Ann");
    assert_eq!(stored.bio, "x");
    assert!(before <= stored.updated_at && stored.updated_at <= after);
    assert_eq!(tables.profiles[1], profile(20, 2, "Bob"));
    assert_eq!(
        tables.asked[..2],
        [Request::FindUser(id(1)), Request::FindProfileOf(id(1))]
    );
}

#[test]
fn update_profile_without_user_or_profile_writes_nothing() {
    let mut tables = Tables::holding(vec![user(1, "ann")], vec![profile(30, 3, "Orphan")]);
    let payload = UpdateProfileUser { bio: Some(String::from("x")), ..no_change_of_profile() };
    assert_eq!(tables.carry_out(update_profile(id(3), payload.clone())), Outcome::Flag(false));
    assert_eq!(tables.carry_out(update_profile(id(1), payload)), Outcome::Flag(false));
    assert_eq!(tables.profiles, vec![profile(30, 3, "Orphan")]);
    assert_eq!(
        tables.asked,
        vec![Request::FindUser(id(3)), Request::FindUser(id(1)), Request::FindProfileOf(id(1))]
    );
}

#[test]
fn update_profile_with_empty_payload_twice_only_moves_the_time() {
    let mut tables = ann_and_bob();
    assert_eq!(tables.carry_out(update_profile(id(1), no_change_of_profile())), Outcome::Flag(true));
    let once = tables.profiles.clone();
    assert_eq!(tables.carry_out(update_profile(id(1), no_change_of_profile())), Outcome::Flag(true));
    let twice = tables.profiles.clone();

    assert!(once[0].updated_at > profile(10, 1, "Ann").updated_at);
    assert!(twice[0].updated_at >= once[0].updated_at);
    assert_eq!(once[0], ProfileUser { updated_at: once[0].updated_at, ..profile(10, 1, "Ann") });
    assert_eq!(twice[0], ProfileUser { updated_at: twice[0].updated_at, ..once[0].clone() });
    assert_eq!(once[1], profile(20, 2, "Bob"));
    assert_eq!(twice[1], profile(20, 2, "Bob"));
    assert_eq!(tables.users, ann_and_bob().users);
}

#[test]
fn delete_user_with_profile_removes_both_rows() {
    let mut tables = ann_and_bob();
    assert_eq!(tables.carry_out(delete_user_with_profile(id(1))), Outcome::Flag(true));
    assert_eq!(tables.users, vec![user(2, "bob")]);
    assert_eq!(tables.profiles, vec![profile(20, 2, "Bob")]);
    assert_eq!(
        tables.asked,
        vec![
            Request::FindUser(id(1)),
            Request::FindUser(id(1)),
            Request::FindProfileOf(id(1)),
            Request::DeleteUserAndProfile(id(1), Some(id(10))),
        ]
    );
    assert_eq!(tables.carry_out(get_user(id(1))), Outcome::User(None));
    assert_eq!(tables.carry_out(get_user_profile(id(1))), Outcome::Profile(None));
}

#[test]
fn delete_user_with_profile_of_an_absent_user_changes_nothing() {
    let mut tables = ann_and_bob();
    tables.profiles.push(profile(30, 3, "Orphan"));
    let rows = tables.profiles.clone();
    assert_eq!(tables.carry_out(delete_user_with_profile(id(3))), Outcome::Flag(false));
    assert_eq!(tables.users, ann_and_bob().users);
    assert_eq!(tables.profiles, rows);
    assert_eq!(tables.asked, vec![Request::FindUser(id(3)), Request::FindUser(id(3))]);
}

#[test]
fn delete_user_with_profile_succeeds_for_a_user_without_profile() {
    let mut tables = Tables::holding(vec![user(1, "ann")], vec![profile(20, 2, "Bob")]);
    assert_eq!(tables.carry_out(delete_user_with_profile(id(1))), Outcome::Flag(true));
    assert_eq!(tables.users, vec![]);
    assert_eq!(tables.profiles, vec![profile(20, 2, "Bob")]);
    assert_eq!(tables.asked[3..], [Request::DeleteUserAndProfile(id(1), None)]);
}

#[test]
fn delete_user_with_profile_fails_when_the_user_is_not_deleted() {
    let mut tables = ann_and_bob();
    tables.failing = vec![3];
    assert_eq!(
        tables.carry_out(delete_user_with_profile(id(1))),
        Outcome::Failed(Failure::Storage)
    );
    assert_eq!(tables.users, ann_and_bob().users);
    assert_eq!(tables.profiles, ann_and_bob().profiles);
}

#[test]
fn delete_user_with_profile_keeps_both_rows_when_the_profile_is_not_deleted() {
    let mut tables = ann_and_bob();
    tables.failing = vec![3];
    tables.failing_at_profile = true;
    assert_eq!(tables.carry_out(delete_user_with_profile(id(1))), Outcome::Flag(false));
    assert_eq!(tables.users, ann_and_bob().users);
    assert_eq!(tables.profiles, ann_and_bob().profiles);
    assert_eq!(tables.carry_out(get_user(id(1))), Outcome::User(Some(user(1, "ann"))));
    assert_eq!(
        tables.carry_out(get_user_profile(id(1))),
        Outcome::Profile(Some(profile(10, 1, "Ann")))
    );
}

#[test]
fn delete_user_with_profile_removes_one_profile_of_several() {
    let mut tables =
        Tables::holding(vec![user(1, "ann")], vec![profile(10, 1, "Ann"), profile(11, 1, "Ann")]);
    assert_eq!(tables.carry_out(delete_user_with_profile(id(1))), Outcome::Flag(true));
    assert_eq!(tables.users, vec![]);
    assert_eq!(tables.profiles, vec![profile(11, 1, "Ann")]);
}

#[test]
fn no_operation_asks_more_than_four_times() {
    let mut tables = ann_and_bob();
    tables.carry_out(delete_user_with_profile(id(1)));
    assert_eq!(tables.asked.len(), 4);
    let mut tables = ann_and_bob();
    tables.carry_out(update_profile(id(1), no_change_of_profile()));
    assert_eq!(tables.asked.len(), 3);
    let mut tables = ann_and_bob();
    tables.carry_out(create_profile(id(1), new_profile(None)));
    assert_eq!(tables.asked.len(), 2);
}
