use std::str::FromStr;

use uuid::Uuid;
use wara_backend::queues::{select_queue, QueueName};
use wara_backend::users::{Role, User, UserRecord, UserStatus};

#[test]
fn role_names_round_trip_and_default_to_viewer() {
    for role in [Role::Admin, Role::Operator, Role::Viewer] {
        assert_eq!(Role::from(role.as_str()), role);
    }
    assert_eq!(Role::Admin.as_str(), "admin");
    assert_eq!(Role::from("root"), Role::Viewer);
    assert_eq!(Role::from("Admin"), Role::Viewer);
}

#[test]
fn status_names_round_trip_and_default_to_invited() {
    for status in [UserStatus::Invited, UserStatus::Active] {
        assert_eq!(UserStatus::from(status.as_str()), status);
    }
    assert_eq!(UserStatus::Active.as_str(), "active");
    assert_eq!(UserStatus::from("disabled"), UserStatus::Invited);
}

#[test]
fn user_record_presents_without_password_hash() {
    let id = Uuid::from_u128(7);
    let user = User::from(UserRecord {
        id,
        email: "ops@wara.local".to_string(),
        name: "Ops".to_string(),
        role: "operator".to_string(),
        status: "active".to_string(),
        password_hash: "argon2-hash".to_string(),
    });
    assert_eq!(user.id, id);
    assert_eq!(user.email, "ops@wara.local");
    assert_eq!(user.name, "Ops");
    assert_eq!(user.role, Role::Operator);
    assert_eq!(user.status, UserStatus::Active);
}

#[test]
fn queue_names_round_trip() {
    for queue in [QueueName::High, QueueName::Default, QueueName::Heavy] {
        assert_eq!(QueueName::parse(queue.as_task_queue()), Ok(queue));
        assert_eq!(QueueName::from_str(queue.as_task_queue()), Ok(queue));
    }
    assert_eq!(QueueName::Heavy.as_task_queue(), "heavy");
}

#[test]
fn unknown_queue_is_refused() {
    assert_eq!(QueueName::parse("low"), Err("unsupported queue"));
    assert_eq!("".parse::<QueueName>(), Err("unsupported queue"));
}

#[test]
fn worker_queue_selection() {
    assert_eq!(select_queue(None), Ok(QueueName::Default));
    assert_eq!(select_queue(Some("heavy")), Ok(QueueName::Heavy));
    assert_eq!(select_queue(Some("urgent")), Err("unsupported queue"));
}
