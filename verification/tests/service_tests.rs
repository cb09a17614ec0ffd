use user_backend::controller::UserController;
use user_backend::errors::AppError;
use user_backend::repository::{MemoryRepository, UserRepositoryTrait};
use user_backend::services::UserService;
use user_backend::validation::SignUpUserDto;

fn payload(name: &str, email: &str, password: &str) -> SignUpUserDto {
    SignUpUserDto {
        name: Some(String::from(name)),
        email: Some(String::from(email)),
        password: Some(String::from(password)),
    }
}

#[test]
fn signup_succeeds_then_conflicts() {
    let mut service = UserService::new(MemoryRepository::new());
    let ann = payload("Ann", "ann@example.com", "secret1");

    let first = service.signup_user(ann.clone());
    let ack = first.ok().expect("fresh email must sign up");
    assert_eq!(ack.inserted_id.len(), 24);

    let second = service.signup_user(ann);
    match second.err().expect("second signup must fail") {
        AppError::Conflict(m) => assert_eq!(m, "email ann@example.com is taken"),
        _ => panic!("expected a conflict"),
    }
}

#[test]
fn conflict_maps_to_409_with_exact_body() {
    let mut service = UserService::new(MemoryRepository::new());
    let ann = payload("Ann", "ann@example.com", "secret1");
    service.signup_user(ann.clone()).ok().expect("first signup");
    let e = service.signup_user(ann).err().expect("conflict");
    let (status, body) = e.into_response();
    assert_eq!(status, 409);
    assert_eq!(body, "{\"error\":\"email ann@example.com is taken\"}");
}

#[test]
fn listing_grows_with_each_signup() {
    let mut service = UserService::new(MemoryRepository::new());
    let people = [
        ("Ann", "ann@example.com"),
        ("Ben", "ben@example.com"),
        ("Cas", "cas@example.com"),
    ];
    for (i, (name, email)) in people.iter().enumerate() {
        service
            .signup_user(payload(name, email, "secret1"))
            .ok()
            .expect("fresh email must sign up");
        let users = service.get_all_users().ok().expect("listing");
        assert_eq!(users.len(), i + 1);
    }
    let users = service.get_all_users().ok().expect("listing");
    let emails: Vec<&str> = users.iter().map(|u| u.email.as_str()).collect();
    assert_eq!(emails, vec!["ann@example.com", "ben@example.com", "cas@example.com"]);
    assert!(users.iter().all(|u| u.id.is_some()));
}

#[test]
fn get_by_email_absent_is_none_not_error() {
    let repo = MemoryRepository::new();
    let found = repo.get_user_by_email("nobody@example.com");
    assert!(matches!(found, Ok(None)));
}

#[test]
fn get_by_id_malformed_is_invalid_identifier() {
    let mut service = UserService::new(MemoryRepository::new());
    service
        .signup_user(payload("Ann", "ann@example.com", "secret1"))
        .ok()
        .expect("signup");
    let r = service.repository.get_user_by_id("not-a-well-formed-id");
    assert!(matches!(r, Err(AppError::InvalidIdentifier)));
    let r = service.repository.get_user_by_id("123");
    assert!(matches!(r, Err(AppError::InvalidIdentifier)));
}

#[test]
fn get_by_id_round_trip() {
    let mut repo = MemoryRepository::new();
    let ack = repo
        .create_user("Ann", "ann@example.com", "secret1")
        .ok()
        .expect("create");
    let found = repo
        .get_user_by_id(ack.inserted_id.as_str())
        .ok()
        .expect("lookup")
        .expect("present");
    assert_eq!(found.email, "ann@example.com");
    assert_eq!(found.id, Some(ack.inserted_id));
    let absent = repo
        .get_user_by_id("0123456789abcdef01234567")
        .ok()
        .expect("well-formed id");
    assert!(absent.is_none());
}

#[test]
fn update_rewrites_one_record() {
    let mut repo = MemoryRepository::new();
    let ack = repo.create_user("Ann", "ann@example.com", "secret1").ok().unwrap();
    let id = ack.inserted_id;
    let n = repo
        .update_user(id.as_str(), "Anne", "anne@example.com", "secret2")
        .ok()
        .expect("update");
    assert_eq!(n, 1);
    let found = repo.get_user_by_id(id.as_str()).ok().unwrap().expect("present");
    assert_eq!(found.name, "Anne");
    assert_eq!(found.email, "anne@example.com");
    assert_eq!(found.password, "secret2");
}

#[test]
fn update_unknown_id_touches_nothing() {
    let mut repo = MemoryRepository::new();
    repo.create_user("Ann", "ann@example.com", "secret1").ok().unwrap();
    let n = repo
        .update_user("ffffffffffffffffffffffff", "X", "x@example.com", "secret2")
        .ok()
        .expect("well-formed id");
    assert_eq!(n, 0);
    let users = repo.get_all_users().ok().unwrap();
    assert_eq!(users.len(), 1);
    assert_eq!(users[0].name, "Ann");
}

#[test]
fn delete_removes_one_record() {
    let mut repo = MemoryRepository::new();
    let ack = repo.create_user("Ann", "ann@example.com", "secret1").ok().unwrap();
    let n = repo.delete_user(ack.inserted_id.as_str()).ok().expect("delete");
    assert_eq!(n, 1);
    assert_eq!(repo.get_all_users().ok().unwrap().len(), 0);
    let again = repo.delete_user(ack.inserted_id.as_str()).ok().expect("delete");
    assert_eq!(again, 0);
}

#[test]
fn controller_signup_pipeline() {
    let mut service = UserService::new(MemoryRepository::new());
    let ok = UserController::signup(&mut service, payload("Ann", "ann@example.com", "secret1"));
    assert!(ok.is_ok());

    let bad = UserController::signup(
        &mut service,
        SignUpUserDto { name: Some(String::from("")), email: Some(String::from("bad")), password: Some(String::from("12")) },
    );
    let (status, body) = bad.err().expect("rejected").into_response();
    assert_eq!(status, 400);
    assert_eq!(
        body,
        "{\"errors\":{\"name\":[\"min value is 1\"],\"email\":[\"email is invalid\"],\"password\":[\"min value is 6\"]}}"
    );

    let users = UserController::all(&service).ok().expect("listing");
    assert_eq!(users.len(), 1);
}
