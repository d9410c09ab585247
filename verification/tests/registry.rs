use user_registry::registry::UserService;

#[test]
fn test_create_user() {
    let mut service = UserService::new("sqlite://test.db".to_string());
    let user = service.create_user("Alice".to_string(), 30, None);
    assert_eq!(user.name, "Alice");
}

#[test]
fn end_to_end_scenario() {
    let mut service = UserService::new("memory://test".to_string());
    let user = service.create_user("Alice".to_string(), 30, None);
    assert_eq!(user.name, "Alice");
    assert_eq!(user.age, 30);
    assert_eq!(user.email, None);
    assert!(!user.id.is_empty());
    let fetched = service.get_user(&user.id).expect("created record must be present");
    assert_eq!(fetched.id, user.id);
    assert_eq!(fetched.name, user.name);
    assert_eq!(fetched.age, user.age);
    assert_eq!(fetched.email, user.email);
    assert_eq!(fetched.created_at, user.created_at);
    assert!(service.get_user("nonexistent-id").is_none());
}

#[test]
fn created_ids_are_pairwise_distinct() {
    let mut service = UserService::new("memory://ids".to_string());
    let mut ids: Vec<String> = Vec::new();
    for i in 0..10u32 {
        let user = service.create_user(format!("user-{}", i), i, None);
        ids.push(user.id);
    }
    for i in 0..ids.len() {
        for j in (i + 1)..ids.len() {
            assert_ne!(ids[i], ids[j]);
        }
    }
}

#[test]
fn round_trip_preserves_all_fields() {
    let mut service = UserService::new("memory://roundtrip".to_string());
    let user = service.create_user(
        "Bob".to_string(),
        0,
        Some("bob@example.com".to_string()),
    );
    assert_eq!(user.name, "Bob");
    assert_eq!(user.age, 0);
    assert_eq!(user.email, Some("bob@example.com".to_string()));
    let fetched = service.get_user(&user.id).expect("created record must be present");
    assert_eq!(fetched.id, user.id);
    assert_eq!(fetched.name, user.name);
    assert_eq!(fetched.age, user.age);
    assert_eq!(fetched.email, user.email);
    assert_eq!(fetched.created_at, user.created_at);
}

#[test]
fn unknown_id_is_absent() {
    let mut service = UserService::new("memory://absent".to_string());
    assert!(service.get_user("never-issued").is_none());
    let user = service.create_user("Carol".to_string(), 41, None);
    assert!(service.get_user("never-issued").is_none());
    assert_ne!(user.id, "never-issued");
}

#[test]
fn create_does_not_alter_earlier_records() {
    let mut service = UserService::new("memory://interference".to_string());
    let first = service.create_user("Dora".to_string(), 7, Some("d@example.org".to_string()));
    let _second = service.create_user("Ed".to_string(), 8, None);
    let _third = service.create_user("Flo".to_string(), 9, Some("f@example.org".to_string()));
    let fetched = service.get_user(&first.id).expect("earlier record must remain present");
    assert_eq!(fetched.id, first.id);
    assert_eq!(fetched.name, "Dora");
    assert_eq!(fetched.age, 7);
    assert_eq!(fetched.email, Some("d@example.org".to_string()));
    assert_eq!(fetched.created_at, first.created_at);
}

#[test]
fn timestamps_never_decrease() {
    let mut service = UserService::new("memory://time".to_string());
    let mut previous: Option<i64> = None;
    for i in 0..5u32 {
        let user = service.create_user(format!("t-{}", i), i, None);
        if let Some(p) = previous {
            assert!(user.created_at >= p);
        }
        previous = Some(user.created_at);
    }
}

#[test]
fn generated_id_is_hyphenated_uuid_length() {
    let mut service = UserService::new("memory://idlen".to_string());
    let user = service.create_user("Gil".to_string(), 3, None);
    assert_eq!(user.id.chars().count(), 36);
}

#[test]
fn empty_name_and_zero_age_are_accepted() {
    let mut service = UserService::new("memory://permissive".to_string());
    let user = service.create_user(String::new(), 0, Some(String::new()));
    let fetched = service.get_user(&user.id).expect("record must be present");
    assert_eq!(fetched.name, "");
    assert_eq!(fetched.age, 0);
    assert_eq!(fetched.email, Some(String::new()));
}
