use calby_docs::schema::File;

fn row(id: i32, file_id: u128, owner: &str, shared: &[&str]) -> File {
    File {
        id,
        file_id,
        file_name: format!("f{}", id),
        file_url: format!("u{}", id),
        user_token: owner.to_string(),
        room_id: "r".to_string(),
        share_users: shared.iter().map(|s| s.to_string()).collect(),
    }
}

#[test]
fn owner_gets_file() {
    let rows = vec![row(1, 10, "alice", &[]), row(2, 20, "bob", &[])];
    let f = File::get_file(rows, "bob".to_string(), 20).unwrap();
    assert_eq!(f.id, 2);
}

#[test]
fn shared_user_gets_file() {
    let rows = vec![row(1, 10, "alice", &["carol", "dave"])];
    let f = File::get_file(rows, "dave".to_string(), 10).unwrap();
    assert_eq!(f.id, 1);
}

#[test]
fn stranger_gets_nothing() {
    let rows = vec![row(1, 10, "alice", &["carol"])];
    assert!(File::get_file(rows, "eve".to_string(), 10).is_none());
}

#[test]
fn wrong_id_gets_nothing() {
    let rows = vec![row(1, 10, "alice", &[])];
    assert!(File::get_file(rows, "alice".to_string(), 11).is_none());
}

#[test]
fn first_accessible_row_wins() {
    let rows = vec![
        row(1, 10, "bob", &[]),
        row(2, 10, "alice", &[]),
        row(3, 10, "zed", &["alice"]),
    ];
    let f = File::get_file(rows, "alice".to_string(), 10).unwrap();
    assert_eq!(f.id, 2);
    assert!(File::get_file(Vec::new(), "alice".to_string(), 10).is_none());
}
