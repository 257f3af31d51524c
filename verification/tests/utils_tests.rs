use calby_docs::utils::hash_string;

#[test]
fn hash_of_user_with_salt() {
    assert_eq!(
        hash_string("user1".to_string(), "salt".to_string()),
        "1f93df1e8eadd31cede274827dc0db5bb07ab3b8437e192501809cfb85abda71"
    );
}

#[test]
fn hash_of_non_ascii_user() {
    assert_eq!(
        hash_string("ключ".to_string(), "pepper".to_string()),
        "d7fec795a6aebafee8411a756bacc797858baff26a16bae951c57bfd72398ff9"
    );
}

#[test]
fn hash_has_sixty_four_hex_digits() {
    let h = hash_string(String::new(), String::new());
    assert_eq!(h.len(), 64);
    assert!(h.chars().all(|c| c.is_ascii_digit() || ('a'..='f').contains(&c)));
}

#[test]
fn salt_changes_hash() {
    assert_ne!(
        hash_string("user1".to_string(), "a".to_string()),
        hash_string("user1".to_string(), "b".to_string())
    );
}
