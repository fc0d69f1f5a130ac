use ibcrm::ordering::newest_first;

#[test]
fn conversations_newest_first() {
    let keys = vec![
        Some("2024-01-01 10:00:00".to_string()),
        None,
        Some("2024-03-01 09:00:00".to_string()),
        Some("2024-01-01 10:00:00".to_string()),
    ];
    assert_eq!(newest_first(&keys), vec![2, 0, 3, 1]);
    assert!(newest_first(&vec![]).is_empty());
    assert_eq!(newest_first(&vec![None, None]), vec![0, 1]);
}
