use kicks::guitarix::preset_entries;

#[test]
fn flattens_banks_in_order() {
    let banks = vec![
        ("Factory".to_string(), vec!["Clean".to_string(), "Lead".to_string()]),
        ("Empty".to_string(), vec![]),
        ("User".to_string(), vec!["Mine".to_string()]),
    ];
    let all = preset_entries(&banks);
    assert_eq!(all.len(), 3);
    assert_eq!((all[0].bank_name.as_str(), all[0].bank_index, all[0].name.as_str(), all[0].index), ("Factory", 0, "Clean", 0));
    assert_eq!((all[1].bank_name.as_str(), all[1].bank_index, all[1].name.as_str(), all[1].index), ("Factory", 0, "Lead", 1));
    assert_eq!((all[2].bank_name.as_str(), all[2].bank_index, all[2].name.as_str(), all[2].index), ("User", 2, "Mine", 0));
    assert!(preset_entries(&Vec::new()).is_empty());
}
