use cef::multimap::group_values;

fn pairs(ps: &[(&str, &str)]) -> Vec<(String, String)> {
    ps.iter().map(|(k, v)| (k.to_string(), v.to_string())).collect()
}

#[test]
fn groups_values_by_key_in_order() {
    let groups = group_values(&pairs(&[
        ("Accept", "text/html"),
        ("Cookie", "a=1"),
        ("Accept", "image/png"),
        ("Host", "example.com"),
        ("Cookie", "b=2"),
        ("Accept", "*/*"),
    ]));
    assert_eq!(
        groups,
        vec![
            ("Accept".to_string(), vec!["text/html".to_string(), "image/png".to_string(), "*/*".to_string()]),
            ("Cookie".to_string(), vec!["a=1".to_string(), "b=2".to_string()]),
            ("Host".to_string(), vec!["example.com".to_string()]),
        ]
    );
}

#[test]
fn empty_multimap_has_no_groups() {
    assert!(group_values(&Vec::new()).is_empty());
}

#[test]
fn repeated_pair_is_kept_twice() {
    let groups = group_values(&pairs(&[("k", "v"), ("k", "v"), ("", "")]));
    assert_eq!(groups.len(), 2);
    assert_eq!(groups[0].1, vec!["v".to_string(), "v".to_string()]);
    assert_eq!(groups[1], ("".to_string(), vec!["".to_string()]));
}
