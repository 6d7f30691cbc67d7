use combine_strings::{combine_via_collect, combine_via_fold, combine_via_rayon, random_string, tag};

fn strings(items: &[&str]) -> Vec<String> {
    items.iter().map(|s| s.to_string()).collect()
}

fn is_alnum(s: &str) -> bool {
    s.chars().all(|c| c.is_ascii_digit() || c.is_ascii_uppercase() || c.is_ascii_lowercase())
}

#[test]
fn implementations() {
    let len = 8;
    let items = (0..10).map(|_| random_string(len)).collect();
    let actual_0 = combine_via_fold(&items);
    let actual_1 = combine_via_collect(&items);
    let actual_2 = combine_via_rayon(&items);
    assert_eq!(actual_0, actual_1, "combine_via_fold and combine_via_collect should be the same");
    assert_eq!(actual_0, actual_2, "combine_via_fold and combine_via_rayon should be the same");
}

#[test]
fn order_is_preserved() {
    let items = strings(&["a", "b", "c"]);
    let expected = "<p>a</p>\n<p>b</p>\n<p>c</p>\n";
    assert_eq!(combine_via_fold(&items), expected);
    assert_eq!(combine_via_collect(&items), expected);
    assert_eq!(combine_via_rayon(&items), expected);
}

#[test]
fn empty_input_gives_empty_output() {
    let items: Vec<String> = Vec::new();
    assert_eq!(combine_via_fold(&items), "");
    assert_eq!(combine_via_collect(&items), "");
    assert_eq!(combine_via_rayon(&items), "");
}

#[test]
fn single_item() {
    let items = strings(&["x"]);
    assert_eq!(combine_via_fold(&items), "<p>x</p>\n");
    assert_eq!(combine_via_collect(&items), "<p>x</p>\n");
    assert_eq!(combine_via_rayon(&items), "<p>x</p>\n");
}

#[test]
fn empty_items_still_get_wrapped() {
    let items = strings(&["", "q", ""]);
    let expected = "<p></p>\n<p>q</p>\n<p></p>\n";
    assert_eq!(combine_via_fold(&items), expected);
    assert_eq!(combine_via_collect(&items), expected);
    assert_eq!(combine_via_rayon(&items), expected);
}

#[test]
fn tag_wraps_one_item() {
    assert_eq!(tag(&"héllo".to_string()), "<p>héllo</p>\n");
    assert_eq!(tag(&String::new()), "<p></p>\n");
}

#[test]
fn many_items_agree_and_keep_order() {
    let items: Vec<String> = (0..5000).map(|i| format!("item{i}")).collect();
    let mut expected = String::new();
    for item in &items {
        expected.push_str("<p>");
        expected.push_str(item);
        expected.push_str("</p>\n");
    }
    assert_eq!(combine_via_fold(&items), expected);
    assert_eq!(combine_via_collect(&items), expected);
    assert_eq!(combine_via_rayon(&items), expected);
}

#[test]
fn random_items_agree() {
    let items: Vec<String> = (0..2000).map(|i| random_string(i % 13)).collect();
    let fold = combine_via_fold(&items);
    assert_eq!(fold, combine_via_collect(&items));
    assert_eq!(fold, combine_via_rayon(&items));
}

#[test]
fn random_string_has_length_and_charset() {
    let s = random_string(8);
    assert_eq!(s.chars().count(), 8);
    assert!(is_alnum(&s));
    let long = random_string(1000);
    assert_eq!(long.len(), 1000);
    assert!(is_alnum(&long));
}

#[test]
fn random_string_of_zero_is_empty() {
    assert_eq!(random_string(0), "");
}

#[test]
fn repeated_random_strings_keep_the_contract() {
    for _ in 0..100 {
        let s = random_string(8);
        assert_eq!(s.chars().count(), 8);
        assert!(is_alnum(&s));
    }
}
