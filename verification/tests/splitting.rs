use api::splitted_data_at;

#[test]
fn test_function_splitting_data_at() {
    let data = "anime:1234".to_string();
    let result: String = splitted_data_at(data, ":");
    assert_eq!(result, "1234");
}

#[test]
fn splitting_takes_the_first_occurrence() {
    assert_eq!(splitted_data_at("user:abc:def".to_string(), ":"), "abc:def");
}

#[test]
fn splitting_skips_only_the_first_character_of_the_separator() {
    assert_eq!(splitted_data_at("a::b".to_string(), "::"), ":b");
}

#[test]
fn splitting_at_the_end_gives_nothing() {
    assert_eq!(splitted_data_at("anime:".to_string(), ":"), "");
}

#[test]
fn splitting_with_non_ascii_text_after_the_separator() {
    assert_eq!(splitted_data_at("名前:値".to_string(), ":"), "値");
}
