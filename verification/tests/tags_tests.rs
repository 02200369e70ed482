use realworld_rust_actix_web::tags::{decode_tag_list, encode_tag_list, tag_list_round_trip};

#[test]
fn round_trip_reads_back_sorted_ascending() {
    let written = vec!["a".to_string(), "b".to_string()];
    let stored = encode_tag_list(&written);
    assert_eq!(decode_tag_list(&stored), vec!["a".to_string(), "b".to_string()]);
}

#[test]
fn write_order_does_not_matter() {
    let forward = vec!["a".to_string(), "b".to_string()];
    let backward = vec!["b".to_string(), "a".to_string()];
    let read_forward = decode_tag_list(&encode_tag_list(&forward));
    let read_backward = decode_tag_list(&encode_tag_list(&backward));
    assert_eq!(read_forward, vec!["a".to_string(), "b".to_string()]);
    assert_eq!(read_backward, vec!["a".to_string(), "b".to_string()]);
    assert_eq!(read_forward, read_backward);
}

#[test]
fn round_trip_helper_sorts() {
    let r = tag_list_round_trip(vec!["rust".to_string(), "actix".to_string(), "web".to_string()]);
    assert_eq!(
        r,
        vec!["actix".to_string(), "rust".to_string(), "web".to_string()]
    );
}

#[test]
fn encoded_form_is_a_json_array() {
    let stored = encode_tag_list(&vec!["a".to_string(), "b".to_string()]);
    assert_eq!(stored, "[\"a\",\"b\"]");
    let empty = encode_tag_list(&Vec::new());
    assert_eq!(empty, "[]");
}

#[test]
fn unparsable_column_reads_as_empty_list() {
    assert!(decode_tag_list("not json at all").is_empty());
    assert!(decode_tag_list("").is_empty());
    assert!(decode_tag_list("{\"a\": 1}").is_empty());
    assert!(decode_tag_list("[1, 2]").is_empty());
}

#[test]
fn empty_list_round_trips() {
    assert!(decode_tag_list(&encode_tag_list(&Vec::new())).is_empty());
    assert!(decode_tag_list("[]").is_empty());
}

#[test]
fn duplicate_tags_are_kept_and_sorted() {
    let written = vec!["b".to_string(), "a".to_string(), "b".to_string()];
    let read = decode_tag_list(&encode_tag_list(&written));
    assert_eq!(read, vec!["a".to_string(), "b".to_string(), "b".to_string()]);
}
