use crd_api::text::join;

#[test]
fn parts_are_joined_in_order_with_the_separator_between() {
    let parts = vec!["a".to_string(), "".to_string(), "本".to_string()];
    assert_eq!(join(&parts, ", "), "a, , 本");
    assert_eq!(join(&parts, ""), "a本");
    assert_eq!(join(&parts[..1].to_vec(), "--"), "a");
    assert_eq!(join(&vec![], "--"), "");
}
