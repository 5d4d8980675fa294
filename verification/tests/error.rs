use crd_api::error::{ApiError, ApiErrors, DecodeFailure, Error, TransportFailure};

fn entry(code: &str, field: &str, message: &str) -> ApiError {
    ApiError {
        err_code: code.to_string(),
        err_fld: field.to_string(),
        err_msg: message.to_string(),
    }
}

#[test]
fn an_entry_reads_as_its_message() {
    let e = entry("0101", "", "検索必須項目が指定されていません。");
    assert_eq!(e.to_string(), "検索必須項目が指定されていません。");
    assert_eq!(e.err_code, "0101");
    assert_eq!(e.err_fld, "");
}

#[test]
fn a_list_reads_as_its_messages_joined() {
    let list = ApiErrors(vec![
        entry("0101", "", "検索必須項目が指定されていません。"),
        entry("0503", "ndc", "【ndc】に使用できない値が指定されています。"),
    ]);
    assert_eq!(list.0.len(), 2);
    assert_eq!(
        list.to_string(),
        "検索必須項目が指定されていません。, 【ndc】に使用できない値が指定されています。"
    );
}

#[test]
fn a_list_of_one_has_no_separator() {
    let list = ApiErrors(vec![entry("0101", "", "only")]);
    assert_eq!(list.to_string(), "only");
}

#[test]
fn an_empty_list_reads_as_nothing() {
    let list = ApiErrors(vec![]);
    assert_eq!(list.to_string(), "");
}

#[test]
fn each_cause_becomes_its_own_error() {
    let transport = TransportFailure { reason: "connection refused".to_string() };
    assert_eq!(Error::from(transport.clone()), Error::Request(transport));
    let decode = DecodeFailure { reason: "missing field `hit_num`".to_string() };
    assert_eq!(Error::from(decode.clone()), Error::De(decode));
    let list = ApiErrors(vec![entry("0101", "", "m")]);
    assert_eq!(Error::from(list.clone()), Error::Api(list));
}
