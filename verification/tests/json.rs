use llama_core::error::LlamaCoreError;
use llama_core::json::{get_token_info_by_graph, token_info_from_value};
use llama_core::response::TokenInfo;

#[test]
fn token_counts_are_read_from_the_report() {
    assert_eq!(
        get_token_info_by_graph(b"{\"input_tokens\": 3, \"output_tokens\": 2}"),
        Ok(TokenInfo { prompt_tokens: 3, completion_tokens: 2 })
    );
    assert_eq!(
        get_token_info_by_graph(
            b" {\"output_tokens\":18446744073709551615,\"extra\":[1,2],\"input_tokens\":0} "
        ),
        Ok(TokenInfo { prompt_tokens: 0, completion_tokens: u64::MAX })
    );
}

#[test]
fn report_that_is_no_json_is_an_error() {
    for report in [&b""[..], b"{", b"input_tokens", b"{\"input_tokens\": 3,}", &[0xff, 0xfe]] {
        match get_token_info_by_graph(report) {
            Err(LlamaCoreError::Operation(message)) => {
                assert!(message.starts_with("Fail to deserialize token info: "), "{}", message);
                assert!(message.len() > "Fail to deserialize token info: ".len());
            }
            other => panic!("unexpected {:?}", other),
        }
    }
}

#[test]
fn missing_or_odd_prompt_count_is_an_error() {
    let expected =
        Err(LlamaCoreError::Operation("Fail to convert `input_tokens` to u64.".to_string()));
    for report in [
        &b"{\"output_tokens\": 2}"[..],
        b"{\"input_tokens\": -3, \"output_tokens\": 2}",
        b"{\"input_tokens\": 3.5, \"output_tokens\": 2}",
        b"{\"input_tokens\": \"3\", \"output_tokens\": 2}",
        b"{\"input_tokens\": null}",
        b"[3, 2]",
        b"3",
        b"{}",
    ] {
        assert_eq!(get_token_info_by_graph(report), expected);
    }
}

#[test]
fn missing_or_odd_completion_count_is_an_error() {
    let expected =
        Err(LlamaCoreError::Operation("Fail to convert `output_tokens` to u64.".to_string()));
    for report in [
        &b"{\"input_tokens\": 3}"[..],
        b"{\"input_tokens\": 3, \"output_tokens\": -1}",
        b"{\"input_tokens\": 3, \"output_tokens\": 18446744073709551616}",
        b"{\"input_tokens\": 3, \"output_tokens\": true}",
    ] {
        assert_eq!(get_token_info_by_graph(report), expected);
    }
}

#[test]
fn token_counts_are_read_from_a_parsed_report() {
    let report: serde_json::Value =
        serde_json::from_str("{\"input_tokens\": 200, \"output_tokens\": 40}").unwrap();
    assert_eq!(
        token_info_from_value(&report),
        Ok(TokenInfo { prompt_tokens: 200, completion_tokens: 40 })
    );
    let empty: serde_json::Value = serde_json::from_str("{}").unwrap();
    assert_eq!(
        token_info_from_value(&empty),
        Err(LlamaCoreError::Operation("Fail to convert `input_tokens` to u64.".to_string()))
    );
}
