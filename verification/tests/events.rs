use anchor_client::codec::{has_tag, starts_with, strip_prefix, tagged_body};
use anchor_client::events::{
    classify, decode_event, event_body, line_event, marked_text, parse_logs,
};
use anchor_client::{Address, ClientError, LogLine, Notification, Signature};

const TAG: [u8; 8] = [1, 2, 3, 4, 5, 6, 7, 8];
const ME: &str = "11111111111111111111111111111111";
const OTHER: &str = "TokenkegQfeZyiNwAJbNbGKPFXCWuBvf9Ss623VQ5DA";
const EVENT: &str = "Program data: AQIDBAUGBwgJCg==";

fn me() -> Address {
    Address::new([0; 32])
}

fn payloads(lines: &[String]) -> Vec<Vec<u8>> {
    let refs: Vec<&str> = lines.iter().map(|l| l.as_str()).collect();
    parse_logs(&notification(&refs), &TAG, &me()).into_iter().map(|e| e.payload).collect()
}

fn invoke(program: &str, depth: u8) -> String {
    format!("Program {} invoke [{}]", program, depth)
}

fn success(program: &str) -> String {
    format!("Program {} success", program)
}

fn line(text: &str) -> Vec<u8> {
    text.as_bytes().to_vec()
}

fn notification(lines: &[&str]) -> Notification {
    Notification {
        signature: Signature { bytes: [7; 64] },
        slot: 42,
        logs: lines.iter().map(|l| line(l)).collect(),
    }
}

#[test]
fn tag_is_matched_at_the_start_only() {
    assert!(has_tag(&vec![1, 2, 3, 4, 5, 6, 7, 8], &TAG));
    assert!(has_tag(&vec![1, 2, 3, 4, 5, 6, 7, 8, 0, 0], &TAG));
    assert!(!has_tag(&vec![0, 1, 2, 3, 4, 5, 6, 7, 8], &TAG));
    assert!(!has_tag(&vec![1, 2, 3, 4, 5, 6, 7], &TAG));
    assert!(!has_tag(&vec![], &TAG));
}

#[test]
fn tagged_body_strips_eight_bytes() {
    assert_eq!(tagged_body(&vec![1, 2, 3, 4, 5, 6, 7, 8, 9, 10], &TAG), Some(vec![9, 10]));
    assert_eq!(tagged_body(&vec![1, 2, 3, 4, 5, 6, 7, 8], &TAG), Some(vec![]));
    assert_eq!(tagged_body(&vec![0xFF, 0xFF], &TAG), None);
}

#[test]
fn marker_is_split_off() {
    assert_eq!(marked_text(&line("Program data: abc")), Some(line("abc")));
    assert_eq!(marked_text(&line("Program data: ")), Some(vec![]));
    assert_eq!(marked_text(&line("Program data:abc")), None);
    assert_eq!(marked_text(&line("Program log: abc")), Some(line("abc")));
    assert_eq!(marked_text(&line("Program log:")), None);
    assert_eq!(marked_text(&line("Program 1111 invoke [1]")), None);
    assert_eq!(marked_text(&line(" Program data: abc")), None);
    assert_eq!(marked_text(&line("")), None);
}

#[test]
fn event_body_needs_decoded_data_with_the_tag() {
    assert_eq!(event_body(Some(vec![1, 2, 3, 4, 5, 6, 7, 8, 9]), &TAG), Some(vec![9]));
    assert_eq!(event_body(Some(vec![8, 7, 6, 5, 4, 3, 2, 1, 9]), &TAG), None);
    assert_eq!(event_body(Some(vec![1, 2, 3]), &TAG), None);
    assert_eq!(event_body(None, &TAG), None);
}

#[test]
fn line_event_decodes_base64() {
    assert_eq!(line_event(&line("Program data: AQIDBAUGBwgJCg=="), &TAG), Some(vec![9, 10]));
    assert_eq!(line_event(&line("Program data: AQIDBAUGBwg="), &TAG), Some(vec![]));
    assert_eq!(line_event(&line("Program log: AQIDBAUGBwgJCg=="), &TAG), Some(vec![9, 10]));
}

#[test]
fn line_event_agrees_with_the_encoder() {
    let text = anchor_lang::__private::base64::encode([1u8, 2, 3, 4, 5, 6, 7, 8, 200, 0, 17]);
    let mut l = line("Program data: ");
    l.extend_from_slice(text.as_bytes());
    assert_eq!(line_event(&l, &TAG), Some(vec![200, 0, 17]));
}

#[test]
fn line_event_passes_over_what_is_no_event() {
    assert_eq!(line_event(&line("Program data: !!!not base64!!!"), &TAG), None);
    assert_eq!(line_event(&line("Program data: AQID"), &TAG), None);
    assert_eq!(line_event(&line("Program data: CAcGBQQDAgEJCg=="), &TAG), None);
    assert_eq!(line_event(&line("Program log: hello"), &TAG), None);
    assert_eq!(line_event(&line("Program consumed 200 of 1000 compute units"), &TAG), None);
    assert_eq!(line_event(&line("AQIDBAUGBwgJCg=="), &TAG), None);
}

#[test]
fn parse_logs_keeps_the_order_of_the_lines() {
    let n = notification(&[
        "Program 11111111111111111111111111111111 invoke [1]",
        "Program data: AQIDBAUGBwgJCg==",
        "Program log: hello",
        "Program data: CAcGBQQDAgEJCg==",
        "Program data: AQIDBAUGBwg=",
        "Program 11111111111111111111111111111111 consumed 200 of 1000 compute units",
        "Program 11111111111111111111111111111111 success",
    ]);
    let events = parse_logs(&n, &TAG, &me());
    assert_eq!(events.len(), 2);
    assert_eq!(events[0].payload, vec![9, 10]);
    assert_eq!(events[1].payload, Vec::<u8>::new());
    for e in &events {
        assert_eq!(e.context.slot, 42);
        assert_eq!(e.context.signature.bytes, [7u8; 64]);
    }
}

#[test]
fn parse_logs_of_an_empty_log_is_empty() {
    assert!(parse_logs(&notification(&[]), &TAG, &me()).is_empty());
}

#[test]
fn an_event_outside_any_program_is_passed_over() {
    assert!(payloads(&[EVENT.to_string()]).is_empty());
    assert!(payloads(&["some line".to_string(), EVENT.to_string()]).is_empty());
    assert!(payloads(&[invoke(ME, 1), success(ME), EVENT.to_string()]).is_empty());
}

#[test]
fn an_event_of_another_program_is_passed_over() {
    assert!(payloads(&[invoke(OTHER, 1), EVENT.to_string(), success(OTHER)]).is_empty());
}

#[test]
fn an_event_of_a_called_program_is_passed_over() {
    let got = payloads(&[
        invoke(ME, 1),
        invoke(OTHER, 2),
        EVENT.to_string(),
        success(OTHER),
        "Program data: AQIDBAUGBwg=".to_string(),
        success(ME),
    ]);
    assert_eq!(got, vec![Vec::<u8>::new()]);
}

#[test]
fn an_event_is_taken_where_the_program_is_called_by_another() {
    let got = payloads(&[
        invoke(OTHER, 1),
        EVENT.to_string(),
        invoke(ME, 2),
        EVENT.to_string(),
        success(ME),
        EVENT.to_string(),
        success(OTHER),
    ]);
    assert_eq!(got, vec![vec![9, 10]]);
}

#[test]
fn a_failed_program_returns_too() {
    let got = payloads(&[
        invoke(ME, 1),
        invoke(OTHER, 2),
        format!("Program {} failed: custom program error: 0x1", OTHER),
        EVENT.to_string(),
        format!("Program {} failed: custom program error: 0x1", ME),
        EVENT.to_string(),
    ]);
    assert_eq!(got, vec![vec![9, 10]]);
}

#[test]
fn the_next_instruction_of_the_transaction_starts_anew() {
    let got = payloads(&[
        invoke(OTHER, 1),
        success(OTHER),
        invoke(ME, 1),
        EVENT.to_string(),
        success(ME),
        invoke(OTHER, 1),
        EVENT.to_string(),
        success(OTHER),
    ]);
    assert_eq!(got, vec![vec![9, 10]]);
}

#[test]
fn lines_are_classified() {
    let of = |text: &str| classify(&line(text));
    assert!(matches!(of("Program log: hello"), LogLine::Marked));
    assert!(matches!(of("Program data: AQID"), LogLine::Marked));
    assert!(matches!(of("Program log: abc invoke [1]"), LogLine::Marked));
    match of("Program TokenkegQfeZyiNwAJbNbGKPFXCWuBvf9Ss623VQ5DA invoke [2]") {
        LogLine::Invoke(id) => assert_eq!(id, line(OTHER)),
        other => panic!("{:?}", other),
    }
    assert!(matches!(of("Program abc success"), LogLine::Exit));
    assert!(matches!(of("Program abc failed: out of funds"), LogLine::Exit));
    assert!(matches!(of("Program abc successful"), LogLine::Other));
    assert!(matches!(of("Program abc consumed 5 of 10 compute units"), LogLine::Other));
    assert!(matches!(of("Program failed to complete: oops"), LogLine::Other));
    assert!(matches!(of("Program abc"), LogLine::Other));
    assert!(matches!(of("Program "), LogLine::Other));
    assert!(matches!(of("Transfer: insufficient lamports"), LogLine::Other));
    assert!(matches!(of(""), LogLine::Other));
}

#[test]
fn prefixes_are_stripped() {
    assert!(starts_with(&vec![1, 2, 3], &[1, 2]));
    assert!(starts_with(&vec![1, 2, 3], &[]));
    assert!(!starts_with(&vec![1, 2, 3], &[2]));
    assert!(!starts_with(&vec![1], &[1, 2]));
    assert_eq!(strip_prefix(&vec![1, 2, 3], &[1, 2]), Some(vec![3]));
    assert_eq!(strip_prefix(&vec![1, 2, 3], &[]), Some(vec![1, 2, 3]));
    assert_eq!(strip_prefix(&vec![1, 2, 3], &[1, 3]), None);
}

#[test]
fn event_bodies_go_through_the_codec() {
    let n = notification(&[
        "Program 11111111111111111111111111111111 invoke [1]",
        "Program data: AQIDBAUGBwgJCg==",
        "Program data: AQIDBAUGBwg=",
    ]);
    let events = parse_logs(&n, &TAG, &me());
    let decode = |data: &Vec<u8>| {
        if data.len() == 2 {
            Some(u16::from_le_bytes([data[0], data[1]]))
        } else {
            None
        }
    };
    let (context, value) = decode_event(&events[0], &decode).unwrap();
    assert_eq!(value, 0x0a09);
    assert_eq!(context.slot, 42);
    assert_eq!(context.signature.bytes, [7u8; 64]);
    assert!(matches!(decode_event(&events[1], &decode), Err(ClientError::Decode)));
}
