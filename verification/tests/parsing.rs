use pop3::EmailMetadata;
use pop3::POP3List;
use pop3::POP3Stat;
use pop3::Pop3Error;
use pop3::extract_timestamp;

#[test]
fn greeting_timestamp_extracted() {
    let token = extract_timestamp("+OK POP3 ready <1896.697170952@dbc.mtview.ca.us>\r\n");
    assert_eq!(token, "<1896.697170952@dbc.mtview.ca.us>");
}

#[test]
fn greeting_without_token_gives_empty() {
    assert_eq!(extract_timestamp("+OK POP3 server ready\r\n"), "");
}

#[test]
fn timestamp_must_close_the_line() {
    // the bracketed token counts only when the `>` sits right before CRLF
    assert_eq!(extract_timestamp("+OK <abc> more text\r\n"), "");
}

#[test]
fn timestamp_starts_at_first_bracket() {
    assert_eq!(extract_timestamp("+OK a <x<y>z>\r\n"), "<x<y>z>");
}

#[test]
fn timestamp_needs_terminator() {
    assert_eq!(extract_timestamp("+OK ready <abc>"), "");
}

#[test]
fn stat_parse_two_numbers() {
    let stat = POP3Stat::parse("2 320").unwrap();
    assert_eq!(stat.num_mails, 2);
    assert_eq!(stat.mbox_size, 320);
}

#[test]
fn stat_parse_malformed_is_error() {
    let r = POP3Stat::parse("abc");
    assert!(matches!(r, Err(Pop3Error::ProtocolParse)));
}

#[test]
fn stat_parse_finds_leftmost_pair() {
    let stat = POP3Stat::parse("+OK 12 340\r\n").unwrap();
    assert_eq!(stat.num_mails, 12);
    assert_eq!(stat.mbox_size, 340);
}

#[test]
fn stat_parse_rejects_value_beyond_u32() {
    let r = POP3Stat::parse("4294967296 1");
    assert!(matches!(r, Err(Pop3Error::ProtocolParse)));
}

#[test]
fn stat_parse_accepts_leading_zeros() {
    let stat = POP3Stat::parse("007 0042").unwrap();
    assert_eq!(stat.num_mails, 7);
    assert_eq!(stat.mbox_size, 42);
}

fn entry(e: &EmailMetadata) -> (u32, u32) {
    (e.msg_id, e.msg_size)
}

#[test]
fn list_parse_multiline_with_summary() {
    let lines = vec![
        String::from("+OK 2 messages (320 octets)\r\n"),
        String::from("1 120\r\n"),
        String::from("2 200\r\n"),
    ];
    let list = POP3List::parse(&lines).unwrap();
    let summary = list.mbox_stat.unwrap();
    assert_eq!(summary.num_mails, 2);
    assert_eq!(summary.mbox_size, 320);
    assert_eq!(list.mailbox.len(), 2);
    assert_eq!(entry(&list.mailbox[0]), (1, 120));
    assert_eq!(entry(&list.mailbox[1]), (2, 200));
}

#[test]
fn list_parse_single_line_has_no_summary() {
    let lines = vec![String::from("1 120\r\n")];
    let list = POP3List::parse(&lines).unwrap();
    assert!(list.mbox_stat.is_none());
    assert_eq!(list.mailbox.len(), 1);
    assert_eq!(entry(&list.mailbox[0]), (1, 120));
}

#[test]
fn list_parse_empty_input() {
    let lines: Vec<String> = vec![];
    let list = POP3List::parse(&lines).unwrap();
    assert!(list.mbox_stat.is_none());
    assert_eq!(list.mailbox.len(), 0);
}

#[test]
fn list_parse_bad_header_is_error() {
    let lines = vec![String::from("garbage\r\n"), String::from("1 2\r\n")];
    assert!(matches!(&POP3List::parse(&lines), Err(Pop3Error::ProtocolParse)));
}

#[test]
fn list_parse_bad_entry_is_error() {
    let lines = vec![
        String::from("+OK 1 messages (5 octets)\r\n"),
        String::from("no numbers here\r\n"),
    ];
    assert!(matches!(&POP3List::parse(&lines), Err(Pop3Error::ProtocolParse)));
}

#[test]
fn list_parse_err_header_is_accepted_by_grammar() {
    let lines = vec![
        String::from("-ERR 1 messages (5 octets)\r\n"),
        String::from("1 5\r\n"),
    ];
    let list = POP3List::parse(&lines).unwrap();
    let summary = list.mbox_stat.unwrap();
    assert_eq!(summary.num_mails, 1);
    assert_eq!(summary.mbox_size, 5);
}
