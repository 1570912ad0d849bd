use pop3::AuthMode;
use pop3::LoginAction;
use pop3::POP3List;
use pop3::LoginEvent;
use pop3::POP3Connection;
use pop3::POP3Data;
use pop3::POP3State;
use pop3::Pop3Error;
use pop3::SessionEvent;
use pop3::frame_command;
use pop3::interpret_response;
use pop3::parse_auth_mode;
use pop3::read_response_step;
use pop3::transition;

fn sent_line(r: Result<LoginAction, Pop3Error>) -> String {
    match r {
        Ok(LoginAction::Send(cmd)) => cmd,
        _ => panic!("expected a command to send"),
    }
}

#[test]
fn send_command_success_single_line() {
    // a command whose mock transport answers `+OK done\r\n`
    let (line, multiline) = frame_command("NOOP", None);
    assert_eq!(line, "NOOP");
    assert!(!multiline);
    let mut response: Vec<String> = Vec::new();
    let done = read_response_step(&mut response, String::from("+OK done\r\n"));
    assert!(!done);
    let out = interpret_response(response).unwrap();
    assert_eq!(out, vec![String::from("+OK done\r\n")]);
}

#[test]
fn send_command_rejected_carries_server_text() {
    let response = vec![String::from("-ERR bad login\r\n")];
    match interpret_response(response) {
        Err(Pop3Error::ServerRejected(text)) => assert_eq!(text, "bad login"),
        _ => panic!("expected a server rejection"),
    }
}

#[test]
fn send_command_unparseable_status_is_error() {
    let response = vec![String::from("hello\r\n")];
    assert!(matches!(interpret_response(response), Err(Pop3Error::ProtocolParse)));
}

#[test]
fn frame_command_appends_parameter() {
    let (line, multiline) = frame_command("RETR", Some("1"));
    assert_eq!(line, "RETR 1");
    assert!(!multiline);
}

#[test]
fn only_bare_list_is_multiline() {
    assert!(frame_command("LIST", None).1);
    assert!(!frame_command("LIST", Some("2")).1);
    assert!(!frame_command("STAT", None).1);
}

#[test]
fn multiline_collection_drops_terminator() {
    let mut response: Vec<String> = Vec::new();
    assert!(!read_response_step(&mut response, String::from("+OK 2 messages (320 octets)\r\n")));
    assert!(!read_response_step(&mut response, String::from("1 120\r\n")));
    assert!(!read_response_step(&mut response, String::from("2 200\r\n")));
    assert!(read_response_step(&mut response, String::from(".\r\n")));
    assert_eq!(
        response,
        vec![
            String::from("+OK 2 messages (320 octets)\r\n"),
            String::from("1 120\r\n"),
            String::from("2 200\r\n"),
        ]
    );
}

#[test]
fn list_pipeline_end_to_end() {
    let (line, multiline) = frame_command("LIST", None);
    assert_eq!(line, "LIST");
    assert!(multiline);
    let mut response: Vec<String> = Vec::new();
    for raw in [
        "+OK 2 messages (320 octets)\r\n",
        "1 120\r\n",
        "2 200\r\n",
        ".\r\n",
    ] {
        if read_response_step(&mut response, String::from(raw)) {
            break;
        }
    }
    let ok = interpret_response(response).unwrap();
    let list = POP3List::parse(&ok).unwrap();
    let summary = list.mbox_stat.unwrap();
    assert_eq!(summary.num_mails, 2);
    assert_eq!(summary.mbox_size, 320);
    assert_eq!(list.mailbox.len(), 2);
    assert_eq!(list.mailbox[0].msg_id, 1);
    assert_eq!(list.mailbox[0].msg_size, 120);
    assert_eq!(list.mailbox[1].msg_id, 2);
    assert_eq!(list.mailbox[1].msg_size, 200);
}

#[test]
fn login_with_user_and_pass() {
    let mut conn = POP3Connection::new(String::from("bob"), String::from("secret"));
    conn.on_greeting("+OK ready\r\n").unwrap();
    assert_eq!(conn.state, POP3State::Authorization);
    let cmd = sent_line(conn.login(LoginEvent::Start));
    assert_eq!(cmd, "USER bob");
    let cmd = sent_line(conn.login(LoginEvent::Outcome(Ok(vec![String::from("+OK \r\n")]))));
    assert_eq!(cmd, "PASS secret");
    let done = conn.login(LoginEvent::Outcome(Ok(vec![String::from("+OK \r\n")])));
    assert!(matches!(done, Ok(LoginAction::Done(POP3Data::Login))));
    assert_eq!(conn.state, POP3State::Transaction);
}

#[test]
fn login_falls_back_to_apop() {
    // the APOP exchange of RFC 1939, section 7
    let mut conn = POP3Connection::new(String::from("mrose"), String::from("tanstaaf"));
    conn.on_greeting("+OK POP3 server ready <1896.697170952@dbc.mtview.ca.us>\r\n")
        .unwrap();
    assert_eq!(conn.timestamp, "<1896.697170952@dbc.mtview.ca.us>");
    let cmd = sent_line(conn.login(LoginEvent::Start));
    assert_eq!(cmd, "USER mrose");
    let rejected = Err(Pop3Error::ServerRejected(String::from("never heard of you")));
    let cmd = sent_line(conn.login(LoginEvent::Outcome(rejected)));
    assert_eq!(cmd, "APOP mrose c4c9334bac560ecc979e58001b3e22fb");
    let done = conn.login(LoginEvent::Outcome(Ok(vec![String::from("+OK \r\n")])));
    assert!(matches!(done, Ok(LoginAction::Done(POP3Data::Login))));
    assert_eq!(conn.state, POP3State::Transaction);
}

#[test]
fn login_outside_authorization_is_invalid_state() {
    // before the greeting the session is still in its beginning state
    let mut conn = POP3Connection::new(String::from("bob"), String::from("secret"));
    assert_eq!(conn.state, POP3State::Begin);
    assert!(matches!(conn.login(LoginEvent::Start), Err(Pop3Error::InvalidState)));
    assert_eq!(conn.state, POP3State::Begin);

    // and after a completed login it is in the transaction state
    conn.on_greeting("+OK ready\r\n").unwrap();
    sent_line(conn.login(LoginEvent::Start));
    sent_line(conn.login(LoginEvent::Outcome(Ok(vec![String::from("+OK \r\n")]))));
    conn.login(LoginEvent::Outcome(Ok(vec![String::from("+OK \r\n")])))
        .unwrap();
    assert_eq!(conn.state, POP3State::Transaction);
    assert!(matches!(conn.login(LoginEvent::Start), Err(Pop3Error::InvalidState)));
    assert_eq!(conn.state, POP3State::Transaction);
}

#[test]
fn login_failure_leaves_state_unchanged() {
    let mut conn = POP3Connection::new(String::from("bob"), String::from("secret"));
    conn.on_greeting("+OK ready\r\n").unwrap();
    sent_line(conn.login(LoginEvent::Start));
    sent_line(conn.login(LoginEvent::Outcome(Ok(vec![String::from("+OK \r\n")]))));
    let failed = conn.login(LoginEvent::Outcome(Err(Pop3Error::ServerRejected(
        String::from("bad login"),
    ))));
    match failed {
        Err(Pop3Error::ServerRejected(text)) => assert_eq!(text, "bad login"),
        _ => panic!("expected the server's rejection to surface"),
    }
    assert_eq!(conn.state, POP3State::Authorization);
}

#[test]
fn out_of_order_login_event_is_invalid_state() {
    let mut conn = POP3Connection::new(String::from("bob"), String::from("secret"));
    conn.on_greeting("+OK ready\r\n").unwrap();
    let event = LoginEvent::Outcome(Ok(vec![String::from("+OK \r\n")]));
    assert!(matches!(conn.login(event), Err(Pop3Error::InvalidState)));
}

#[test]
fn greeting_twice_is_invalid_state() {
    let mut conn = POP3Connection::new(String::from("bob"), String::from("secret"));
    conn.on_greeting("+OK ready\r\n").unwrap();
    assert!(matches!(conn.on_greeting("+OK again\r\n"), Err(Pop3Error::InvalidState)));
}

#[test]
fn auth_mode_strings_are_interpreted() {
    assert!(matches!(parse_auth_mode("Plain"), Ok(AuthMode::Plain)));
    assert!(matches!(parse_auth_mode("SSL"), Ok(AuthMode::Ssl)));
    match parse_auth_mode("starttls") {
        Err(Pop3Error::Transport(text)) => assert_eq!(text, "unknown auth type"),
        _ => panic!("expected an unknown auth type to be rejected"),
    }
}

#[test]
fn errors_describe_themselves() {
    let rejected = Pop3Error::ServerRejected(String::from("bad login"));
    assert_eq!(rejected.describe(), "bad login");
    let transport = Pop3Error::Transport(String::from("connection refused"));
    assert_eq!(transport.describe(), "connection refused");
    assert!(!Pop3Error::InvalidState.describe().is_empty());
    assert!(!Pop3Error::Decode.describe().is_empty());
    assert!(!Pop3Error::ProtocolParse.describe().is_empty());
}

#[test]
fn transition_table_is_strictly_forward() {
    assert_eq!(
        transition(POP3State::Begin, SessionEvent::GreetingParsed),
        Some(POP3State::Authorization)
    );
    assert_eq!(
        transition(POP3State::Authorization, SessionEvent::LoginSucceeded),
        Some(POP3State::Transaction)
    );
    assert_eq!(transition(POP3State::Begin, SessionEvent::LoginSucceeded), None);
    assert_eq!(transition(POP3State::Transaction, SessionEvent::GreetingParsed), None);
    assert_eq!(transition(POP3State::Update, SessionEvent::GreetingParsed), None);
}
