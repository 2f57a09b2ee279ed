use playmaster::gmail::client::{GmailClient, MailMessage, MailPart, MailPayload};
use playmaster::gmail::imap_client::{ImapGmailClient, ParsedPart};
use playmaster::models::app_state::RemoteInfo;
use playmaster::utils::command::{CommandRun, CommandUtils};

fn client() -> GmailClient {
    GmailClient::new(Some("bucket".to_string()), Some("tokens//".to_string()))
}

#[test]
fn query_names_sender_subject_and_time() {
    let c = client();
    assert_eq!(c.build_query("a@b.c", "Your code", None), "from:a@b.c subject:Your code");
    assert_eq!(c.build_query("a@b.c", "Code", Some(1700000000)), "from:a@b.c subject:Code after:1700000000");
    assert_eq!(c.build_query("", "", Some(-5)), "from: subject: after:-5");
    assert_eq!(c.search_latest_message(30), "Timed out after 30 seconds");
}

#[test]
fn token_is_stored_under_the_prefix() {
    assert_eq!(client().get_storage(), Some(("bucket".to_string(), "tokens/credentials.json".to_string())));
    assert_eq!(
        GmailClient::new(Some("b".to_string()), Some(String::new())).get_storage(),
        Some(("b".to_string(), "/credentials.json".to_string()))
    );
    assert_eq!(GmailClient::new(None, Some("p".to_string())).get_storage(), None);
    assert_eq!(GmailClient::new(Some("b".to_string()), None).get_storage(), None);
}

#[test]
fn code_is_the_first_group() {
    let c = client();
    assert_eq!(c.extract_code_from_body("Your code is 123456. Not 654321.", r"\b(\d{6})\b"), Ok("123456".to_string()));
    assert_eq!(c.extract_code_from_body("code: AB-12", r"code: ([A-Z]+)-(\d+)"), Ok("AB".to_string()));
    assert_eq!(
        c.extract_code_from_body("no digits", r"\b(\d{6})\b"),
        Err("Regex did not match email body".to_string())
    );
    assert_eq!(
        c.extract_code_from_body("abc", "abc"),
        Err("Regex did not match email body".to_string())
    );
    assert!(c
        .extract_code_from_body("abc", "(unclosed")
        .unwrap_err()
        .starts_with("Error compiling user input regex: "));
}

#[test]
fn bodies_are_decoded_by_their_looks() {
    let c = client();
    assert_eq!(c.decode_gmail_body(b"  <p>Hello</p>\n"), Ok("<p>Hello</p>".to_string()));
    assert_eq!(c.decode_gmail_body(b"Subject: x"), Ok("Subject: x".to_string()));
    assert_eq!(c.decode_gmail_body(b"SGVsbG8gd29ybGQ"), Ok("Hello world".to_string()));
    assert_eq!(c.decode_gmail_body(b" SGVs bG8g\r\nd29y bGQ \n"), Ok("Hello world".to_string()));
    assert_eq!(c.decode_gmail_body(b"_-8"), Ok("\u{fffd}\u{fffd}".to_string()));
    assert_eq!(c.decode_gmail_body(b"caf=C3=A9 =\r\nau lait"), Ok("caf\u{e9} au lait".to_string()));
    assert_eq!(c.decode_gmail_body(b"Your code=\n is 42"), Ok("Your code is 42".to_string()));
    assert!(c.decode_gmail_body(b"not base64!").is_err());
    assert!(c.decode_gmail_body(&[0xff, 0xfe]).unwrap_err().starts_with("invalid utf-8"));
    assert_eq!(c.decode_gmail_body(b""), Ok(String::new()));
}

fn part(mime: Option<&str>, data: Option<&[u8]>) -> MailPart {
    MailPart { mime_type: mime.map(str::to_string), data: data.map(|d| d.to_vec()) }
}

#[test]
fn body_comes_from_payload_or_first_text_part() {
    let c = client();
    let direct = MailMessage {
        payload: Some(MailPayload { data: Some(b"SGk".to_vec()), parts: Some(vec![part(Some("text/plain"), Some(b"<x>"))]) }),
    };
    assert_eq!(c.extract_body_from_message(&direct), Ok("Hi".to_string()));
    let parts = MailMessage {
        payload: Some(MailPayload {
            data: None,
            parts: Some(vec![
                part(None, Some(b"<a>")),
                part(Some("image/png"), Some(b"<b>")),
                part(Some("text/plain"), None),
                part(Some("text/html"), Some(b"<c>")),
                part(Some("text/plain"), Some(b"<d>")),
            ]),
        }),
    };
    assert_eq!(c.extract_body_from_message(&parts), Ok("<c>".to_string()));
    let none = MailMessage { payload: Some(MailPayload { data: None, parts: Some(vec![part(Some("text/x"), Some(b"<a>"))]) }) };
    assert_eq!(c.extract_body_from_message(&none), Err("Could not extract email body".to_string()));
    let bare = MailMessage { payload: Some(MailPayload { data: None, parts: None }) };
    assert_eq!(c.extract_body_from_message(&bare), Err("Could not extract email body".to_string()));
    assert_eq!(c.extract_body_from_message(&MailMessage { payload: None }), Err("Missing email payload".to_string()));
}

#[test]
fn imap_search_filters_by_day() {
    let c = ImapGmailClient::new("me@x.y".to_string(), "app pw".to_string());
    assert_eq!(c.email, "me@x.y");
    assert_eq!(c.build_search_query("a@b.c", "Code", None, "01-Jan-2000"), "FROM \"a@b.c\" SUBJECT \"Code\"");
    assert_eq!(
        c.build_search_query("a@b.c", "Code", Some(1431648000), "01-Jan-2000"),
        "FROM \"a@b.c\" SUBJECT \"Code\" SINCE 15-May-2015"
    );
    assert_eq!(
        c.build_search_query("a", "b", Some(i64::MAX), "01-Jan-2000"),
        "FROM \"a\" SUBJECT \"b\" SINCE 01-Jan-2000"
    );
}

#[test]
fn newest_mails_are_looked_at_first() {
    assert_eq!(ImapGmailClient::newest_first(&vec![3, 9, 1, 9, 4], 10), vec![9, 9, 4, 3, 1]);
    assert_eq!(ImapGmailClient::newest_first(&vec![3, 9, 1, 12, 4], 2), vec![12, 9]);
    assert_eq!(ImapGmailClient::newest_first(&vec![], 10), Vec::<u32>::new());
    assert_eq!(ImapGmailClient::newest_first(&vec![1, 2], 0), Vec::<u32>::new());
    let many: Vec<u32> = (1..=25).collect();
    assert_eq!(ImapGmailClient::newest_first(&many, 10), (16..=25).rev().collect::<Vec<u32>>());
}

#[test]
fn old_mail_is_left_out() {
    assert!(ImapGmailClient::is_recent(None, Some(5)));
    assert!(ImapGmailClient::is_recent(Some(5), None));
    assert!(ImapGmailClient::is_recent(Some(5), Some(5)));
    assert!(ImapGmailClient::is_recent(Some(5), Some(6)));
    assert!(!ImapGmailClient::is_recent(Some(5), Some(4)));
    assert_eq!(ImapGmailClient::fetch_latest_email_matching_regex(29, 30), Ok(()));
    assert_eq!(
        ImapGmailClient::fetch_latest_email_matching_regex(30, 30),
        Err("Timed out after 30 seconds waiting for email".to_string())
    );
}

fn leaf(content_type: Option<&str>, body: Option<&str>) -> ParsedPart {
    ParsedPart { content_type: content_type.map(str::to_string), body: body.map(str::to_string), subparts: vec![] }
}

#[test]
fn mail_text_prefers_plain_text() {
    let c = ImapGmailClient::new(String::new(), String::new());
    assert_eq!(c.extract_text_from_email(&leaf(Some("text/plain; charset=utf-8"), Some("hello"))), "hello");
    assert_eq!(c.extract_text_from_email(&leaf(Some("text/html"), Some("<b>hi</b>"))), "<b>hi</b>");
    assert_eq!(c.extract_text_from_email(&leaf(None, None)), "");
    let multi = ParsedPart {
        content_type: Some("multipart/alternative".to_string()),
        body: Some("outer".to_string()),
        subparts: vec![
            ParsedPart {
                content_type: Some("multipart/related".to_string()),
                body: None,
                subparts: vec![leaf(Some("image/png"), None), leaf(Some("text/html"), Some("<i>inner</i>"))],
            },
            leaf(Some("text/plain"), Some("plain")),
        ],
    };
    assert_eq!(ImapGmailClient::extract_text_part(&multi), Some("<i>inner</i>".to_string()));
    let nothing_inside = ParsedPart {
        content_type: Some("multipart/mixed".to_string()),
        body: Some("outer".to_string()),
        subparts: vec![leaf(Some("image/png"), None)],
    };
    assert_eq!(ImapGmailClient::extract_text_part(&nothing_inside), None);
    assert_eq!(c.extract_text_from_email(&nothing_inside), "outer");
    let plain_outer = ParsedPart {
        content_type: Some("text/plain".to_string()),
        body: None,
        subparts: vec![leaf(Some("text/plain"), Some("inner"))],
    };
    assert_eq!(ImapGmailClient::extract_text_part(&plain_outer), None);
}

fn remote() -> RemoteInfo {
    RemoteInfo { user: "dev".to_string(), host: "box".to_string(), port: 2222, password: "pw".to_string() }
}

#[test]
fn commands_go_to_the_remote_host_if_there_is_one() {
    assert_eq!(
        CommandUtils::run_command_str("ls", Some(&remote()), "/r"),
        CommandRun::Remote { command: "source /r/.bashrc > /dev/null 2>&1 || true; ls".to_string(), remote: remote() }
    );
    assert_eq!(
        CommandUtils::run_command_str("ls", None, "/r"),
        CommandRun::Local {
            program: "bash".to_string(),
            args: vec!["-c".to_string(), "source /r/.bashrc > /dev/null 2>&1 || true; ls".to_string()],
        }
    );
    assert_eq!(CommandUtils::copy_file_to_remote("/tmp/a.sh"), "chmod +x /tmp/a.sh");
    assert_eq!(CommandUtils::sync_failure("no route"), "rsync failed: no route");
}

#[test]
fn directories_are_copied_without_their_build_output() {
    let plan = CommandUtils::sync_dir_to_remote(&remote(), "/work/linux//", "/r/app/linux");
    assert_eq!(plan.prepare, "mkdir -p /r/app/linux");
    assert_eq!(plan.program, "sshpass");
    assert_eq!(
        plan.args,
        vec![
            "-p", "pw", "rsync", "-azP", "--delete", "--exclude", "build/", "--exclude", ".dart_tool/",
            "--exclude", ".git/", "-e", "ssh -p 2222", "/work/linux/", "dev@box:/r/app/linux/",
        ]
    );
}
