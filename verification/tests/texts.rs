use embedded_ci::auth::{authorize, token_is_configured, ApiTokenError, Token};
use embedded_ci::builder::{Error, JobDescBuilder};
use embedded_ci::client::{read_poll, read_submission, Poll, Submission};
use embedded_ci::ident::{AuthName, AuthToken, ProbeSerial, TargetGroup};
use embedded_ci::logs::{level_label, split_lines, LogLevel};
use embedded_ci::selector::RunOn;
use embedded_ci::settings::AuthEntry;
use embedded_ci::text::{
    digit_str, hex_digit_str, make_binary_path, make_entry_path, make_run_on_path, push_decimal,
    push_hex, unroll_error,
};
use embedded_ci::unord::UnordEqVec;

fn decimal(n: usize) -> String {
    let mut s = String::from(">");
    push_decimal(&mut s, n);
    s
}

fn hex(n: u32, width: usize) -> String {
    let mut s = String::from(">");
    push_hex(&mut s, n, width);
    s
}

#[test]
fn numbers_are_written_in_decimal() {
    assert_eq!(decimal(0), ">0");
    assert_eq!(decimal(7), ">7");
    assert_eq!(decimal(10), ">10");
    assert_eq!(decimal(409), ">409");
    assert_eq!(decimal(usize::MAX), format!(">{}", usize::MAX));
    for d in 0..10 {
        assert_eq!(digit_str(d), d.to_string());
    }
}

#[test]
fn numbers_are_written_in_hexadecimal_with_leading_zeros() {
    assert_eq!(hex(0, 2), ">0x00");
    assert_eq!(hex(0, 0), ">0x0");
    assert_eq!(hex(0xa, 1), ">0xa");
    assert_eq!(hex(0x1f, 2), format!(">{:#04x}", 0x1f));
    assert_eq!(hex(0x123, 2), format!(">{:#04x}", 0x123));
    assert_eq!(hex(0xbeef, 8), format!(">{:#010x}", 0xbeef));
    assert_eq!(hex(u32::MAX, 4), format!(">{:#06x}", u32::MAX));
    for d in 0..16 {
        assert_eq!(hex_digit_str(d), format!("{:x}", d));
    }
}

#[test]
fn paths_point_into_the_description() {
    assert_eq!(make_run_on_path(0), "tasks.0.run_on");
    assert_eq!(make_run_on_path(12), "tasks.12.run_on");
    assert_eq!(make_binary_path(3), "tasks.3.binary_b64");
    assert_eq!(
        make_entry_path("PROBE_SERIAL_2", 0, 1, "probe_aliases", 20),
        "PROBE_SERIAL_2 @ tasks.0.run_on.1.probe_aliases.20"
    );
}

#[test]
fn text_is_split_at_line_feeds() {
    assert_eq!(split_lines(""), Vec::<String>::new());
    assert_eq!(split_lines("one"), vec!["one"]);
    assert_eq!(split_lines("one\n"), vec!["one"]);
    assert_eq!(split_lines("\n"), vec![""]);
    assert_eq!(split_lines("a\n\nb"), vec!["a", "", "b"]);
    assert_eq!(split_lines("ä\nö\n"), vec!["ä", "ö"]);
}

#[test]
fn levels_are_padded_to_five_characters() {
    assert_eq!(level_label(Some(LogLevel::Trace)), "TRACE ");
    assert_eq!(level_label(Some(LogLevel::Debug)), "DEBUG ");
    assert_eq!(level_label(Some(LogLevel::Info)), "INFO  ");
    assert_eq!(level_label(Some(LogLevel::Warn)), "WARN  ");
    assert_eq!(level_label(Some(LogLevel::Error)), "ERROR ");
    assert_eq!(level_label(None), "");
}

#[test]
fn vectors_compare_equal_whatever_their_order() {
    let a: UnordEqVec<u8> = vec![1, 2, 3].into();
    let b: UnordEqVec<u8> = vec![3, 1, 2].into();
    assert_eq!(a, b);
    assert_ne!(a, UnordEqVec::from(vec![1, 2]));
    assert_ne!(UnordEqVec::from(vec![1, 2]), a);
    assert_eq!(UnordEqVec::from(vec![1, 1, 2]), UnordEqVec::from(vec![2, 1]));
    assert!(a.contains(&2));
    assert!(!a.contains(&4));
    assert_eq!(a.len(), 3);
    assert!(UnordEqVec::<u8>::default().is_empty());
    assert_eq!(Vec::from(b), vec![3, 1, 2]);
}

#[test]
fn builder_makes_a_description_with_encoded_binaries() {
    let desc = JobDescBuilder::new()
        .set_timeout(30)
        .add_task()
        .elf_executable(b"hello world~".to_vec())
        .run_on(RunOn::ProbeSerials(vec![ProbeSerial("S1".into())]))
        .run_on(RunOn::Groups(vec![TargetGroup("G".into())]))
        .done()
        .unwrap()
        .add_task()
        .run_on(RunOn::Groups(vec![]))
        .elf_executable(vec![0, 1, 2, 255])
        .build()
        .unwrap();
    assert_eq!(desc.timeout_secs, 30);
    assert_eq!(desc.tasks.len(), 2);
    assert_eq!(desc.tasks[0].binary_b64, "aGVsbG8gd29ybGR+");
    assert_eq!(desc.tasks[0].run_on.len(), 2);
    assert_eq!(desc.tasks[1].binary_b64, "AAEC/w==");
}

#[test]
fn builder_reports_what_is_missing() {
    assert_eq!(JobDescBuilder::new().set_timeout(1).build().unwrap_err(), Error::NoTasks);
    assert_eq!(JobDescBuilder::new().build().unwrap_err(), Error::NoTasks);
    let no_timeout = JobDescBuilder::new()
        .add_task()
        .elf_executable(vec![1])
        .run_on(RunOn::Groups(vec![]))
        .build();
    assert_eq!(no_timeout.unwrap_err(), Error::NoTimeout);
    let no_run_ons = JobDescBuilder::new().set_timeout(1).add_task().done();
    assert!(matches!(no_run_ons, Err(Error::NoRunOns)));
    let no_elf = JobDescBuilder::new().add_task().run_on(RunOn::Groups(vec![])).build();
    assert_eq!(no_elf.unwrap_err(), Error::NoElf);
    assert_eq!(Error::NoTimeout.message(), "No timeout was specified for a job");
    assert_eq!(Error::NoRunOns.message(), "No run_ons have been specified for a task");
    assert_eq!(Error::NoElf.message(), "No ELF has been specified for a task");
    assert_eq!(Error::NoTasks.message(), "No tasks has been specified for a job");
}

fn tokens(values: &[&str]) -> Vec<AuthEntry> {
    values
        .iter()
        .enumerate()
        .map(|(i, v)| AuthEntry { name: AuthName(format!("n{i}")), token: AuthToken(v.to_string()) })
        .collect()
}

#[test]
fn every_request_is_let_in_without_tokens() {
    assert_eq!(authorize(&[], None), Ok(Token));
    assert_eq!(authorize(&[], Some("whatever")), Ok(Token));
}

#[test]
fn request_with_a_configured_token_is_let_in() {
    let configured = tokens(&["first", "sécret"]);
    assert_eq!(authorize(&configured, Some("Bearer first")), Ok(Token));
    assert_eq!(authorize(&configured, Some("Bearer sécret")), Ok(Token));
    assert!(token_is_configured(&configured, &"first".to_string()));
    assert!(!token_is_configured(&configured, &"n0".to_string()));
}

#[test]
fn request_without_a_configured_token_is_kept_out() {
    let configured = tokens(&["first"]);
    assert_eq!(authorize(&configured, None), Err(ApiTokenError::Missing));
    assert_eq!(authorize(&configured, Some("Bearer second")), Err(ApiTokenError::Invalid));
    assert_eq!(authorize(&configured, Some("Bearer first ")), Err(ApiTokenError::Invalid));
    assert_eq!(authorize(&configured, Some("bearer first")), Err(ApiTokenError::Invalid));
    assert_eq!(authorize(&configured, Some("Bearer")), Err(ApiTokenError::Invalid));
    assert_eq!(authorize(&configured, Some("Bearer ")), Err(ApiTokenError::Invalid));
    assert_eq!(authorize(&configured, Some("first")), Err(ApiTokenError::Invalid));
    assert_eq!(authorize(&configured, Some("")), Err(ApiTokenError::Invalid));
    assert_eq!(authorize(&tokens(&[""]), Some("Bearer ")), Ok(Token));
}

#[test]
fn client_reads_the_answer_to_a_submission() {
    assert_eq!(read_submission(202), Submission::Accepted);
    assert_eq!(read_submission(400), Submission::Invalid);
    assert_eq!(read_submission(401), Submission::Unauthorized);
    assert_eq!(read_submission(425), Submission::Unexpected { status: 425 });
    assert_eq!(read_submission(500), Submission::Unexpected { status: 500 });
}

#[test]
fn client_asks_again_while_the_result_is_not_there() {
    assert_eq!(read_poll(302), Poll::Ready);
    assert_eq!(read_poll(425), Poll::Wait { secs: 1 });
    assert_eq!(read_poll(404), Poll::Lost);
    assert_eq!(read_poll(401), Poll::Unexpected { status: 401 });
    assert_eq!(read_poll(200), Poll::Unexpected { status: 200 });
}

#[test]
fn error_is_shown_with_its_causes() {
    assert_eq!(unroll_error("top", &[]), "\nError: top");
    assert_eq!(
        unroll_error("top", &["middle".to_string(), "bottom".to_string()]),
        "\nError: top\n\nCaused by:\n    0: middle\n    1: bottom"
    );
}
