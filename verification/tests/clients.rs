use s3h::client::common::{connecting_banner, spinner, waiting_banner, ClientSession};
use s3h::client::s3h::{core_addr_host, found_banner, screen_address, CommandLineArgs, HostResolver};
use s3h::client::s3h_is::{
    instant_port_candidate, instant_server_args, instant_server_id, local_core_uri,
    CommandLineArgs as InstantArgs,
};
use s3h::echo::EchoFilter;

#[test]
fn echo_in_one_chunk_is_hidden() {
    let mut f = EchoFilter::new();
    f.expect(b"ls\n");
    assert_eq!(f.filter(b"ls\nfile.txt\n"), b"file.txt\n".to_vec());
    assert_eq!(f.filter(b"ls\n"), b"ls\n".to_vec());
}

#[test]
fn echo_across_chunks_is_hidden() {
    let mut f = EchoFilter::new();
    f.expect(b"echo hi\n");
    assert_eq!(f.filter(b"echo"), Vec::<u8>::new());
    assert_eq!(f.filter(b" hi\nhi\n"), b"hi\n".to_vec());
    assert_eq!(f.filter(b" hi\n"), b" hi\n".to_vec());
}

#[test]
fn mismatching_output_is_shown_whole() {
    let mut f = EchoFilter::new();
    f.expect(b"ls\n");
    assert_eq!(f.filter(b"Rejected"), b"Rejected".to_vec());
    assert_eq!(f.filter(b"ls\n"), b"ls\n".to_vec());
}

#[test]
fn empty_chunk_drops_the_pending_echo() {
    let mut f = EchoFilter::new();
    f.expect(b"ls\n");
    assert_eq!(f.filter(b""), Vec::<u8>::new());
    assert_eq!(f.filter(b"ls\n"), b"ls\n".to_vec());
}

#[test]
fn client_session_numbers_lines_and_hides_echo() {
    let mut c = ClientSession::new();
    assert!(!c.waiting());
    let out = c.send_line("ls");
    assert_eq!(out.key, "command:0");
    assert_eq!(out.payload, b"ls\n".to_vec());
    assert!(c.waiting());
    assert_eq!(out.status, b"\r\x1b[01mWaiting for approval...\x1b[0m".to_vec());
    let shown = c.receive_output(b"ls\na\n");
    assert_eq!(shown.output, b"a\n".to_vec());
    assert_eq!(shown.status, b"\r\x1b[K".to_vec());
    assert!(!c.waiting());
    let out = c.send_line("pwd");
    assert_eq!(out.key, "command:1");
    let end = c.finish();
    assert_eq!(end.key, "command:2");
    assert!(end.payload.is_empty());
    assert_eq!(end.status, b"exit\n".to_vec());
}

#[test]
fn spinner_turns() {
    let frames: Vec<String> = (0..8).map(spinner).collect();
    assert_eq!(frames, vec!["\\", "|", "/", "-", "\\", "|", "/", "-"]);
    assert_eq!(waiting_banner(5), b"\r\x1b[01mWaiting for approval...|\x1b[0m".to_vec());
}

#[test]
fn connecting_banner_shows_short_target() {
    assert_eq!(
        connecting_banner("0123456789", "example.org"),
        b"\x1b[01mConnecting 0123456@example.org ...\x1b[0m".to_vec()
    );
}

#[test]
fn resolver_gives_up_after_481_misses() {
    let mut r = HostResolver::new("0123456789".to_string());
    assert_eq!(
        r.first_banner(),
        b"\x1b[01mResolving target host for user 0123456 from registries...\x1b[0m".to_vec()
    );
    for i in 0..480u64 {
        let step = r.on_miss();
        assert!(step.timeout.is_none());
        let expected = format!(
            "\r\x1b[01mResolving target host for user 0123456 from registries...{}\x1b[0m",
            ["\\", "|", "/", "-"][(i % 4) as usize]
        );
        assert_eq!(step.banner, expected.into_bytes());
    }
    let last = r.on_miss();
    assert_eq!(
        last.timeout,
        Some("\n\x1b[01mTimeout: fail to find target 0123456\x1b[0m\n".to_string())
    );
}

#[test]
fn core_addr_host_reads_the_url() {
    assert_eq!(core_addr_host(b"http://example.com:8080"), Some("example.com".to_string()));
    assert_eq!(core_addr_host(b"https://10.0.0.1"), Some("10.0.0.1".to_string()));
    assert_eq!(core_addr_host(b"not a url"), None);
}

#[test]
fn found_banner_and_screen_address() {
    assert_eq!(found_banner("h"), b"\n\x1b[01mFound target host: h\x1b[0m\n".to_vec());
    assert_eq!(screen_address("host", b"4000"), "host:4000");
}

#[test]
fn registry_entries_of_the_target() {
    let args = CommandLineArgs {
        addr: "http://core".to_string(),
        jwt: "j".to_string(),
        target: "abc".to_string(),
    };
    assert_eq!(args.core_addr_entry(), "_internal:known_users:abc:core_addr");
    assert_eq!(args.guest_jwt_entry(), "_internal:known_users:abc:guest_jwt");
}

#[test]
fn instant_server_addresses() {
    let args = InstantArgs { addr: "1.2.3.4".to_string(), port: 2222, guest_jwt: "g".to_string() };
    assert_eq!(args.core_uri(), "http://1.2.3.4:2222");
    assert_eq!(local_core_uri(12345), "http://127.0.0.1:12345");
    assert_eq!(
        instant_server_args(12345),
        vec![
            "--address",
            "0.0.0.0",
            "--port",
            "12345",
            "--mq-prefix",
            "colink-instant-server-12345",
            "--core-uri",
            "http://127.0.0.1:12345",
            "--inter-core-reverse-mode",
        ]
    );
}

#[test]
fn instant_port_is_in_range() {
    for _ in 0..100 {
        let p = instant_port_candidate();
        assert!((10000..20000).contains(&p));
    }
}

#[test]
fn waiting_lasts_until_the_next_output() {
    let mut c = ClientSession::new();
    c.send_line("a");
    assert!(c.waiting());
    c.send_line("b");
    assert!(c.waiting());
    assert_eq!(c.receive_output(b"a\n").output, b"a\n".to_vec());
    assert!(!c.waiting());
    c.send_line("c");
    assert!(c.waiting());
    assert_eq!(c.finish().key, "command:3");
}

#[test]
fn spinner_client_skips_empty_reads() {
    let mut c = ClientSession::new();
    c.send_line("ls");
    let shown = c.receive_output(b"");
    assert!(shown.status.is_empty());
    assert!(shown.output.is_empty());
    assert!(c.waiting());
    let shown = c.receive_output(b"ls\nx\n");
    assert_eq!(shown.output, b"x\n".to_vec());
    assert!(!c.waiting());
}

#[test]
fn first_client_uses_the_plain_status_line() {
    let mut c = ClientSession::new_plain();
    let out = c.send_line("ls");
    assert_eq!(out.key, "command:0");
    assert_eq!(out.status, b"\rWaiting for approval...".to_vec());
    let shown = c.receive_output(b"");
    assert_eq!(shown.status, b"\r                       \r".to_vec());
    assert!(shown.output.is_empty());
    assert!(!c.waiting());
    let shown = c.receive_output(b"ls\n");
    assert_eq!(shown.output, b"ls\n".to_vec());
    let end = c.finish();
    assert_eq!(end.key, "command:1");
    assert!(end.status.is_empty());
}

#[test]
fn instant_server_id_is_a_v4_uuid() {
    let id = instant_server_id();
    let b = id.as_bytes();
    assert_eq!(b.len(), 36);
    for i in [8, 13, 18, 23] {
        assert_eq!(b[i], b'-');
    }
    assert_eq!(b[14], b'4');
    assert!(b"89ab".contains(&b[19]));
    assert!(id.chars().all(|c| c == '-' || c.is_ascii_digit() || ('a'..='f').contains(&c)));
    assert_ne!(instant_server_id(), id);
}
