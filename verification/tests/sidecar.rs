use sidecar_supervisor::sidecar::{
    available_port, base_url, generate_token, hex_encode, log_record, sidecar_args, token_from,
    LogRecord, LogStream, PortProbe, SidecarEvent, SpawnFailure, SIDECAR_HOST,
};
use sidecar_supervisor::text::{join, push_decimal, push_signed_decimal};
use std::collections::HashSet;

#[test]
fn generates_32_byte_hex_token() {
    let token = generate_token().expect("expected the random source to answer");
    assert_eq!(token.len(), 64);
    assert!(token.chars().all(|ch| ch.is_ascii_hexdigit()));
    assert!(token.chars().all(|ch| !ch.is_ascii_uppercase()));

    let other = generate_token().expect("expected the random source to answer");
    assert_ne!(token, other);
}

#[test]
fn thousand_tokens_are_distinct() {
    let mut seen: HashSet<String> = HashSet::new();
    for _ in 0..1000 {
        let token = generate_token().expect("expected the random source to answer");
        assert_eq!(token.chars().count(), 64);
        assert!(token.chars().all(|ch| matches!(ch, '0'..='9' | 'a'..='f')));
        assert!(seen.insert(token));
    }
    assert_eq!(seen.len(), 1000);
}

#[test]
fn hex_encode_renders_each_byte_as_two_digits() {
    assert_eq!(hex_encode(&[]), "");
    assert_eq!(hex_encode(&[0x00]), "00");
    assert_eq!(hex_encode(&[0x0f, 0xf0]), "0ff0");
    assert_eq!(hex_encode(&[0x09, 0x0a, 0x99, 0xa5, 0xff]), "090a99a5ff");
    assert_eq!(hex_encode(&[0xde, 0xad, 0xbe, 0xef]), "deadbeef");
}

#[test]
fn hex_encode_tells_different_bytes_apart() {
    let mut seen: HashSet<String> = HashSet::new();
    for byte in 0..=255u8 {
        let text = hex_encode(&[byte]);
        assert_eq!(text.len(), 2);
        assert_eq!(u8::from_str_radix(&text, 16).unwrap(), byte);
        assert!(seen.insert(text));
    }
}

#[test]
fn token_from_renders_the_bytes_of_a_filled_buffer() {
    let mut bytes = [0u8; 32];
    for (i, b) in bytes.iter_mut().enumerate() {
        *b = i as u8;
    }
    let token = token_from(Ok(()), &bytes);
    assert_eq!(
        token,
        Ok("000102030405060708090a0b0c0d0e0f101112131415161718191a1b1c1d1e1f".to_string())
    );
}

#[test]
fn token_from_reports_a_failed_source() {
    let token = token_from(Err("no entropy".to_string()), &[7u8; 32]);
    assert_eq!(token, Err("failed to read the random source: no entropy".to_string()));
}

#[test]
fn sidecar_args_follow_the_command_line() {
    let args = sidecar_args(4321, "abc123", "/home/user/project");
    assert_eq!(
        args,
        vec![
            "serve",
            "--host",
            "127.0.0.1",
            "--port",
            "4321",
            "--token",
            "abc123",
            "--workspace",
            "/home/user/project",
        ]
    );
    assert_eq!(args[2], SIDECAR_HOST);
}

#[test]
fn sidecar_args_render_every_port_in_decimal() {
    assert_eq!(sidecar_args(0, "t", "/w")[4], "0");
    assert_eq!(sidecar_args(9, "t", "/w")[4], "9");
    assert_eq!(sidecar_args(10, "t", "/w")[4], "10");
    assert_eq!(sidecar_args(65535, "t", "/w")[4], "65535");
    for port in [1u16, 80, 443, 1024, 8080, 49152, 60001] {
        assert_eq!(sidecar_args(port, "t", "/w")[4], port.to_string());
    }
}

#[test]
fn sidecar_args_keep_token_and_workspace_as_given() {
    let args = sidecar_args(1, "", "/path with spaces/and --flags");
    assert_eq!(args.len(), 9);
    assert_eq!(args[6], "");
    assert_eq!(args[8], "/path with spaces/and --flags");
}

#[test]
fn base_url_names_the_loopback_host_and_the_port() {
    assert_eq!(base_url(4321), "http://127.0.0.1:4321");
    assert_eq!(base_url(0), "http://127.0.0.1:0");
    assert_eq!(base_url(65535), "http://127.0.0.1:65535");
    assert_eq!(base_url(8080), format!("http://{}:{}", SIDECAR_HOST, 8080));
}

#[test]
fn available_port_passes_a_bound_port_on() {
    assert_eq!(available_port(&PortProbe::Bound(50123)), Ok(50123));
}

#[test]
fn available_port_describes_each_failure() {
    assert_eq!(
        available_port(&PortProbe::BindFailed("address in use".to_string())),
        Err("failed to bind ephemeral port: address in use".to_string())
    );
    assert_eq!(
        available_port(&PortProbe::AddressUnknown("not connected".to_string())),
        Err("failed to read local address: not connected".to_string())
    );
}

#[test]
fn spawn_failure_messages_name_the_step() {
    assert_eq!(
        SpawnFailure::Configure("no such sidecar".to_string()).message(),
        "failed to configure sidecar command: no such sidecar"
    );
    assert_eq!(
        SpawnFailure::Launch("permission denied".to_string()).message(),
        "failed to spawn treq sidecar: permission denied"
    );
}

#[test]
fn log_record_forwards_output_to_its_stream() {
    assert_eq!(
        log_record(&SidecarEvent::Stdout(b"listening\n".to_vec())),
        Some(LogRecord { stream: LogStream::Output, text: "listening\n".to_string() })
    );
    assert_eq!(
        log_record(&SidecarEvent::Stderr(b"warning: slow".to_vec())),
        Some(LogRecord { stream: LogStream::Diagnostics, text: "warning: slow".to_string() })
    );
    assert_eq!(
        log_record(&SidecarEvent::Stdout(Vec::new())),
        Some(LogRecord { stream: LogStream::Output, text: String::new() })
    );
}

#[test]
fn log_record_replaces_what_is_not_utf8() {
    assert_eq!(
        log_record(&SidecarEvent::Stdout(vec![0x66, 0xff, 0x6f])),
        Some(LogRecord { stream: LogStream::Output, text: "f\u{fffd}o".to_string() })
    );
    assert_eq!(
        log_record(&SidecarEvent::Stderr(vec![0xe2, 0x82, 0xac])),
        Some(LogRecord { stream: LogStream::Diagnostics, text: "\u{20ac}".to_string() })
    );
}

#[test]
fn log_record_reports_failures_and_exits_as_lines() {
    assert_eq!(
        log_record(&SidecarEvent::Error("broken pipe".to_string())),
        Some(LogRecord {
            stream: LogStream::Diagnostics,
            text: "[sidecar] process error: broken pipe\n".to_string(),
        })
    );
    assert_eq!(
        log_record(&SidecarEvent::Terminated { code: Some(0) }),
        Some(LogRecord {
            stream: LogStream::Diagnostics,
            text: "[sidecar] process terminated: Some(0)\n".to_string(),
        })
    );
    assert_eq!(
        log_record(&SidecarEvent::Terminated { code: Some(-9) }),
        Some(LogRecord {
            stream: LogStream::Diagnostics,
            text: "[sidecar] process terminated: Some(-9)\n".to_string(),
        })
    );
    assert_eq!(
        log_record(&SidecarEvent::Terminated { code: None }),
        Some(LogRecord {
            stream: LogStream::Diagnostics,
            text: "[sidecar] process terminated: None\n".to_string(),
        })
    );
}

#[test]
fn log_record_shows_exit_codes_as_debug_output_does() {
    for code in [Some(1), Some(137), Some(i32::MAX), Some(i32::MIN), Some(-1), None] {
        let record = log_record(&SidecarEvent::Terminated { code }).unwrap();
        assert_eq!(record.text, format!("[sidecar] process terminated: {:?}\n", code));
    }
}

#[test]
fn log_record_ignores_other_events() {
    assert_eq!(log_record(&SidecarEvent::Other), None);
}

#[test]
fn push_decimal_appends_digits() {
    let mut text = String::from("n=");
    push_decimal(&mut text, 0);
    assert_eq!(text, "n=0");
    push_decimal(&mut text, 1234567890);
    assert_eq!(text, "n=01234567890");
    let mut max = String::new();
    push_decimal(&mut max, u64::MAX);
    assert_eq!(max, "18446744073709551615");
}

#[test]
fn push_signed_decimal_puts_the_sign_first() {
    let mut text = String::new();
    push_signed_decimal(&mut text, -42);
    assert_eq!(text, "-42");
    let mut zero = String::new();
    push_signed_decimal(&mut zero, 0);
    assert_eq!(zero, "0");
    let mut min = String::new();
    push_signed_decimal(&mut min, i32::MIN);
    assert_eq!(min, "-2147483648");
}

#[test]
fn join_puts_head_before_tail() {
    assert_eq!(join("head: ", "tail"), "head: tail");
    assert_eq!(join("", ""), "");
}
