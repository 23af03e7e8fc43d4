use crash_helper_client::{
    env_entry, environment_block, first_invalid, has_no_nul, helper_arguments, pid_text,
    push_decimal, spawn_arguments, BootstrapError,
};

fn bytes(s: &str) -> Vec<u8> {
    s.as_bytes().to_vec()
}

#[test]
fn argument_vector_has_fixed_order() {
    let args = spawn_arguments(
        b"/usr/lib/crashhelper",
        4321,
        b"crash-context blob",
        b"/tmp/minidumps",
        b"endpoint-token",
    )
    .unwrap();
    assert_eq!(
        args,
        vec![
            bytes("/usr/lib/crashhelper"),
            bytes("4321"),
            bytes("crash-context blob"),
            bytes("/tmp/minidumps"),
            bytes("endpoint-token"),
        ]
    );
}

#[test]
fn argument_vector_accepts_empty_strings() {
    let args = spawn_arguments(b"helper", 1, b"", b"", b"").unwrap();
    assert_eq!(args, vec![bytes("helper"), bytes("1"), vec![], vec![], vec![]]);
}

#[test]
fn argument_with_nul_is_rejected_at_its_position() {
    let r = spawn_arguments(b"helper", 10, b"ctx\0tail", b"/tmp\0", b"token");
    assert_eq!(r, Err(BootstrapError::InvalidArgument { position: 2 }));
    let r = spawn_arguments(b"\0", 10, b"ctx", b"/tmp", b"token");
    assert_eq!(r, Err(BootstrapError::InvalidArgument { position: 0 }));
    let r = spawn_arguments(b"helper", 10, b"ctx", b"/tmp", b"tok\0en");
    assert_eq!(r, Err(BootstrapError::InvalidArgument { position: 4 }));
}

#[test]
fn endpoint_token_is_passed_through_unchanged() {
    let token = b"fd=17;ancillary=\x01\x02\xff";
    let first = spawn_arguments(b"helper", 99, b"ctx", b"/tmp", token).unwrap();
    let second = spawn_arguments(b"helper", 99, b"ctx", b"/tmp", token).unwrap();
    assert_eq!(first[4], token.to_vec());
    assert_eq!(first, second);
}

#[test]
fn helper_arguments_use_the_calling_process_id() {
    let args = helper_arguments(b"helper", b"ctx", b"/tmp/dump", b"token").unwrap();
    assert_eq!(args.len(), 5);
    assert_eq!(args[0], bytes("helper"));
    assert!(!args[1].is_empty());
    assert!(args[1].iter().all(|b| b.is_ascii_digit()));
    assert_eq!(args[2], bytes("ctx"));
    assert_eq!(args[3], bytes("/tmp/dump"));
    assert_eq!(args[4], bytes("token"));
}

#[test]
fn pid_text_is_decimal() {
    assert_eq!(pid_text(0), bytes("0"));
    assert_eq!(pid_text(7), bytes("7"));
    assert_eq!(pid_text(10), bytes("10"));
    assert_eq!(pid_text(1234), bytes("1234"));
    assert_eq!(pid_text(-5), bytes("-5"));
    assert_eq!(pid_text(i32::MAX), bytes("2147483647"));
    assert_eq!(pid_text(i32::MIN), bytes("-2147483648"));
}

#[test]
fn push_decimal_appends() {
    let mut out = bytes("pid=");
    push_decimal(&mut out, 90210);
    assert_eq!(out, bytes("pid=90210"));
    let mut out = Vec::new();
    push_decimal(&mut out, u64::MAX);
    assert_eq!(out, bytes("18446744073709551615"));
}

#[test]
fn nul_detection() {
    assert!(has_no_nul(b""));
    assert!(has_no_nul(b"abc"));
    assert!(!has_no_nul(b"a\0c"));
    assert!(!has_no_nul(b"\0"));
    assert_eq!(first_invalid(&vec![bytes("a"), bytes("b")]), None);
    assert_eq!(first_invalid(&vec![bytes("a"), vec![0], vec![0]]), Some(1));
    assert_eq!(first_invalid(&vec![]), None);
}

#[test]
fn env_entry_joins_key_and_value() {
    assert_eq!(env_entry(b"HOME", b"/home/user"), bytes("HOME=/home/user"));
    assert_eq!(env_entry(b"EMPTY", b""), bytes("EMPTY="));
    assert_eq!(env_entry(b"A", b"x=y"), bytes("A=x=y"));
}

#[test]
fn environment_is_inherited_in_order_unfiltered() {
    let vars = vec![
        (bytes("PATH"), bytes("/usr/bin:/bin")),
        (bytes("LANG"), bytes("C")),
        (bytes("MOZ_CRASHREPORTER"), bytes("1")),
    ];
    let env = environment_block(&vars).unwrap();
    assert_eq!(
        env,
        vec![bytes("PATH=/usr/bin:/bin"), bytes("LANG=C"), bytes("MOZ_CRASHREPORTER=1")]
    );
}

#[test]
fn empty_environment_gives_empty_block() {
    assert_eq!(environment_block(&vec![]), Ok(vec![]));
}

#[test]
fn environment_entry_with_nul_is_rejected() {
    let vars = vec![
        (bytes("OK"), bytes("1")),
        (bytes("BAD"), bytes("a\0b")),
        (bytes("ALSO\0BAD"), bytes("2")),
    ];
    assert_eq!(
        environment_block(&vars),
        Err(BootstrapError::InvalidEnvironment { index: 1 })
    );
}
