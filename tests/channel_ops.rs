use decentra_voice_mvp::{
    create_channel, generate_channel_id, get_channel_info, join_channel, leave_channel, Channel,
    ChannelError,
};

fn blank_slot() -> Channel {
    Channel {
        id: String::new(),
        name: String::new(),
        creator: [0u8; 32],
        created_at: 0,
        active: false,
        participant_count: 0,
    }
}

fn fresh(name: &str, created_at: i64) -> Channel {
    let mut c = blank_slot();
    create_channel(&mut c, name.to_string(), [7u8; 32], created_at);
    c
}

#[test]
fn id_of_example_timestamp() {
    assert_eq!(generate_channel_id(&305441741), "CHAT-ABCD");
}

#[test]
fn id_is_padded_to_four_digits() {
    assert_eq!(generate_channel_id(&0), "CHAT-0000");
    assert_eq!(generate_channel_id(&5), "CHAT-0005");
    assert_eq!(generate_channel_id(&0x1A2), "CHAT-01A2");
}

#[test]
fn id_wraps_at_65536() {
    assert_eq!(generate_channel_id(&65535), "CHAT-FFFF");
    assert_eq!(generate_channel_id(&65536), "CHAT-0000");
    assert_eq!(generate_channel_id(&(65536 * 3 + 0x1B)), "CHAT-001B");
}

#[test]
fn id_of_negative_and_extreme_timestamps() {
    assert_eq!(generate_channel_id(&-1), "CHAT-FFFF");
    assert_eq!(generate_channel_id(&-65536), "CHAT-0000");
    assert_eq!(generate_channel_id(&i64::MIN), "CHAT-0000");
    assert_eq!(generate_channel_id(&i64::MAX), "CHAT-FFFF");
}

#[test]
fn id_is_deterministic_and_well_formed() {
    for seed in [0i64, 1, 4095, 4096, 99999, -12345, 1_700_000_000] {
        let a = generate_channel_id(&seed);
        let b = generate_channel_id(&seed);
        assert_eq!(a, b);
        assert_eq!(a.len(), 9);
        assert!(a.starts_with("CHAT-"));
        let digits = &a[5..];
        assert!(digits.chars().all(|c| c.is_ascii_digit() || ('A'..='F').contains(&c)));
        assert_eq!(i64::from_str_radix(digits, 16).unwrap(), seed.rem_euclid(65536));
    }
}

#[test]
fn create_fills_the_record() {
    let mut c = blank_slot();
    let id = create_channel(&mut c, "general".to_string(), [9u8; 32], 305441741);
    assert_eq!(id, "CHAT-ABCD");
    assert_eq!(c.id, "CHAT-ABCD");
    assert_eq!(c.name, "general");
    assert_eq!(c.creator, [9u8; 32]);
    assert_eq!(c.created_at, 305441741);
    assert!(c.active);
    assert_eq!(c.participant_count, 0);
}

#[test]
fn end_to_end_general_channel() {
    let mut c = blank_slot();
    let id = create_channel(&mut c, "general".to_string(), [3u8; 32], 305441741);
    assert_eq!(id, "CHAT-ABCD");

    let info = join_channel(&mut c).unwrap();
    assert_eq!(info.participant_count, 1);
    assert!(info.active);
    assert_eq!(info.id, "CHAT-ABCD");

    leave_channel(&mut c);
    assert_eq!(c.participant_count, 0);

    let info = get_channel_info(&c);
    assert_eq!(info.participant_count, 0);
    assert!(info.active);
    assert_eq!(info.id, "CHAT-ABCD");
    assert_eq!(info.name, "general");
    assert_eq!(info.creator, [3u8; 32]);
    assert_eq!(info.created_at, 305441741);
}

#[test]
fn leave_at_zero_is_a_no_op() {
    let mut c = fresh("quiet", 10);
    for _ in 0..100 {
        leave_channel(&mut c);
        assert_eq!(c.participant_count, 0);
    }
    assert!(c.active);
}

#[test]
fn leave_ignores_the_active_flag() {
    let mut c = fresh("closing", 10);
    join_channel(&mut c).unwrap();
    join_channel(&mut c).unwrap();
    c.active = false;
    leave_channel(&mut c);
    assert_eq!(c.participant_count, 1);
}

#[test]
fn join_on_inactive_channel_fails() {
    let mut c = fresh("closed", 42);
    join_channel(&mut c).unwrap();
    c.active = false;
    for _ in 0..10 {
        match join_channel(&mut c) {
            Err(e) => assert_eq!(e, ChannelError::ChannelInactive),
            Ok(_) => panic!("join on an inactive channel succeeded"),
        }
        assert_eq!(c.participant_count, 1);
    }
}

#[test]
fn many_joins_are_all_counted() {
    let mut c = fresh("busy", 77);
    let k: u32 = 5000;
    for i in 0..k {
        let info = join_channel(&mut c).unwrap();
        assert_eq!(info.participant_count, i + 1);
    }
    assert_eq!(c.participant_count, k);
    assert_eq!(get_channel_info(&c).participant_count, k);
}

#[test]
fn join_up_to_the_counter_limit() {
    let mut c = fresh("full", 1);
    c.participant_count = u32::MAX - 1;
    let info = join_channel(&mut c).unwrap();
    assert_eq!(info.participant_count, u32::MAX);
}

#[test]
fn fixed_fields_survive_joins_and_leaves() {
    let mut c = fresh("lobby", 1_650_000_000);
    for round in 0..50u32 {
        join_channel(&mut c).unwrap();
        if round % 3 == 0 {
            leave_channel(&mut c);
        }
        let info = get_channel_info(&c);
        assert_eq!(info.name, "lobby");
        assert_eq!(info.creator, [7u8; 32]);
        assert_eq!(info.created_at, 1_650_000_000);
        assert_eq!(info.id, generate_channel_id(&1_650_000_000));
        assert!(info.active);
    }
    assert_eq!(c.participant_count, 50 - 17);
}

#[test]
fn reserved_errors_are_distinct() {
    assert_ne!(ChannelError::ChannelFull, ChannelError::ChannelInactive);
    assert_ne!(ChannelError::Unauthorized, ChannelError::ChannelInactive);
    assert_ne!(ChannelError::Unauthorized, ChannelError::ChannelFull);
}
