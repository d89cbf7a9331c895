use oxibridge::minicord::{
    authorization, endpoint_url, gateway_step, identify_payload, APIResponse, CloseEventCode,
    Event, GatewayAction, Opcode, Snowflake, User, WebhookKind, RELAY_INTENTS,
};

fn all_close_codes() -> Vec<(CloseEventCode, u16, bool)> {
    vec![
        (CloseEventCode::UnknownError, 4000, true),
        (CloseEventCode::UnknownOpcode, 4001, true),
        (CloseEventCode::DecodeError, 4002, true),
        (CloseEventCode::NotAuthenticated, 4003, true),
        (CloseEventCode::AuthenticationFailed, 4004, false),
        (CloseEventCode::AlreadyAuthenticated, 4005, true),
        (CloseEventCode::InvalidSequence, 4007, true),
        (CloseEventCode::RateLimited, 4008, true),
        (CloseEventCode::SessionTimedOut, 4009, true),
        (CloseEventCode::InvalidShard, 4010, false),
        (CloseEventCode::ShardingRequired, 4011, false),
        (CloseEventCode::InvalidAPIVersion, 4012, false),
        (CloseEventCode::InvalidIntents, 4013, false),
        (CloseEventCode::DisallowedIntents, 4014, false),
    ]
}

#[test]
fn close_codes_say_whether_to_reconnect() {
    for (code, number, reconnect) in all_close_codes() {
        assert_eq!(code.reconnect(), reconnect, "for {code:?}");
        assert_eq!(code.code(), number);
        assert_eq!(CloseEventCode::from_code(number), Some(code));
    }
    assert_eq!(CloseEventCode::from_code(4006), None);
    assert_eq!(CloseEventCode::from_code(0), None);
    assert_eq!(CloseEventCode::from_code(4015), None);
}

#[test]
fn opcodes_have_their_numbers() {
    let all = [
        (Opcode::Dispatch, 0),
        (Opcode::Heartbeat, 1),
        (Opcode::Identify, 2),
        (Opcode::PresenceUpdate, 3),
        (Opcode::VoiceStateUpdate, 4),
        (Opcode::Resume, 6),
        (Opcode::Reconnect, 7),
        (Opcode::RequestGuildMembers, 8),
        (Opcode::InvalidSession, 9),
        (Opcode::Hello, 10),
        (Opcode::HeartbeatAck, 11),
        (Opcode::RequestSoundboardSounds, 31),
    ];
    for (opcode, number) in all {
        assert_eq!(opcode.code(), number);
        assert_eq!(Opcode::from_code(number), Some(opcode));
    }
    assert_eq!(Opcode::from_code(5), None);
    assert_eq!(Opcode::from_code(12), None);
    assert_eq!(WebhookKind::from_code(1), Some(WebhookKind::Incoming));
    assert_eq!(WebhookKind::from_code(2), Some(WebhookKind::ChannelFollower));
    assert_eq!(WebhookKind::from_code(3), Some(WebhookKind::Application));
    assert_eq!(WebhookKind::from_code(0), None);
    assert_eq!(WebhookKind::Application.code(), 3);
}

#[test]
fn snowflakes_are_decimal_numerals() {
    assert_eq!(Snowflake::from_u64(0).0, "0");
    assert_eq!(Snowflake::from_u64(1234567890123456789).0, "1234567890123456789");
    assert_eq!(Snowflake("1234567890123456789".to_owned()).to_u64(), Some(1234567890123456789));
    assert_eq!(Snowflake("x".to_owned()).to_u64(), None);
    assert_eq!(Snowflake("99999999999999999999".to_owned()).to_u64(), None);
    assert_eq!(Snowflake::from_u64(u64::MAX).to_u64(), Some(u64::MAX));
}

#[test]
fn gateway_frames_are_answered_by_the_rule() {
    assert_eq!(gateway_step(Opcode::Hello, true, None), GatewayAction::SendIdentify);
    assert_eq!(gateway_step(Opcode::Hello, false, None), GatewayAction::Ignore);
    assert_eq!(
        gateway_step(Opcode::Dispatch, true, Some(Event::Ready)),
        GatewayAction::ForwardReady
    );
    assert_eq!(gateway_step(Opcode::Dispatch, false, Some(Event::Ready)), GatewayAction::Ignore);
    assert_eq!(gateway_step(Opcode::Dispatch, true, None), GatewayAction::Ignore);
    assert_eq!(gateway_step(Opcode::Heartbeat, true, Some(Event::Ready)), GatewayAction::Ignore);
    assert_eq!(gateway_step(Opcode::HeartbeatAck, true, None), GatewayAction::Ignore);
}

#[test]
fn identify_payload_names_the_relay() {
    let payload = identify_payload("secret");
    assert_eq!(payload.token, "secret");
    assert_eq!(payload.properties.os, "linux");
    assert_eq!(payload.properties.browser, "minicord");
    assert_eq!(payload.properties.device, "minicord");
    assert_eq!(payload.intents, 1 << 9 | 1 << 15);
    assert_eq!(RELAY_INTENTS, 33280);
}

#[test]
fn requests_are_addressed_and_signed() {
    assert_eq!(endpoint_url("users/@me"), "https://discord.com/api/v10/users/@me");
    assert_eq!(authorization("abc"), "Bot abc");
}

#[test]
fn answers_and_users() {
    assert_eq!(APIResponse::Success(3).success(), Some(3));
    let error: APIResponse<u8> = APIResponse::Error { code: 50035, message: "bad".to_owned() };
    assert_eq!(error.success(), None);
    let mut user = User {
        id: Snowflake::from_u64(1),
        username: "u".to_owned(),
        discriminator: "0".to_owned(),
        global_name: None,
        avatar: None,
        bot: None,
        system: None,
        banner: None,
        accent_color: None,
        primary_guild: None,
    };
    assert!(!user.automated());
    user.bot = Some(false);
    assert!(!user.automated());
    user.system = Some(true);
    assert!(user.automated());
    user.system = None;
    user.bot = Some(true);
    assert!(user.automated());
}
