use sonetto_core::error::AppError;
use sonetto_core::packet::CmdId;
use sonetto_core::packet::CommandPacket;
use sonetto_core::registry::SessionRegistry;
use sonetto_core::session::ConnectionContext;

#[test]
fn reply_repeats_the_up_tag_whatever_the_code() {
    let mut session = ConnectionContext::new();
    for (i, code) in [0i16, 1, -1, 401, i16::MIN].into_iter().enumerate() {
        let up_tag = 37u8.wrapping_mul(i as u8 + 1);
        match session.send_reply(CmdId(5), vec![1, 2], code, up_tag) {
            CommandPacket::Reply { cmd_id, body, result_code, up_tag: echoed, down_tag } => {
                assert_eq!(cmd_id, CmdId(5));
                assert_eq!(body, vec![1, 2]);
                assert_eq!(result_code, code);
                assert_eq!(echoed, up_tag);
                assert_eq!(down_tag, i as u8);
            }
            CommandPacket::Push { .. } => panic!("a reply was asked for"),
        }
    }
}

#[test]
fn down_tags_count_up_and_wrap() {
    let mut session = ConnectionContext::new();
    for expected in 0..=255u8 {
        assert_eq!(session.next_down_tag(), expected);
    }
    assert_eq!(session.next_down_tag(), 0);
    assert_eq!(session.send_push(CmdId(1), Vec::new()).down_tag(), 1);
    assert_eq!(session.send_empty_reply(CmdId(1), 0, 3).down_tag(), 2);
    assert_eq!(session.send_raw_reply_fixed(CmdId(1), vec![7], 1, 3).down_tag(), 3);
}

#[test]
fn push_carries_the_payload() {
    let mut session = ConnectionContext::new();
    match session.send_push(CmdId(77), vec![4, 5, 6]) {
        CommandPacket::Push { cmd_id, body, down_tag } => {
            assert_eq!(cmd_id, CmdId(77));
            assert_eq!(body, vec![4, 5, 6]);
            assert_eq!(down_tag, 0);
        }
        CommandPacket::Reply { .. } => panic!("a push was asked for"),
    }
}

#[test]
fn state_pushes_are_due_once_per_epoch() {
    let mut session = ConnectionContext::new();
    assert!(session.check_and_mark_state_pushes());
    assert!(!session.check_and_mark_state_pushes());
    assert!(!session.check_and_mark_state_pushes());
    session.bind_identity(1337).unwrap();
    assert!(session.check_and_mark_state_pushes());
    assert!(!session.check_and_mark_state_pushes());
}

#[test]
fn identity_is_bound_once() {
    let mut session = ConnectionContext::new();
    assert_eq!(session.player_id(), None);
    assert_eq!(session.require_player(), Err(AppError::NotLoggedIn));
    assert_eq!(session.bind_identity(1337), Ok(()));
    assert_eq!(session.player_id(), Some(1337));
    assert_eq!(session.require_player(), Ok(1337));
    assert_eq!(session.bind_identity(1337), Ok(()));
    assert_eq!(
        session.bind_identity(42),
        Err(AppError::Custom("Connection is bound to another player".to_string()))
    );
    assert_eq!(session.player_id(), Some(1337));
}

#[test]
fn last_registration_wins() {
    let mut registry: SessionRegistry<u32> = SessionRegistry::new();
    assert_eq!(registry.lookup(7), None);
    assert_eq!(registry.register(7, 100), None);
    assert_eq!(registry.register(8, 300), None);
    assert_eq!(registry.register(7, 200), Some(100));
    assert_eq!(registry.lookup(7), Some(&200));
    assert_eq!(registry.lookup(8), Some(&300));
    assert_eq!(registry.len(), 2);
}

#[test]
fn unregister_forgets_the_player() {
    let mut registry: SessionRegistry<u32> = SessionRegistry::new();
    registry.register(7, 100);
    assert_eq!(registry.unregister(7), Some(100));
    assert_eq!(registry.lookup(7), None);
    assert_eq!(registry.unregister(7), None);
    assert_eq!(registry.len(), 0);
}

#[test]
fn evicted_session_removes_nothing_when_it_closes() {
    let mut registry: SessionRegistry<u32> = SessionRegistry::new();
    let mut first = ConnectionContext::new();
    let mut second = ConnectionContext::new();
    assert_eq!(first.mark_registered(), None);
    assert_eq!(first.close(), None);
    first.bind_identity(7).unwrap();
    second.bind_identity(7).unwrap();
    assert_eq!(first.mark_registered(), Some(7));
    assert_eq!(registry.register(7, 1), None);
    assert_eq!(second.mark_registered(), Some(7));
    assert_eq!(registry.register(7, 2), Some(1));
    first.mark_evicted();
    assert_eq!(first.close(), None);
    assert_eq!(registry.lookup(7), Some(&2));
    assert_eq!(second.close(), Some(7));
    assert_eq!(second.close(), None);
    assert_eq!(registry.unregister(7), Some(2));
    assert_eq!(registry.lookup(7), None);
}
