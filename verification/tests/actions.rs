use oadiscord::actions::{
    update_voice_setting, PushToMuteAction, PushToTalkAction, ToggleDeafenAction,
    ToggleMuteAction, UpdateFeedback, PUSH_TO_MUTE_UUID, PUSH_TO_TALK_UUID, TOGGLE_DEAFEN_UUID,
    TOGGLE_MUTE_UUID,
};
use oadiscord::rpc_events::{action_state_index, apply_voice_state, VoiceSync};

#[test]
fn toggle_mute_two_releases_return_to_start() {
    let first = ToggleMuteAction.key_up(0);
    assert_eq!(first.args.mute, Some(true));
    assert_eq!(first.args.deaf, None);
    assert_eq!(first.next_state, 1);
    let second = ToggleMuteAction.key_up(first.next_state);
    assert_eq!(second.args.mute, Some(false));
    assert_eq!(second.next_state, 0);
}

#[test]
fn toggle_deafen_two_releases_return_to_start() {
    let first = ToggleDeafenAction.key_up(0);
    assert_eq!(first.args.deaf, Some(true));
    assert_eq!(first.args.mute, None);
    assert_eq!(first.next_state, 1);
    let second = ToggleDeafenAction.key_up(first.next_state);
    assert_eq!(second.args.deaf, Some(false));
    assert_eq!(second.next_state, 0);
}

#[test]
fn push_to_mute_press_then_release() {
    let down = PushToMuteAction.key_down();
    assert_eq!(down.args.mute, Some(true));
    assert_eq!(down.next_state, 1);
    let up = PushToMuteAction.key_up();
    assert_eq!(up.args.mute, Some(false));
    assert_eq!(up.next_state, 0);
}

#[test]
fn push_to_talk_press_then_release() {
    let down = PushToTalkAction.key_down();
    assert_eq!(down.args.mute, Some(false));
    assert_eq!(down.next_state, 1);
    let up = PushToTalkAction.key_up();
    assert_eq!(up.args.mute, Some(true));
    assert_eq!(up.next_state, 0);
}

#[test]
fn voice_sync_defaults_to_inactive() {
    let sync = apply_voice_state(None, None);
    assert_eq!(sync, VoiceSync { mute: false, deaf: false });
    assert_eq!(action_state_index(sync.mute), 0);
    assert_eq!(action_state_index(sync.deaf), 0);
    let sync = apply_voice_state(Some(true), None);
    assert_eq!(sync, VoiceSync { mute: true, deaf: false });
    assert_eq!(action_state_index(sync.mute), 1);
}

#[test]
fn update_path_feedback() {
    assert_eq!(update_voice_setting(false, false, 1), UpdateFeedback::ShowAlert);
    assert_eq!(update_voice_setting(true, true, 1), UpdateFeedback::SetState(1));
    assert_eq!(update_voice_setting(true, false, 1), UpdateFeedback::ShowAlert);
}

#[test]
fn action_identifiers_are_distinct() {
    let ids = [
        TOGGLE_MUTE_UUID,
        TOGGLE_DEAFEN_UUID,
        PUSH_TO_MUTE_UUID,
        PUSH_TO_TALK_UUID,
    ];
    for (i, a) in ids.iter().enumerate() {
        assert!(a.starts_with("me.amankhanna.oadiscord."));
        for b in ids.iter().skip(i + 1) {
            assert_ne!(a, b);
        }
    }
}
