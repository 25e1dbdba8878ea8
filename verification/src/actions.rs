//! The four voice toggle actions, each a two-state machine driven by
//! physical press and release, and the single chokepoint that decides the
//! visual feedback for a voice command.
//!
//! Each action computes the voice-setting change to request and the visual
//! state to show on success; the unverified shell sends the change on the
//! connection and renders the feedback.

use vstd::prelude::*;

verus! {

/// The command identifier under which the host registers each action.
pub const TOGGLE_MUTE_UUID: &'static str = "me.amankhanna.oadiscord.togglemute";

pub const TOGGLE_DEAFEN_UUID: &'static str = "me.amankhanna.oadiscord.toggledeafen";

pub const PUSH_TO_MUTE_UUID: &'static str = "me.amankhanna.oadiscord.pushtomute";

pub const PUSH_TO_TALK_UUID: &'static str = "me.amankhanna.oadiscord.pushtotalk";

/// A requested voice-setting change: at most one of the two flags is set.
#[derive(Clone, Copy, Debug, PartialEq, Eq)]
pub struct VoiceSettingsArgs {
    pub mute: Option<bool>,
    pub deaf: Option<bool>,
}

/// What one press or release asks for: a voice-setting change to send, and
/// the visual state to show once the send succeeds.
#[derive(Clone, Copy, Debug, PartialEq, Eq)]
pub struct ToggleRequest {
    pub args: VoiceSettingsArgs,
    pub next_state: u16,
}

/// A release of the mute toggle flips the current visual state: it requests
/// mute exactly when the control shows inactive.
pub open spec fn spec_toggle_mute(current_state: u16) -> ToggleRequest {
    let new_mute = current_state == 0;
    ToggleRequest {
        args: VoiceSettingsArgs { mute: Some(new_mute), deaf: None },
        next_state: if new_mute {
            1u16
        } else {
            0u16
        },
    }
}

/// A release of the deafen toggle flips the current visual state: it
/// requests deafen exactly when the control shows inactive.
pub open spec fn spec_toggle_deafen(current_state: u16) -> ToggleRequest {
    let new_deaf = current_state == 0;
    ToggleRequest {
        args: VoiceSettingsArgs { mute: None, deaf: Some(new_deaf) },
        next_state: if new_deaf {
            1u16
        } else {
            0u16
        },
    }
}

/// A held-edge request: the given mute value while showing the given state.
pub open spec fn spec_push_request(mute: bool, next_state: u16) -> ToggleRequest {
    ToggleRequest { args: VoiceSettingsArgs { mute: Some(mute), deaf: None }, next_state }
}

/// Toggle Mute: release flips the visual state and requests the matching
/// mute value.
pub struct ToggleMuteAction;

impl ToggleMuteAction {
    pub fn key_up(&self, current_state: u16) -> (r: ToggleRequest)
        ensures
            r == spec_toggle_mute(current_state),
    {
        let new_mute = current_state == 0;
        ToggleRequest {
            args: VoiceSettingsArgs { mute: Some(new_mute), deaf: None },
            next_state: if new_mute {
                1
            } else {
                0
            },
        }
    }
}

/// Toggle Deafen: release flips the visual state and requests the matching
/// deafen value.
pub struct ToggleDeafenAction;

impl ToggleDeafenAction {
    pub fn key_up(&self, current_state: u16) -> (r: ToggleRequest)
        ensures
            r == spec_toggle_deafen(current_state),
    {
        let new_deaf = current_state == 0;
        ToggleRequest {
            args: VoiceSettingsArgs { mute: None, deaf: Some(new_deaf) },
            next_state: if new_deaf {
                1
            } else {
                0
            },
        }
    }
}

/// Push-to-Mute: muted while held, unmuted on release.
pub struct PushToMuteAction;

impl PushToMuteAction {
    pub fn key_down(&self) -> (r: ToggleRequest)
        ensures
            r == spec_push_request(true, 1u16),
    {
        ToggleRequest { args: VoiceSettingsArgs { mute: Some(true), deaf: None }, next_state: 1 }
    }

    pub fn key_up(&self) -> (r: ToggleRequest)
        ensures
            r == spec_push_request(false, 0u16),
    {
        ToggleRequest { args: VoiceSettingsArgs { mute: Some(false), deaf: None }, next_state: 0 }
    }
}

/// Push-to-Talk: unmuted while held, muted on release.
pub struct PushToTalkAction;

impl PushToTalkAction {
    pub fn key_down(&self) -> (r: ToggleRequest)
        ensures
            r == spec_push_request(false, 1u16),
    {
        ToggleRequest { args: VoiceSettingsArgs { mute: Some(false), deaf: None }, next_state: 1 }
    }

    pub fn key_up(&self) -> (r: ToggleRequest)
        ensures
            r == spec_push_request(true, 0u16),
    {
        ToggleRequest { args: VoiceSettingsArgs { mute: Some(true), deaf: None }, next_state: 0 }
    }
}

/// The visual feedback the chokepoint decides for one voice command.
#[derive(Clone, Copy, Debug, PartialEq, Eq)]
pub enum UpdateFeedback {
    /// No connection, or the send failed: show a transient alert and leave
    /// the visual state unchanged.
    ShowAlert,
    /// The send succeeded: show this visual state immediately.
    SetState(u16),
}

/// The single chokepoint for voice command feedback: without a connection
/// the invoking control shows an alert (a normal not-ready condition);
/// otherwise a successful send shows the requested state at once, and a
/// failed send shows an alert with the state unchanged.
pub fn update_voice_setting(connected: bool, send_ok: bool, next_state: u16) -> (r:
    UpdateFeedback)
    ensures
        !connected ==> r == UpdateFeedback::ShowAlert,
        connected && send_ok ==> r == UpdateFeedback::SetState(next_state),
        connected && !send_ok ==> r == UpdateFeedback::ShowAlert,
{
    if !connected {
        UpdateFeedback::ShowAlert
    } else if send_ok {
        UpdateFeedback::SetState(next_state)
    } else {
        UpdateFeedback::ShowAlert
    }
}

/// Toggle symmetry: two consecutive releases of a toggle action return the
/// visual state to where it began, passing through its flip, and the second
/// request undoes the first.
pub proof fn lemma_toggle_round_trip(s: u16)
    requires
        s == 0 || s == 1,
    ensures
        spec_toggle_mute(s).next_state == (if s == 0 {
            1u16
        } else {
            0u16
        }),
        spec_toggle_mute(spec_toggle_mute(s).next_state).next_state == s,
        spec_toggle_mute(spec_toggle_mute(s).next_state).args.mute == Some(s != 0),
        spec_toggle_deafen(spec_toggle_deafen(s).next_state).next_state == s,
{
}

} // verus!
