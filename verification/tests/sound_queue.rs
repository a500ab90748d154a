use refbox::sound::{BuzzerSound, RemoteId, RemoteInfo, SoundSettings};
use refbox::sound_queue::{
    plan_sound, Clip, MessageEffect, SoundAction, SoundId, SoundMessage, SoundQueue,
};

fn settings_with_remote(id: u32, sound: Option<BuzzerSound>) -> SoundSettings {
    let mut s = SoundSettings::default();
    s.remotes.push(RemoteInfo {
        id: RemoteId(id),
        sound,
    });
    s
}

#[test]
fn a_triggered_buzzer_starts_with_a_flash_and_stops_when_it_ends() {
    let settings = SoundSettings::default();
    let mut q = SoundQueue::new();
    assert_eq!(q.on_message(SoundMessage::TriggerBuzzer, &settings.remotes), MessageEffect::NoEffect);
    let action = q.next_action(&settings);
    assert_eq!(action.stop, None);
    let plan = action.start.unwrap();
    assert_eq!(plan.id, SoundId::AutoBuzzer);
    assert_eq!(plan.clip, Clip::Buzzer(BuzzerSound::Buzz));
    assert!(plan.repeat && plan.timed && plan.flash && !plan.whistle_volumes);
    assert_eq!(q.playing(), Some(SoundId::AutoBuzzer));

    // Nothing changes while it plays.
    assert_eq!(q.next_action(&settings), SoundAction { stop: None, start: None });

    q.on_sound_ended(SoundId::AutoBuzzer);
    assert_eq!(
        q.next_action(&settings),
        SoundAction {
            stop: Some(SoundId::AutoBuzzer),
            start: None
        }
    );
    assert_eq!(q.playing(), None);
}

#[test]
fn repeated_requests_queue_once() {
    let settings = SoundSettings::default();
    let mut q = SoundQueue::new();
    q.on_message(SoundMessage::TriggerWhistle, &settings.remotes);
    q.on_message(SoundMessage::TriggerWhistle, &settings.remotes);
    q.on_message(SoundMessage::TriggerBuzzer, &settings.remotes);
    assert_eq!(q.queued().clone(), vec![SoundId::Whistle, SoundId::AutoBuzzer]);
}

#[test]
fn the_manual_alarm_jumps_the_queue() {
    let settings = SoundSettings::default();
    let mut q = SoundQueue::new();
    q.on_message(SoundMessage::TriggerWhistle, &settings.remotes);
    let first = q.next_action(&settings);
    assert_eq!(first.start.unwrap().clip, Clip::Whistle);
    assert!(first.start.unwrap().whistle_volumes);

    q.on_message(SoundMessage::StartManualBuzzer, &settings.remotes);
    assert_eq!(q.queued()[0], SoundId::ManualAlarm);
    let switch = q.next_action(&settings);
    assert_eq!(switch.stop, Some(SoundId::Whistle));
    let plan = switch.start.unwrap();
    assert_eq!(plan.id, SoundId::ManualAlarm);
    // Switching away from the whistle flashes the display.
    assert!(plan.flash);
    assert!(!plan.timed);

    q.on_message(SoundMessage::StopManualBuzzer, &settings.remotes);
    assert!(!q.queued().contains(&SoundId::ManualAlarm));
    let back = q.next_action(&settings);
    assert_eq!(back.stop, Some(SoundId::ManualAlarm));
    let plan = back.start.unwrap();
    assert_eq!(plan.id, SoundId::Whistle);
    assert!(!plan.flash);
}

#[test]
fn wireless_buttons_need_a_known_remote() {
    let settings = settings_with_remote(7, Some(BuzzerSound::Siren));
    let mut q = SoundQueue::new();
    assert_eq!(
        q.on_message(SoundMessage::WirelessRemoteReceived(RemoteId(8)), &settings.remotes),
        MessageEffect::NoEffect
    );
    assert!(q.queued().is_empty());
    assert_eq!(
        q.on_message(SoundMessage::WirelessRemoteReceived(RemoteId(7)), &settings.remotes),
        MessageEffect::ArmButtonTimer(RemoteId(7))
    );
    let plan = q.next_action(&settings).start.unwrap();
    assert_eq!(plan.clip, Clip::Buzzer(BuzzerSound::Siren));

    let plain = settings_with_remote(9, None);
    let p = plan_sound(SoundId::WirelessButton(RemoteId(9)), &plain, false).unwrap();
    assert_eq!(p.clip, Clip::Buzzer(plain.buzzer_sound));
    assert_eq!(plan_sound(SoundId::WirelessButton(RemoteId(1)), &plain, false), None);
}

#[test]
fn reloading_the_output_stops_the_playing_sound_and_keeps_the_queue() {
    let settings = SoundSettings::default();
    let mut q = SoundQueue::new();
    q.on_message(SoundMessage::TestBuzzer(BuzzerSound::Pip), &settings.remotes);
    q.next_action(&settings);
    assert_eq!(
        q.on_message(SoundMessage::ReloadAudioOutput, &settings.remotes),
        MessageEffect::ReloadOutput(Some(SoundId::TestBuzzer(BuzzerSound::Pip)))
    );
    assert_eq!(q.playing(), None);
    let again = q.next_action(&settings).start.unwrap();
    assert_eq!(again.clip, Clip::Buzzer(BuzzerSound::Pip));
    assert!(!again.flash);
}
