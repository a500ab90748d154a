use refbox::sound::{
    decode_remote_packet, identify_pulse, BuzzerSound, OldRemote, OldSoundSettings, PinDebounce,
    PulseType, RemoteId, RemoteInfo, SendableOperation, SoundSettings, Volume,
    REMOTE_PACKET_LEN, STABLE_READINGS,
};

fn smbus(bytes: &[u8]) -> u8 {
    crc::Crc::<u8, crc::NoTable>::new(&crc::CRC_8_SMBUS).checksum(bytes)
}

#[test]
fn test_migrate_sound_settings() {
    let old = OldSoundSettings {
        sound_enabled: Some(false),
        whistle_enabled: Some(false),
        buzzer_sound: Some("Buzz".into()),
        whistle_vol: Some("Low".into()),
        above_water_vol: Some("Medium".into()),
        under_water_vol: Some("Medium".into()),
        auto_sound_start_play: Some(false),
        auto_sound_stop_play: Some(false),
        manual_alarm_enabled: None,
        remotes: Some(vec![
            OldRemote {
                id: Some(1),
                sound: Some("Buzz".into()),
            },
            OldRemote {
                id: Some(2),
                sound: Some("DeDeDu".into()),
            },
        ]),
    };
    let settings = SoundSettings::migrate(&old);
    assert!(!settings.sound_enabled);
    assert!(!settings.whistle_enabled);
    assert_eq!(settings.buzzer_sound, BuzzerSound::Buzz);
    assert_eq!(settings.whistle_vol, Volume::Low);
    assert_eq!(settings.above_water_vol, Volume::Medium);
    assert_eq!(settings.under_water_vol, Volume::Medium);
    assert!(!settings.auto_sound_start_play);
    assert!(!settings.auto_sound_stop_play);
    assert!(!settings.manual_alarm_enabled);
    assert_eq!(
        settings.remotes,
        vec![
            RemoteInfo {
                id: RemoteId(1),
                sound: Some(BuzzerSound::Buzz),
            },
            RemoteInfo {
                id: RemoteId(2),
                sound: Some(BuzzerSound::DeDeDu),
            },
        ]
    );
}

#[test]
fn migrate_of_an_empty_table_is_the_default() {
    let settings = SoundSettings::migrate(&OldSoundSettings::default());
    assert_eq!(settings, SoundSettings::default());
    assert_eq!(settings.whistle_vol, Volume::Medium);
    assert_eq!(settings.above_water_vol, Volume::Max);
}

#[test]
fn all_buzzer_sounds_round_trip_via_their_names() {
    for sound in BuzzerSound::all() {
        let name = format!("{sound:?}");
        assert_eq!(BuzzerSound::from_name(&name), Some(sound));
    }
    assert_eq!(BuzzerSound::from_name("NotASound"), None);
    assert_eq!(BuzzerSound::default(), BuzzerSound::Buzz);
}

#[test]
fn volume_names_parse() {
    assert_eq!(Volume::from_name("Off"), Some(Volume::Off));
    assert_eq!(Volume::from_name("High"), Some(Volume::High));
    assert_eq!(Volume::from_name("loud"), None);
}

#[test]
fn remote_id_is_shown_in_base58() {
    assert_eq!(RemoteId(1).display_text(), "1112");
    let id = RemoteId(0x1234_5678);
    assert_eq!(
        id.display_text(),
        bs58::encode(0x1234_5678u32.to_be_bytes()).into_string()
    );
    assert_ne!(RemoteId(2).display_text(), RemoteId(1).display_text());
}

#[test]
fn a_packet_with_a_good_checksum_names_its_remote() {
    let head = [0x00, 0x01, 0x02, 0x03];
    let crc = smbus(&head);
    let packet = [head[0], head[1], head[2], head[3], crc];
    assert_eq!(packet.len(), REMOTE_PACKET_LEN);
    assert_eq!(decode_remote_packet(&packet), Some(RemoteId(0x0001_0203)));
}

#[test]
fn a_packet_with_a_bad_checksum_or_length_is_ignored() {
    let head = [0xde, 0xad, 0xbe, 0xef];
    let crc = smbus(&head);
    let packet = [head[0], head[1], head[2], head[3], crc.wrapping_add(1)];
    assert_eq!(decode_remote_packet(&packet), None);
    assert_eq!(decode_remote_packet(&head), None);
    let mut long = packet.to_vec();
    long[4] = crc;
    long.push(0);
    assert_eq!(decode_remote_packet(&long), None);
}

#[test]
fn pulses_are_classified_by_length() {
    assert_eq!(identify_pulse(200), Some(PulseType::Short));
    assert_eq!(identify_pulse(500), Some(PulseType::Short));
    assert_eq!(identify_pulse(501), None);
    assert_eq!(identify_pulse(1000), Some(PulseType::Long));
    assert_eq!(identify_pulse(10_000), Some(PulseType::Preamble));
    assert_eq!(identify_pulse(12_001), None);
}

#[test]
fn a_pin_is_stable_after_ten_equal_readings() {
    let mut pin = PinDebounce::default();
    for _ in 0..STABLE_READINGS - 1 {
        pin.observe(false);
        assert!(!pin.stable);
    }
    pin.observe(false);
    assert!(pin.stable);
    pin.observe(true);
    assert!(!pin.stable);
    assert_eq!(pin.stable_count, 0);
}

#[test]
fn set_delay_changes_only_the_delay() {
    let mut op = SendableOperation::Read {
        count: 3,
        index: 1,
        delay: 0,
    };
    op.set_delay(250);
    assert_eq!(op.delay(), 250);
    assert!(matches!(
        op,
        SendableOperation::Read {
            count: 3,
            index: 1,
            delay: 250
        }
    ));
}
