//! Sound settings and the decisions of the button and remote handling:
//! volumes and buzzer sounds by name, the wireless remote's packet, the wired
//! remote's pulse lengths, and the debouncing of the rotary switch.

use vstd::prelude::*;

verus! {

/// A volume step.
#[derive(Debug, Clone, Copy, PartialEq, Eq, Structural)]
pub enum Volume {
    Off,
    Low,
    Medium,
    High,
    Max,
}

impl Volume {
    pub open spec fn name(self) -> Seq<char> {
        match self {
            Volume::Off => "Off"@,
            Volume::Low => "Low"@,
            Volume::Medium => "Medium"@,
            Volume::High => "High"@,
            Volume::Max => "Max"@,
        }
    }

    /// The volume a name stands for: the variant whose name it is.
    pub open spec fn named(s: Seq<char>) -> Option<Volume> {
        if s == "Off"@ {
            Some(Volume::Off)
        } else if s == "Low"@ {
            Some(Volume::Low)
        } else if s == "Medium"@ {
            Some(Volume::Medium)
        } else if s == "High"@ {
            Some(Volume::High)
        } else if s == "Max"@ {
            Some(Volume::Max)
        } else {
            None
        }
    }

    /// The volume with this exact variant name, if any.
    pub fn from_name(s: &str) -> (r: Option<Volume>)
        ensures
            r == Volume::named(s@),
    {
        if str_is(s, "Off") {
            Some(Volume::Off)
        } else if str_is(s, "Low") {
            Some(Volume::Low)
        } else if str_is(s, "Medium") {
            Some(Volume::Medium)
        } else if str_is(s, "High") {
            Some(Volume::High)
        } else if str_is(s, "Max") {
            Some(Volume::Max)
        } else {
            None
        }
    }
}

impl Default for Volume {
    fn default() -> (r: Volume)
        ensures
            r == Volume::Max,
    {
        Volume::Max
    }
}

/// Whether two strings hold the same characters.
pub fn str_is(s: &str, lit: &str) -> (r: bool)
    ensures
        r == (s@ == lit@),
{
    let a = String::from_str(s);
    let b = String::from_str(lit);
    a == b
}

/// The buzzer sounds, in picker display order.
#[derive(Debug, Clone, Copy, PartialEq, Eq, PartialOrd, Ord, Structural)]
pub enum BuzzerSound {
    Buzz,
    Whoop,
    Crazy,
    DeDeDu,
    TwoTone,
    Airhorn,
    Pipes,
    Klaxon,
    Pip,
    Pulse,
    Siren,
    Trill,
}

/// All buzzer sounds, in picker display order.
pub open spec fn all_buzzer_sounds() -> Seq<BuzzerSound> {
    seq![
        BuzzerSound::Buzz,
        BuzzerSound::Whoop,
        BuzzerSound::Crazy,
        BuzzerSound::DeDeDu,
        BuzzerSound::TwoTone,
        BuzzerSound::Airhorn,
        BuzzerSound::Pipes,
        BuzzerSound::Klaxon,
        BuzzerSound::Pip,
        BuzzerSound::Pulse,
        BuzzerSound::Siren,
        BuzzerSound::Trill,
    ]
}

impl BuzzerSound {
    /// The variant name, as settings files store it.
    pub open spec fn name(self) -> Seq<char> {
        match self {
            BuzzerSound::Buzz => "Buzz"@,
            BuzzerSound::Whoop => "Whoop"@,
            BuzzerSound::Crazy => "Crazy"@,
            BuzzerSound::DeDeDu => "DeDeDu"@,
            BuzzerSound::TwoTone => "TwoTone"@,
            BuzzerSound::Airhorn => "Airhorn"@,
            BuzzerSound::Pipes => "Pipes"@,
            BuzzerSound::Klaxon => "Klaxon"@,
            BuzzerSound::Pip => "Pip"@,
            BuzzerSound::Pulse => "Pulse"@,
            BuzzerSound::Siren => "Siren"@,
            BuzzerSound::Trill => "Trill"@,
        }
    }

    /// The name shown to the operator.
    pub open spec fn title(self) -> Seq<char> {
        match self {
            BuzzerSound::Buzz => "Buzz"@,
            BuzzerSound::Whoop => "Whoop"@,
            BuzzerSound::Crazy => "Crazy"@,
            BuzzerSound::DeDeDu => "De De Du"@,
            BuzzerSound::TwoTone => "Two Tone"@,
            BuzzerSound::Airhorn => "Airhorn"@,
            BuzzerSound::Pipes => "Pipes"@,
            BuzzerSound::Klaxon => "Klaxon"@,
            BuzzerSound::Pip => "Pip"@,
            BuzzerSound::Pulse => "Pulse"@,
            BuzzerSound::Siren => "Siren"@,
            BuzzerSound::Trill => "Trill"@,
        }
    }

    /// All buzzer sounds, in picker display order (the classic ones first).
    pub fn all() -> (r: [BuzzerSound; 12])
        ensures
            r@ == all_buzzer_sounds(),
    {
        let r = [
            BuzzerSound::Buzz,
            BuzzerSound::Whoop,
            BuzzerSound::Crazy,
            BuzzerSound::DeDeDu,
            BuzzerSound::TwoTone,
            BuzzerSound::Airhorn,
            BuzzerSound::Pipes,
            BuzzerSound::Klaxon,
            BuzzerSound::Pip,
            BuzzerSound::Pulse,
            BuzzerSound::Siren,
            BuzzerSound::Trill,
        ];
        assert(r@ =~= all_buzzer_sounds());
        r
    }

    /// The name shown to the operator.
    pub fn display_name(self) -> (r: &'static str)
        ensures
            r@ == self.title(),
    {
        match self {
            BuzzerSound::Buzz => "Buzz",
            BuzzerSound::Whoop => "Whoop",
            BuzzerSound::Crazy => "Crazy",
            BuzzerSound::DeDeDu => "De De Du",
            BuzzerSound::TwoTone => "Two Tone",
            BuzzerSound::Airhorn => "Airhorn",
            BuzzerSound::Pipes => "Pipes",
            BuzzerSound::Klaxon => "Klaxon",
            BuzzerSound::Pip => "Pip",
            BuzzerSound::Pulse => "Pulse",
            BuzzerSound::Siren => "Siren",
            BuzzerSound::Trill => "Trill",
        }
    }

    /// The sound a name stands for: the variant whose name it is.
    pub open spec fn named(s: Seq<char>) -> Option<BuzzerSound> {
        if s == "Buzz"@ {
            Some(BuzzerSound::Buzz)
        } else if s == "Whoop"@ {
            Some(BuzzerSound::Whoop)
        } else if s == "Crazy"@ {
            Some(BuzzerSound::Crazy)
        } else if s == "DeDeDu"@ {
            Some(BuzzerSound::DeDeDu)
        } else if s == "TwoTone"@ {
            Some(BuzzerSound::TwoTone)
        } else if s == "Airhorn"@ {
            Some(BuzzerSound::Airhorn)
        } else if s == "Pipes"@ {
            Some(BuzzerSound::Pipes)
        } else if s == "Klaxon"@ {
            Some(BuzzerSound::Klaxon)
        } else if s == "Pip"@ {
            Some(BuzzerSound::Pip)
        } else if s == "Pulse"@ {
            Some(BuzzerSound::Pulse)
        } else if s == "Siren"@ {
            Some(BuzzerSound::Siren)
        } else if s == "Trill"@ {
            Some(BuzzerSound::Trill)
        } else {
            None
        }
    }

    /// The sound with this exact variant name, if any.
    pub fn from_name(s: &str) -> (r: Option<BuzzerSound>)
        ensures
            r == BuzzerSound::named(s@),
    {
        if str_is(s, "Buzz") {
            Some(BuzzerSound::Buzz)
        } else if str_is(s, "Whoop") {
            Some(BuzzerSound::Whoop)
        } else if str_is(s, "Crazy") {
            Some(BuzzerSound::Crazy)
        } else if str_is(s, "DeDeDu") {
            Some(BuzzerSound::DeDeDu)
        } else if str_is(s, "TwoTone") {
            Some(BuzzerSound::TwoTone)
        } else if str_is(s, "Airhorn") {
            Some(BuzzerSound::Airhorn)
        } else if str_is(s, "Pipes") {
            Some(BuzzerSound::Pipes)
        } else if str_is(s, "Klaxon") {
            Some(BuzzerSound::Klaxon)
        } else if str_is(s, "Pip") {
            Some(BuzzerSound::Pip)
        } else if str_is(s, "Pulse") {
            Some(BuzzerSound::Pulse)
        } else if str_is(s, "Siren") {
            Some(BuzzerSound::Siren)
        } else if str_is(s, "Trill") {
            Some(BuzzerSound::Trill)
        } else {
            None
        }
    }
}

impl Default for BuzzerSound {
    fn default() -> (r: BuzzerSound)
        ensures
            r == BuzzerSound::Buzz,
    {
        BuzzerSound::Buzz
    }
}

/// The name Base58 (Bitcoin alphabet) gives to a byte string, as the `bs58`
/// crate computes it.
pub uninterp spec fn base58_text(bytes: Seq<u8>) -> Seq<char>;

/// Encodes bytes with `bs58::encode(..).into_string()`. Claimed: the text is
/// `base58_text` of the bytes, a function of the bytes alone.
#[verifier::external_body]
fn base58_encode(bytes: &[u8]) -> (r: String)
    ensures
        r@ == base58_text(bytes@),
{
    bs58::encode(bytes).into_string()
}

/// The CRC-8/SMBUS checksum (polynomial 0x07, initial value 0, no reflection,
/// no final xor) of a byte string.
pub uninterp spec fn crc8_smbus(bytes: Seq<u8>) -> u8;

/// Computes the checksum with `crc::Crc::<u8, crc::NoTable>::new(&crc::CRC_8_SMBUS)
/// .checksum(..)`. Claimed: the result is `crc8_smbus` of the bytes, a function
/// of the bytes alone.
#[verifier::external_body]
fn crc8_smbus_checksum(bytes: &[u8]) -> (r: u8)
    ensures
        r == crc8_smbus(bytes@),
{
    crc::Crc::<u8, crc::NoTable>::new(&crc::CRC_8_SMBUS).checksum(bytes)
}

/// The four big-endian bytes of a `u32`.
pub open spec fn be_bytes(x: u32) -> Seq<u8> {
    seq![
        (x / 16777216) as u8,
        ((x / 65536) % 256) as u8,
        ((x / 256) % 256) as u8,
        (x % 256) as u8,
    ]
}

/// The `u32` whose big-endian bytes these are.
pub open spec fn be_value(b: Seq<u8>) -> u32 {
    (b[0] as int * 16777216 + b[1] as int * 65536 + b[2] as int * 256 + b[3] as int) as u32
}

/// Volumes are written by their names and read back by them: each volume's
/// name reads as that volume, and a name reads as a volume only when it is
/// that volume's name.
pub proof fn lemma_volume_names_round_trip(v: Volume, s: Seq<char>)
    ensures
        Volume::named(v.name()) == Some(v),
        Volume::named(s) matches Some(w) ==> w.name() == s,
{
    reveal_strlit("Off");
    reveal_strlit("Low");
    reveal_strlit("Medium");
    reveal_strlit("High");
    reveal_strlit("Max");
    assert("Low"@[0] != "Off"@[0]);
    assert("Medium"@.len() != "Off"@.len());
    assert("Medium"@.len() != "Low"@.len());
    assert("High"@.len() != "Off"@.len());
    assert("High"@.len() != "Low"@.len());
    assert("High"@.len() != "Medium"@.len());
    assert("Max"@[0] != "Off"@[0]);
    assert("Max"@[0] != "Low"@[0]);
    assert("Max"@.len() != "Medium"@.len());
    assert("Max"@.len() != "High"@.len());
}

/// Buzzer sounds are written by their names and read back by them: each
/// sound's name reads as that sound, and a name reads as a sound only when
/// it is that sound's name.
pub proof fn lemma_buzzer_names_round_trip(b: BuzzerSound, s: Seq<char>)
    ensures
        BuzzerSound::named(b.name()) == Some(b),
        BuzzerSound::named(s) matches Some(c) ==> c.name() == s,
{
    reveal_strlit("Buzz");
    reveal_strlit("Whoop");
    reveal_strlit("Crazy");
    reveal_strlit("DeDeDu");
    reveal_strlit("TwoTone");
    reveal_strlit("Airhorn");
    reveal_strlit("Pipes");
    reveal_strlit("Klaxon");
    reveal_strlit("Pip");
    reveal_strlit("Pulse");
    reveal_strlit("Siren");
    reveal_strlit("Trill");
    assert("Whoop"@.len() != "Buzz"@.len());
    assert("Crazy"@.len() != "Buzz"@.len());
    assert("Crazy"@[0] != "Whoop"@[0]);
    assert("DeDeDu"@.len() != "Buzz"@.len());
    assert("DeDeDu"@.len() != "Whoop"@.len());
    assert("DeDeDu"@.len() != "Crazy"@.len());
    assert("TwoTone"@.len() != "Buzz"@.len());
    assert("TwoTone"@.len() != "Whoop"@.len());
    assert("TwoTone"@.len() != "Crazy"@.len());
    assert("TwoTone"@.len() != "DeDeDu"@.len());
    assert("Airhorn"@.len() != "Buzz"@.len());
    assert("Airhorn"@.len() != "Whoop"@.len());
    assert("Airhorn"@.len() != "Crazy"@.len());
    assert("Airhorn"@.len() != "DeDeDu"@.len());
    assert("Airhorn"@[0] != "TwoTone"@[0]);
    assert("Pipes"@.len() != "Buzz"@.len());
    assert("Pipes"@[0] != "Whoop"@[0]);
    assert("Pipes"@[0] != "Crazy"@[0]);
    assert("Pipes"@.len() != "DeDeDu"@.len());
    assert("Pipes"@.len() != "TwoTone"@.len());
    assert("Pipes"@.len() != "Airhorn"@.len());
    assert("Klaxon"@.len() != "Buzz"@.len());
    assert("Klaxon"@.len() != "Whoop"@.len());
    assert("Klaxon"@.len() != "Crazy"@.len());
    assert("Klaxon"@[0] != "DeDeDu"@[0]);
    assert("Klaxon"@.len() != "TwoTone"@.len());
    assert("Klaxon"@.len() != "Airhorn"@.len());
    assert("Klaxon"@.len() != "Pipes"@.len());
    assert("Pip"@.len() != "Buzz"@.len());
    assert("Pip"@.len() != "Whoop"@.len());
    assert("Pip"@.len() != "Crazy"@.len());
    assert("Pip"@.len() != "DeDeDu"@.len());
    assert("Pip"@.len() != "TwoTone"@.len());
    assert("Pip"@.len() != "Airhorn"@.len());
    assert("Pip"@.len() != "Pipes"@.len());
    assert("Pip"@.len() != "Klaxon"@.len());
    assert("Pulse"@.len() != "Buzz"@.len());
    assert("Pulse"@[0] != "Whoop"@[0]);
    assert("Pulse"@[0] != "Crazy"@[0]);
    assert("Pulse"@.len() != "DeDeDu"@.len());
    assert("Pulse"@.len() != "TwoTone"@.len());
    assert("Pulse"@.len() != "Airhorn"@.len());
    assert("Pulse"@[1] != "Pipes"@[1]);
    assert("Pulse"@.len() != "Klaxon"@.len());
    assert("Pulse"@.len() != "Pip"@.len());
    assert("Siren"@.len() != "Buzz"@.len());
    assert("Siren"@[0] != "Whoop"@[0]);
    assert("Siren"@[0] != "Crazy"@[0]);
    assert("Siren"@.len() != "DeDeDu"@.len());
    assert("Siren"@.len() != "TwoTone"@.len());
    assert("Siren"@.len() != "Airhorn"@.len());
    assert("Siren"@[0] != "Pipes"@[0]);
    assert("Siren"@.len() != "Klaxon"@.len());
    assert("Siren"@.len() != "Pip"@.len());
    assert("Siren"@[0] != "Pulse"@[0]);
    assert("Trill"@.len() != "Buzz"@.len());
    assert("Trill"@[0] != "Whoop"@[0]);
    assert("Trill"@[0] != "Crazy"@[0]);
    assert("Trill"@.len() != "DeDeDu"@.len());
    assert("Trill"@.len() != "TwoTone"@.len());
    assert("Trill"@.len() != "Airhorn"@.len());
    assert("Trill"@[0] != "Pipes"@[0]);
    assert("Trill"@.len() != "Klaxon"@.len());
    assert("Trill"@.len() != "Pip"@.len());
    assert("Trill"@[0] != "Pulse"@[0]);
    assert("Trill"@[0] != "Siren"@[0]);
}

/// A remote's identity is sent most significant byte first: the bytes of an
/// identity read back as that identity, four bytes read as an identity give
/// those bytes back, and the first byte is the identity's top eight bits,
/// the last its bottom eight.
pub proof fn lemma_identity_bytes_big_endian(x: u32, b: Seq<u8>)
    ensures
        be_value(be_bytes(x)) == x,
        b.len() == 4 ==> be_bytes(be_value(b)) == b,
        b.len() == 4 ==> be_value(b) / 16777216 == b[0] && be_value(b) % 256 == b[3],
{
    let b0 = (x / 16777216) as u8;
    let b1 = ((x / 65536) % 256) as u8;
    let b2 = ((x / 256) % 256) as u8;
    let b3 = (x % 256) as u8;
    assert(b0 as int * 16777216 + b1 as int * 65536 + b2 as int * 256 + b3 as int == x)
        by (nonlinear_arith)
        requires
            b0 == x / 16777216,
            b1 == (x / 65536) % 256,
            b2 == (x / 256) % 256,
            b3 == x % 256,
            0 <= x < 4294967296,
    ;
    if b.len() == 4 {
        let (c0, c1, c2, c3) = (b[0], b[1], b[2], b[3]);
        let v: int = c0 as int * 16777216 + c1 as int * 65536 + c2 as int * 256 + c3 as int;
        assert(0 <= v < 4294967296 && v / 16777216 == c0 && (v / 65536) % 256 == c1 && (v / 256)
            % 256 == c2 && v % 256 == c3) by (nonlinear_arith)
            requires
                v == c0 as int * 16777216 + c1 as int * 65536 + c2 as int * 256 + c3 as int,
                0 <= c0 < 256,
                0 <= c1 < 256,
                0 <= c2 < 256,
                0 <= c3 < 256,
        ;
        assert(be_bytes(be_value(b)) =~= b);
    }
}

/// A wireless remote's identity.
#[derive(Debug, Clone, Copy, PartialEq, Eq, PartialOrd, Ord, Default, Structural)]
pub struct RemoteId(pub u32);

impl RemoteId {
    /// The big-endian bytes of the identity.
    pub fn to_be_bytes(&self) -> (r: [u8; 4])
        ensures
            r@ == be_bytes(self.0),
    {
        let x = self.0;
        let r: [u8; 4] = [
            (x / 16777216) as u8,
            ((x / 65536) % 256) as u8,
            ((x / 256) % 256) as u8,
            (x % 256) as u8,
        ];
        assert(r@ =~= be_bytes(x));
        r
    }

    /// How the identity is shown: its big-endian bytes in Base58.
    pub fn display_text(&self) -> (r: String)
        ensures
            r@ == base58_text(be_bytes(self.0)),
    {
        let bytes = self.to_be_bytes();
        base58_encode(&bytes)
    }
}

/// Length of a wireless remote's packet: four identity bytes and a checksum.
pub const REMOTE_PACKET_LEN: usize = 5;

/// The remote a received packet comes from: a packet of exactly five bytes
/// whose last byte is the CRC-8/SMBUS of the first four names the remote
/// whose big-endian identity those four bytes are; anything else is ignored.
pub fn decode_remote_packet(packet: &[u8]) -> (r: Option<RemoteId>)
    ensures
        r == (if packet@.len() == 5 && crc8_smbus(packet@.take(4)) == packet@[4] {
            Some(RemoteId(be_value(packet@.take(4))))
        } else {
            None
        }),
{
    if packet.len() != REMOTE_PACKET_LEN {
        return None;
    }
    let head: [u8; 4] = [packet[0], packet[1], packet[2], packet[3]];
    assert(head@ =~= packet@.take(4));
    let expected = crc8_smbus_checksum(&head);
    if packet[4] != expected {
        return None;
    }
    let id: u32 = (head[0] as u32) * 16777216 + (head[1] as u32) * 65536 + (head[2] as u32) * 256
        + (head[3] as u32);
    Some(RemoteId(id))
}

/// A remote the refbox knows, with the buzzer sound it plays (`None`: the
/// default sound).
#[derive(Debug, Clone, Copy, PartialEq, Eq, Default, Structural)]
pub struct RemoteInfo {
    pub id: RemoteId,
    pub sound: Option<BuzzerSound>,
}

/// The sound settings.
#[derive(Debug, Clone, PartialEq, Eq)]
pub struct SoundSettings {
    pub sound_enabled: bool,
    pub whistle_enabled: bool,
    pub buzzer_sound: BuzzerSound,
    pub whistle_vol: Volume,
    pub above_water_vol: Volume,
    pub under_water_vol: Volume,
    pub auto_sound_start_play: bool,
    pub auto_sound_stop_play: bool,
    pub manual_alarm_enabled: bool,
    pub remotes: Vec<RemoteInfo>,
}

impl SoundSettings {
    pub open spec fn is_default(&self) -> bool {
        &&& self.sound_enabled
        &&& self.whistle_enabled
        &&& self.buzzer_sound == BuzzerSound::Buzz
        &&& self.whistle_vol == Volume::Medium
        &&& self.above_water_vol == Volume::Max
        &&& self.under_water_vol == Volume::Max
        &&& self.auto_sound_start_play
        &&& self.auto_sound_stop_play
        &&& !self.manual_alarm_enabled
        &&& self.remotes@.len() == 0
    }
}

impl Default for SoundSettings {
    fn default() -> (r: SoundSettings)
        ensures
            r.is_default(),
    {
        SoundSettings {
            sound_enabled: true,
            whistle_enabled: true,
            buzzer_sound: BuzzerSound::Buzz,
            whistle_vol: Volume::Medium,
            above_water_vol: Volume::Max,
            under_water_vol: Volume::Max,
            auto_sound_start_play: true,
            auto_sound_stop_play: true,
            manual_alarm_enabled: false,
            remotes: Vec::new(),
        }
    }
}

/// A remote entry of an old settings file, as read: its `id` if it is an
/// integer and its `sound` if it is a string.
#[derive(Debug, Clone)]
pub struct OldRemote {
    pub id: Option<i64>,
    pub sound: Option<String>,
}

/// The sound table of an old settings file, as read: each value present with
/// the expected type; `remotes` when it is an array, holding its table
/// entries.
#[derive(Debug, Clone, Default)]
pub struct OldSoundSettings {
    pub sound_enabled: Option<bool>,
    pub whistle_enabled: Option<bool>,
    pub buzzer_sound: Option<String>,
    pub whistle_vol: Option<String>,
    pub above_water_vol: Option<String>,
    pub under_water_vol: Option<String>,
    pub auto_sound_start_play: Option<bool>,
    pub auto_sound_stop_play: Option<bool>,
    pub manual_alarm_enabled: Option<bool>,
    pub remotes: Option<Vec<OldRemote>>,
}

/// An old value if it was there, else the default.
pub open spec fn or_default<T>(v: Option<T>, d: T) -> T {
    match v {
        Some(x) => x,
        None => d,
    }
}

/// A named volume if the name is one, else the default.
pub open spec fn volume_or(name: Option<String>, d: Volume) -> Volume {
    match name {
        Some(s) => match Volume::named(s@) {
            Some(v) => v,
            None => d,
        },
        None => d,
    }
}

/// The remotes an old settings file lists: every entry with an integer `id`
/// and a string `sound`, its id the low 32 bits of the integer, its sound the
/// named one (`None` if the name is not a sound).
pub open spec fn migrated_remotes(old: Seq<OldRemote>) -> Seq<RemoteInfo>
    decreases old.len(),
{
    if old.len() == 0 {
        Seq::empty()
    } else {
        let prev = migrated_remotes(old.drop_last());
        let e = old.last();
        match (e.id, e.sound) {
            (Some(id), Some(sound)) => prev.push(
                RemoteInfo {
                    id: RemoteId(id as u32),
                    sound: BuzzerSound::named(sound@),
                },
            ),
            _ => prev,
        }
    }
}


fn parse_volume(name: &Option<String>, d: Volume) -> (r: Volume)
    ensures
        r == volume_or(*name, d),
{
    match name {
        Some(s) => match Volume::from_name(s.as_str()) {
            Some(v) => v,
            None => d,
        },
        None => d,
    }
}

impl SoundSettings {
    /// Whether these are the sound settings that an old settings table holds:
    /// each value present with the expected type and (for names) naming a
    /// variant replaces the default.
    pub open spec fn migrated_from(self, old: OldSoundSettings) -> bool {
        &&& self.sound_enabled == or_default(old.sound_enabled, true)
        &&& self.whistle_enabled == or_default(old.whistle_enabled, true)
        &&& self.buzzer_sound == match old.buzzer_sound {
            Some(s) => match BuzzerSound::named(s@) {
                Some(b) => b,
                None => BuzzerSound::Buzz,
            },
            None => BuzzerSound::Buzz,
        }
        &&& self.whistle_vol == volume_or(old.whistle_vol, Volume::Medium)
        &&& self.above_water_vol == volume_or(old.above_water_vol, Volume::Max)
        &&& self.under_water_vol == volume_or(old.under_water_vol, Volume::Max)
        &&& self.auto_sound_start_play == or_default(old.auto_sound_start_play, true)
        &&& self.auto_sound_stop_play == or_default(old.auto_sound_stop_play, true)
        &&& self.manual_alarm_enabled == or_default(old.manual_alarm_enabled, false)
        &&& self.remotes@ == match old.remotes {
            Some(v) => migrated_remotes(v@),
            None => Seq::empty(),
        }
    }

    /// The sound settings an old settings file holds: each value that is
    /// present with the expected type and (for names) names a variant
    /// replaces the default.
    pub fn migrate(old: &OldSoundSettings) -> (r: SoundSettings)
        ensures
            r.migrated_from(*old),
    {
        let buzzer_sound = match &old.buzzer_sound {
            Some(s) => match BuzzerSound::from_name(s.as_str()) {
                Some(b) => b,
                None => BuzzerSound::Buzz,
            },
            None => BuzzerSound::Buzz,
        };
        let remotes = match &old.remotes {
            Some(v) => migrate_remotes(v),
            None => Vec::new(),
        };
        SoundSettings {
            sound_enabled: match old.sound_enabled {
                Some(x) => x,
                None => true,
            },
            whistle_enabled: match old.whistle_enabled {
                Some(x) => x,
                None => true,
            },
            buzzer_sound,
            whistle_vol: parse_volume(&old.whistle_vol, Volume::Medium),
            above_water_vol: parse_volume(&old.above_water_vol, Volume::Max),
            under_water_vol: parse_volume(&old.under_water_vol, Volume::Max),
            auto_sound_start_play: match old.auto_sound_start_play {
                Some(x) => x,
                None => true,
            },
            auto_sound_stop_play: match old.auto_sound_stop_play {
                Some(x) => x,
                None => true,
            },
            manual_alarm_enabled: match old.manual_alarm_enabled {
                Some(x) => x,
                None => false,
            },
            remotes,
        }
    }
}



fn migrate_remotes(old: &Vec<OldRemote>) -> (r: Vec<RemoteInfo>)
    ensures
        r@ == migrated_remotes(old@),
{
    let mut out: Vec<RemoteInfo> = Vec::new();
    let mut i: usize = 0;
    while i < old.len()
        invariant
            0 <= i <= old@.len(),
            out@ == migrated_remotes(old@.take(i as int)),
        decreases old@.len() - i,
    {
        let e = &old[i];
        proof {
            assert(old@.take(i + 1).drop_last() =~= old@.take(i as int));
            assert(old@.take(i + 1).last() == old@[i as int]);
        }
        match (e.id, &e.sound) {
            (Some(id), Some(sound)) => {
                let s = BuzzerSound::from_name(sound.as_str());
                out.push(RemoteInfo { id: RemoteId(id as u32), sound: s });
            },
            _ => {},
        }
        i = i + 1;
    }
    assert(old@.take(old@.len() as int) =~= old@);
    out
}

/// Kinds of pulse on the wired remote's line.
#[derive(Debug, PartialEq, Eq, Clone, Copy, Structural)]
pub enum PulseType {
    Short,
    Long,
    Preamble,
}

/// What a pulse of `len` microseconds is: 200..=500 short, 800..=1500 long,
/// 9000..=12000 a preamble; anything else is noise.
pub fn identify_pulse(len: u128) -> (r: Option<PulseType>)
    ensures
        r == (if 200 <= len <= 500 {
            Some(PulseType::Short)
        } else if 800 <= len <= 1500 {
            Some(PulseType::Long)
        } else if 9000 <= len <= 12000 {
            Some(PulseType::Preamble)
        } else {
            None
        }),
{
    if 200 <= len && len <= 500 {
        Some(PulseType::Short)
    } else if 800 <= len && len <= 1500 {
        Some(PulseType::Long)
    } else if 9000 <= len && len <= 12000 {
        Some(PulseType::Preamble)
    } else {
        None
    }
}

/// Consecutive equal readings after which a rotary-switch pin counts as
/// stable.
pub const STABLE_READINGS: u32 = 10;

/// Debounce state of one rotary-switch pin.
#[derive(Debug, Clone, Copy, PartialEq, Eq, Default, Structural)]
pub struct PinDebounce {
    pub stable: bool,
    pub last: bool,
    pub stable_count: u32,
}

impl PinDebounce {
    /// Takes one reading: a reading equal to the last one counts towards
    /// stability (stable from the tenth on); a different one restarts the
    /// count and makes the pin unstable.
    pub fn observe(&mut self, current: bool)
        requires
            old(self).stable_count < u32::MAX,
        ensures
            final(self).last == current,
            current == old(self).last ==> final(self).stable_count == old(self).stable_count + 1
                && final(self).stable == (old(self).stable || final(self).stable_count
                >= STABLE_READINGS),
            current != old(self).last ==> final(self).stable_count == 0 && !final(self).stable,
    {
        if current == self.last {
            self.stable_count = self.stable_count + 1;
            if self.stable_count >= STABLE_READINGS {
                self.stable = true;
            }
        } else {
            self.stable_count = 0;
            self.stable = false;
        }
        self.last = current;
    }
}

/// The remote an old settings entry describes, when it has both an integer
/// `id` (its low 32 bits) and a string `sound` (the named sound, none if the
/// name is not one).
pub open spec fn old_remote_entry(e: OldRemote) -> Option<RemoteInfo> {
    match (e.id, e.sound) {
        (Some(id), Some(sound)) => Some(
            RemoteInfo { id: RemoteId(id as u32), sound: BuzzerSound::named(sound@) },
        ),
        _ => None,
    }
}

proof fn lemma_migrated_remotes_are_the_complete_entries(old: Seq<OldRemote>)
    ensures
        migrated_remotes(old) == old.filter_map(|e: OldRemote| old_remote_entry(e)),
    decreases old.len(),
{
    if old.len() > 0 {
        lemma_migrated_remotes_are_the_complete_entries(old.drop_last());
        let prev = migrated_remotes(old.drop_last());
        match old_remote_entry(old.last()) {
            Some(x) => {
                assert(prev.push(x) =~= prev + seq![x]);
            },
            None => {},
        }
    }
}

/// Migrating old sound settings keeps every value the old file holds with
/// the expected type, and takes the default for each that is absent: the
/// switches as written, each sound and volume that names one, and the
/// remotes whose entries have both an id and a sound, in their order.
pub proof fn lemma_sound_migration_keeps_each_value(r: SoundSettings, old: OldSoundSettings)
    requires
        r.migrated_from(old),
    ensures
        r.sound_enabled == match old.sound_enabled {
            Some(b) => b,
            None => true,
        },
        r.whistle_enabled == match old.whistle_enabled {
            Some(b) => b,
            None => true,
        },
        r.auto_sound_start_play == match old.auto_sound_start_play {
            Some(b) => b,
            None => true,
        },
        r.auto_sound_stop_play == match old.auto_sound_stop_play {
            Some(b) => b,
            None => true,
        },
        r.manual_alarm_enabled == match old.manual_alarm_enabled {
            Some(b) => b,
            None => false,
        },
        r.buzzer_sound == match old.buzzer_sound {
            Some(n) => match BuzzerSound::named(n@) {
                Some(b) => b,
                None => BuzzerSound::Buzz,
            },
            None => BuzzerSound::Buzz,
        },
        r.whistle_vol == match old.whistle_vol {
            Some(n) => match Volume::named(n@) {
                Some(v) => v,
                None => Volume::Medium,
            },
            None => Volume::Medium,
        },
        r.above_water_vol == match old.above_water_vol {
            Some(n) => match Volume::named(n@) {
                Some(v) => v,
                None => Volume::Max,
            },
            None => Volume::Max,
        },
        r.under_water_vol == match old.under_water_vol {
            Some(n) => match Volume::named(n@) {
                Some(v) => v,
                None => Volume::Max,
            },
            None => Volume::Max,
        },
        old.remotes is None ==> r.remotes@.len() == 0,
        old.remotes matches Some(v) ==> r.remotes@ == v@.filter_map(
            |e: OldRemote| old_remote_entry(e),
        ),
{
    if let Some(v) = old.remotes {
        lemma_migrated_remotes_are_the_complete_entries(v@);
    }
}

/// A buffer operation the SPI worker thread carries out, with the delay (in
/// microseconds) to wait after it.
#[derive(Debug)]
pub enum SendableOperation {
    Write { data: Vec<u8>, delay: u16 },
    Read { count: usize, index: usize, delay: u16 },
    Transaction { data: Vec<u8>, count: usize, index: usize, delay: u16 },
}

impl SendableOperation {
    pub open spec fn spec_delay(&self) -> u16 {
        match self {
            SendableOperation::Write { delay, .. } => *delay,
            SendableOperation::Read { delay, .. } => *delay,
            SendableOperation::Transaction { delay, .. } => *delay,
        }
    }

    pub fn delay(&self) -> (r: u16)
        ensures
            r == self.spec_delay(),
    {
        match self {
            SendableOperation::Write { delay, .. } => *delay,
            SendableOperation::Read { delay, .. } => *delay,
            SendableOperation::Transaction { delay, .. } => *delay,
        }
    }

    /// Sets the delay, leaving the rest of the operation as it was.
    pub fn set_delay(&mut self, delay: u16)
        ensures
            final(self).spec_delay() == delay,
            match (*old(self), *final(self)) {
                (SendableOperation::Write { data: d0, .. }, SendableOperation::Write { data: d1, .. }) => d0 == d1,
                (
                    SendableOperation::Read { count: c0, index: i0, .. },
                    SendableOperation::Read { count: c1, index: i1, .. },
                ) => c0 == c1 && i0 == i1,
                (
                    SendableOperation::Transaction { data: d0, count: c0, index: i0, .. },
                    SendableOperation::Transaction { data: d1, count: c1, index: i1, .. },
                ) => d0 == d1 && c0 == c1 && i0 == i1,
                _ => false,
            },
    {
        match self {
            SendableOperation::Write { delay: d, .. } => *d = delay,
            SendableOperation::Read { delay: d, .. } => *d = delay,
            SendableOperation::Transaction { delay: d, .. } => *d = delay,
        }
    }
}

} // verus!
