//! Which sound plays: the queue of requested sounds, how each request
//! changes it, and what the audio worker must stop and start next.
//!
//! The worker owns the audio device; after each message it applies the
//! message here, then carries out the returned `SoundAction`.

use crate::sound::{BuzzerSound, RemoteId, RemoteInfo, SoundSettings};
use vstd::prelude::*;

verus! {

/// A sound that can be requested.
#[derive(Debug, Clone, Copy, PartialEq, Eq, Structural)]
pub enum SoundId {
    AutoBuzzer,
    TestBuzzer(BuzzerSound),
    Whistle,
    CountdownBeep,
    ManualAlarm,
    WiredButton,
    WirelessButton(RemoteId),
}

/// A request to the sound worker.
#[derive(Debug, Clone, Copy, PartialEq, Eq, Structural)]
pub enum SoundMessage {
    TriggerBuzzer,
    TriggerWhistle,
    TriggerCountdownBeep,
    StartManualBuzzer,
    StopManualBuzzer,
    TestBuzzer(BuzzerSound),
    ReloadAudioOutput,
    StartWiredBuzzer,
    StopWiredBuzzer,
    WirelessRemoteReceived(RemoteId),
}

/// What the worker must do besides playing, after a message.
#[derive(Debug, Clone, Copy, PartialEq, Eq, Structural)]
pub enum MessageEffect {
    NoEffect,
    /// (Re)start the short timer after which a wireless button counts as
    /// released, cancelling one already running.
    ArmButtonTimer(RemoteId),
    /// Rebuild the audio output, after stopping the sound that was playing
    /// (if any).
    ReloadOutput(Option<SoundId>),
}

/// Which recording a sound plays.
#[derive(Debug, Clone, Copy, PartialEq, Eq, Structural)]
pub enum Clip {
    Buzzer(BuzzerSound),
    Whistle,
    Countdown,
}

/// How to play a sound: its clip, whether it repeats, whether it stops by
/// itself after a fixed time, whether it uses the whistle volumes, and
/// whether the display flashes as it starts.
#[derive(Debug, Clone, Copy, PartialEq, Eq, Structural)]
pub struct SoundPlan {
    pub id: SoundId,
    pub clip: Clip,
    pub repeat: bool,
    pub timed: bool,
    pub whistle_volumes: bool,
    pub flash: bool,
}

/// What to stop, then what to start.
#[derive(Debug, Clone, Copy, PartialEq, Eq, Structural)]
pub struct SoundAction {
    pub stop: Option<SoundId>,
    pub start: Option<SoundPlan>,
}

/// `s` without any occurrence of `x`, the rest in order.
pub open spec fn removed(s: Seq<SoundId>, x: SoundId) -> Seq<SoundId>
    decreases s.len(),
{
    if s.len() == 0 {
        s
    } else if s.last() == x {
        removed(s.drop_last(), x)
    } else {
        removed(s.drop_last(), x).push(s.last())
    }
}

/// `s` with `x` added at the back, unless it is already there.
pub open spec fn enqueued(s: Seq<SoundId>, x: SoundId) -> Seq<SoundId> {
    if s.contains(x) {
        s
    } else {
        s.push(x)
    }
}

/// No sound occurs twice.
pub open spec fn distinct(s: Seq<SoundId>) -> bool {
    forall|i: int, j: int| 0 <= i < j < s.len() ==> s[i] != s[j]
}

/// The sound of the first remote of `remotes` from position `k` on with
/// identity `id` (its own, if it has one); `None` when there is no such
/// remote.
pub open spec fn remote_sound_from(remotes: Seq<RemoteInfo>, id: RemoteId, k: int) -> Option<
    Option<BuzzerSound>,
>
    decreases remotes.len() - k,
{
    if k < 0 || k >= remotes.len() {
        None
    } else if remotes[k].id == id {
        Some(remotes[k].sound)
    } else {
        remote_sound_from(remotes, id, k + 1)
    }
}

/// How the request `id` is played under `settings`; `flash` says whether
/// the display may flash with it. A wireless button that no remote has any
/// more plays nothing.
pub open spec fn plan(id: SoundId, settings: SoundSettings, flash: bool) -> Option<SoundPlan> {
    match id {
        SoundId::AutoBuzzer => Some(
            SoundPlan {
                id,
                clip: Clip::Buzzer(settings.buzzer_sound),
                repeat: true,
                timed: true,
                whistle_volumes: false,
                flash,
            },
        ),
        SoundId::TestBuzzer(s) => Some(
            SoundPlan {
                id,
                clip: Clip::Buzzer(s),
                repeat: true,
                timed: true,
                whistle_volumes: false,
                flash: false,
            },
        ),
        SoundId::Whistle => Some(
            SoundPlan {
                id,
                clip: Clip::Whistle,
                repeat: false,
                timed: false,
                whistle_volumes: true,
                flash: false,
            },
        ),
        SoundId::CountdownBeep => Some(
            SoundPlan {
                id,
                clip: Clip::Countdown,
                repeat: false,
                timed: false,
                whistle_volumes: false,
                flash: false,
            },
        ),
        SoundId::ManualAlarm | SoundId::WiredButton => Some(
            SoundPlan {
                id,
                clip: Clip::Buzzer(settings.buzzer_sound),
                repeat: true,
                timed: false,
                whistle_volumes: false,
                flash,
            },
        ),
        SoundId::WirelessButton(r) => match remote_sound_from(settings.remotes@, r, 0) {
            Some(own) => Some(
                SoundPlan {
                    id,
                    clip: Clip::Buzzer(
                        match own {
                            Some(s) => s,
                            None => settings.buzzer_sound,
                        },
                    ),
                    repeat: true,
                    timed: false,
                    whistle_volumes: false,
                    flash,
                },
            ),
            None => None,
        },
    }
}

/// A message's effect on the queue `q` and the playing sound `playing`.
pub open spec fn after_message(
    q: Seq<SoundId>,
    playing: Option<SoundId>,
    msg: SoundMessage,
    remotes: Seq<RemoteInfo>,
) -> (Seq<SoundId>, Option<SoundId>, MessageEffect) {
    match msg {
        SoundMessage::TriggerBuzzer => (
            enqueued(q, SoundId::AutoBuzzer),
            playing,
            MessageEffect::NoEffect,
        ),
        SoundMessage::TriggerWhistle => (enqueued(q, SoundId::Whistle), playing, MessageEffect::NoEffect),
        SoundMessage::TriggerCountdownBeep => (
            enqueued(q, SoundId::CountdownBeep),
            playing,
            MessageEffect::NoEffect,
        ),
        SoundMessage::StartManualBuzzer => (
            if q.contains(SoundId::ManualAlarm) {
                q
            } else {
                seq![SoundId::ManualAlarm] + q
            },
            playing,
            MessageEffect::NoEffect,
        ),
        SoundMessage::StopManualBuzzer => (
            removed(q, SoundId::ManualAlarm),
            playing,
            MessageEffect::NoEffect,
        ),
        SoundMessage::TestBuzzer(s) => (
            enqueued(q, SoundId::TestBuzzer(s)),
            playing,
            MessageEffect::NoEffect,
        ),
        SoundMessage::ReloadAudioOutput => (q, None, MessageEffect::ReloadOutput(playing)),
        SoundMessage::StartWiredBuzzer => (
            enqueued(q, SoundId::WiredButton),
            playing,
            MessageEffect::NoEffect,
        ),
        SoundMessage::StopWiredBuzzer => (
            removed(q, SoundId::WiredButton),
            playing,
            MessageEffect::NoEffect,
        ),
        SoundMessage::WirelessRemoteReceived(id) => if remote_sound_from(remotes, id, 0) is Some {
            (enqueued(q, SoundId::WirelessButton(id)), playing, MessageEffect::ArmButtonTimer(id))
        } else {
            (q, playing, MessageEffect::NoEffect)
        },
    }
}

/// What to stop and start so that the front of the queue is what plays:
/// stop the playing sound when nothing is queued; start the front when
/// nothing plays; switch when another sound plays (the display flashes
/// only when it was the whistle that played).
pub open spec fn next_step(q: Seq<SoundId>, playing: Option<SoundId>, settings: SoundSettings) -> (
    Option<SoundId>,
    SoundAction,
) {
    match playing {
        Some(p) => if q.len() == 0 {
            (None, SoundAction { stop: Some(p), start: None })
        } else if p != q[0] {
            let pl = plan(q[0], settings, p == SoundId::Whistle);
            (
                if pl is Some {
                    Some(q[0])
                } else {
                    None
                },
                SoundAction { stop: Some(p), start: pl },
            )
        } else {
            (playing, SoundAction { stop: None, start: None })
        },
        None => if q.len() == 0 {
            (None, SoundAction { stop: None, start: None })
        } else {
            let pl = plan(q[0], settings, true);
            (
                if pl is Some {
                    Some(q[0])
                } else {
                    None
                },
                SoundAction { stop: None, start: pl },
            )
        },
    }
}

proof fn lemma_removed(s: Seq<SoundId>, x: SoundId)
    ensures
        !removed(s, x).contains(x),
        forall|y: SoundId| y != x ==> (removed(s, x).contains(y) <==> s.contains(y)),
        distinct(s) ==> distinct(removed(s, x)),
        !s.contains(x) ==> removed(s, x) == s,
    decreases s.len(),
{
    if s.len() > 0 {
        let t = s.drop_last();
        lemma_removed(t, x);
        assert forall|y: SoundId| #[trigger] s.contains(y) <==> (t.contains(y) || y == s.last()) by {
            if s.contains(y) {
                let i = choose|i: int| 0 <= i < s.len() && s[i] == y;
                if i < s.len() - 1 {
                    assert(t[i] == y);
                }
            }
            if t.contains(y) {
                let i = choose|i: int| 0 <= i < t.len() && t[i] == y;
                assert(s[i] == y);
            }
            if y == s.last() {
                assert(s[s.len() - 1] == y);
            }
        }
        let r = removed(t, x);
        assert forall|y: SoundId| #[trigger] r.push(s.last()).contains(y) <==> (r.contains(y) || y
            == s.last()) by {
            if r.push(s.last()).contains(y) {
                let i = choose|i: int| 0 <= i < r.len() + 1 && r.push(s.last())[i] == y;
                if i < r.len() {
                    assert(r[i] == y);
                }
            }
            if r.contains(y) {
                let i = choose|i: int| 0 <= i < r.len() && r[i] == y;
                assert(r.push(s.last())[i] == y);
            }
            if y == s.last() {
                assert(r.push(s.last())[r.len() as int] == y);
            }
        }
        if distinct(s) {
            assert(distinct(t));
            assert(!t.contains(s.last())) by {
                if t.contains(s.last()) {
                    let i = choose|i: int| 0 <= i < t.len() && t[i] == s.last();
                    assert(s[i] == s[s.len() - 1]);
                }
            }
        }
        if !s.contains(x) {
            assert(s[s.len() - 1] == s.last());
            assert(!t.contains(x)) by {
                if t.contains(x) {
                    let i = choose|i: int| 0 <= i < t.len() && t[i] == x;
                    assert(s[i] == x);
                }
            }
            assert(t.push(s.last()) =~= s);
        }
    }
}

proof fn lemma_enqueued(s: Seq<SoundId>, x: SoundId)
    requires
        distinct(s),
    ensures
        distinct(enqueued(s, x)),
        enqueued(s, x).contains(x),
{
    if !s.contains(x) {
        assert(s.push(x)[s.len() as int] == x);
    }
}

proof fn lemma_prepended(s: Seq<SoundId>, x: SoundId)
    requires
        distinct(s),
        !s.contains(x),
    ensures
        distinct(seq![x] + s),
{
    let t = seq![x] + s;
    assert forall|i: int, j: int| 0 <= i < j < t.len() implies t[i] != t[j] by {
        if i == 0 {
            assert(t[j] == s[j - 1]);
        } else {
            assert(t[i] == s[i - 1]);
            assert(t[j] == s[j - 1]);
        }
    }
}

fn contains_sound(v: &Vec<SoundId>, x: SoundId) -> (r: bool)
    ensures
        r == v@.contains(x),
{
    let mut i: usize = 0;
    while i < v.len()
        invariant
            0 <= i <= v@.len(),
            forall|k: int| 0 <= k < i ==> v@[k] != x,
        decreases v@.len() - i,
    {
        if v[i] == x {
            return true;
        }
        i = i + 1;
    }
    false
}

fn remove_sound(v: &Vec<SoundId>, x: SoundId) -> (r: Vec<SoundId>)
    ensures
        r@ == removed(v@, x),
{
    let mut out: Vec<SoundId> = Vec::new();
    let mut i: usize = 0;
    while i < v.len()
        invariant
            0 <= i <= v@.len(),
            out@ == removed(v@.take(i as int), x),
        decreases v@.len() - i,
    {
        assert(v@.take(i as int + 1).drop_last() =~= v@.take(i as int));
        assert(v@.take(i as int + 1).last() == v@[i as int]);
        if v[i] != x {
            out.push(v[i]);
        }
        i = i + 1;
    }
    assert(v@.take(v@.len() as int) =~= v@);
    out
}

fn remote_sound(remotes: &Vec<RemoteInfo>, id: RemoteId) -> (r: Option<Option<BuzzerSound>>)
    ensures
        r == remote_sound_from(remotes@, id, 0),
{
    let mut i: usize = 0;
    while i < remotes.len()
        invariant
            0 <= i <= remotes@.len(),
            remote_sound_from(remotes@, id, 0) == remote_sound_from(remotes@, id, i as int),
        decreases remotes@.len() - i,
    {
        if remotes[i].id == id {
            return Some(remotes[i].sound);
        }
        i = i + 1;
    }
    None
}

/// How the request `id` is played under `settings`.
pub fn plan_sound(id: SoundId, settings: &SoundSettings, flash: bool) -> (r: Option<SoundPlan>)
    ensures
        r == plan(id, *settings, flash),
{
    match id {
        SoundId::AutoBuzzer => Some(
            SoundPlan {
                id,
                clip: Clip::Buzzer(settings.buzzer_sound),
                repeat: true,
                timed: true,
                whistle_volumes: false,
                flash,
            },
        ),
        SoundId::TestBuzzer(s) => Some(
            SoundPlan {
                id,
                clip: Clip::Buzzer(s),
                repeat: true,
                timed: true,
                whistle_volumes: false,
                flash: false,
            },
        ),
        SoundId::Whistle => Some(
            SoundPlan {
                id,
                clip: Clip::Whistle,
                repeat: false,
                timed: false,
                whistle_volumes: true,
                flash: false,
            },
        ),
        SoundId::CountdownBeep => Some(
            SoundPlan {
                id,
                clip: Clip::Countdown,
                repeat: false,
                timed: false,
                whistle_volumes: false,
                flash: false,
            },
        ),
        SoundId::ManualAlarm | SoundId::WiredButton => Some(
            SoundPlan {
                id,
                clip: Clip::Buzzer(settings.buzzer_sound),
                repeat: true,
                timed: false,
                whistle_volumes: false,
                flash,
            },
        ),
        SoundId::WirelessButton(r) => match remote_sound(&settings.remotes, r) {
            Some(own) => Some(
                SoundPlan {
                    id,
                    clip: Clip::Buzzer(
                        match own {
                            Some(s) => s,
                            None => settings.buzzer_sound,
                        },
                    ),
                    repeat: true,
                    timed: false,
                    whistle_volumes: false,
                    flash,
                },
            ),
            None => None,
        },
    }
}

/// The requested sounds, front first, and the one playing.
pub struct SoundQueue {
    queue: Vec<SoundId>,
    playing: Option<SoundId>,
}

impl View for SoundQueue {
    type V = (Seq<SoundId>, Option<SoundId>);

    closed spec fn view(&self) -> (Seq<SoundId>, Option<SoundId>) {
        (self.queue@, self.playing)
    }
}

impl SoundQueue {
    /// Nothing requested, nothing playing.
    pub fn new() -> (r: SoundQueue)
        ensures
            r@.0.len() == 0,
            r@.1 is None,
            distinct(r@.0),
    {
        SoundQueue { queue: Vec::new(), playing: None }
    }

    /// The requested sounds, front first.
    pub fn queued(&self) -> (r: &Vec<SoundId>)
        ensures
            r@ == self@.0,
    {
        &self.queue
    }

    /// The sound playing, if any.
    pub fn playing(&self) -> (r: Option<SoundId>)
        ensures
            r == self@.1,
    {
        self.playing
    }

    fn enqueue(&mut self, x: SoundId)
        requires
            distinct(old(self)@.0),
        ensures
            final(self)@ == (enqueued(old(self)@.0, x), old(self)@.1),
            distinct(final(self)@.0),
    {
        proof {
            lemma_enqueued(self.queue@, x);
        }
        if !contains_sound(&self.queue, x) {
            self.queue.push(x);
        }
    }

    fn remove(&mut self, x: SoundId)
        requires
            distinct(old(self)@.0),
        ensures
            final(self)@ == (removed(old(self)@.0, x), old(self)@.1),
            distinct(final(self)@.0),
    {
        proof {
            lemma_removed(self.queue@, x);
        }
        self.queue = remove_sound(&self.queue, x);
    }

    /// Applies a request; `remotes` are the known wireless remotes.
    pub fn on_message(&mut self, msg: SoundMessage, remotes: &Vec<RemoteInfo>) -> (effect:
        MessageEffect)
        requires
            distinct(old(self)@.0),
        ensures
            distinct(final(self)@.0),
            ({
                let (q, p, e) = after_message(old(self)@.0, old(self)@.1, msg, remotes@);
                final(self)@ == (q, p) && effect == e
            }),
    {
        match msg {
            SoundMessage::TriggerBuzzer => {
                self.enqueue(SoundId::AutoBuzzer);
                MessageEffect::NoEffect
            },
            SoundMessage::TriggerWhistle => {
                self.enqueue(SoundId::Whistle);
                MessageEffect::NoEffect
            },
            SoundMessage::TriggerCountdownBeep => {
                self.enqueue(SoundId::CountdownBeep);
                MessageEffect::NoEffect
            },
            SoundMessage::StartManualBuzzer => {
                if !contains_sound(&self.queue, SoundId::ManualAlarm) {
                    proof {
                        lemma_prepended(self.queue@, SoundId::ManualAlarm);
                    }
                    self.queue.insert(0, SoundId::ManualAlarm);
                    assert(self.queue@ =~= seq![SoundId::ManualAlarm] + old(self)@.0);
                }
                MessageEffect::NoEffect
            },
            SoundMessage::StopManualBuzzer => {
                self.remove(SoundId::ManualAlarm);
                MessageEffect::NoEffect
            },
            SoundMessage::TestBuzzer(s) => {
                self.enqueue(SoundId::TestBuzzer(s));
                MessageEffect::NoEffect
            },
            SoundMessage::ReloadAudioOutput => {
                let was = self.playing;
                self.playing = None;
                MessageEffect::ReloadOutput(was)
            },
            SoundMessage::StartWiredBuzzer => {
                self.enqueue(SoundId::WiredButton);
                MessageEffect::NoEffect
            },
            SoundMessage::StopWiredBuzzer => {
                self.remove(SoundId::WiredButton);
                MessageEffect::NoEffect
            },
            SoundMessage::WirelessRemoteReceived(id) => {
                if remote_sound(remotes, id).is_some() {
                    self.enqueue(SoundId::WirelessButton(id));
                    MessageEffect::ArmButtonTimer(id)
                } else {
                    MessageEffect::NoEffect
                }
            },
        }
    }

    /// A sound ended by itself (its time ran out, or its button was
    /// released): it leaves the queue.
    pub fn on_sound_ended(&mut self, id: SoundId)
        requires
            distinct(old(self)@.0),
        ensures
            distinct(final(self)@.0),
            final(self)@ == (removed(old(self)@.0, id), old(self)@.1),
    {
        self.remove(id);
    }

    /// Decides what to stop and start so that the front of the queue plays,
    /// and records what plays afterwards.
    pub fn next_action(&mut self, settings: &SoundSettings) -> (action: SoundAction)
        ensures
            final(self)@.0 == old(self)@.0,
            final(self)@.1 == next_step(old(self)@.0, old(self)@.1, *settings).0,
            action == next_step(old(self)@.0, old(self)@.1, *settings).1,
    {
        match self.playing {
            Some(p) => {
                if self.queue.len() == 0 {
                    self.playing = None;
                    SoundAction { stop: Some(p), start: None }
                } else if p != self.queue[0] {
                    let pl = plan_sound(self.queue[0], settings, p == SoundId::Whistle);
                    self.playing = match pl {
                        Some(_) => Some(self.queue[0]),
                        None => None,
                    };
                    SoundAction { stop: Some(p), start: pl }
                } else {
                    SoundAction { stop: None, start: None }
                }
            },
            None => {
                if self.queue.len() == 0 {
                    SoundAction { stop: None, start: None }
                } else {
                    let pl = plan_sound(self.queue[0], settings, true);
                    self.playing = match pl {
                        Some(_) => Some(self.queue[0]),
                        None => None,
                    };
                    SoundAction { stop: None, start: pl }
                }
            },
        }
    }
}

/// The manual alarm jumps the queue: once requested, the next action plays
/// it, stopping any other sound.
pub proof fn lemma_manual_alarm_takes_priority(
    q: Seq<SoundId>,
    playing: Option<SoundId>,
    remotes: Seq<RemoteInfo>,
    settings: SoundSettings,
)
    requires
        !q.contains(SoundId::ManualAlarm),
        playing != Some(SoundId::ManualAlarm),
    ensures
        ({
            let (q1, p1, _) = after_message(q, playing, SoundMessage::StartManualBuzzer, remotes);
            let (p2, action) = next_step(q1, p1, settings);
            &&& q1[0] == SoundId::ManualAlarm
            &&& p2 == Some(SoundId::ManualAlarm)
            &&& action.start matches Some(pl) && pl.id == SoundId::ManualAlarm
            &&& action.stop == playing
        }),
{
    let q1 = seq![SoundId::ManualAlarm] + q;
    assert(q1[0] == SoundId::ManualAlarm);
}

/// Stopping the manual alarm or the wired button takes it out of the queue
/// entirely, leaving every other request queued.
pub proof fn lemma_stop_removes_only_that_sound(
    q: Seq<SoundId>,
    playing: Option<SoundId>,
    remotes: Seq<RemoteInfo>,
    y: SoundId,
)
    ensures
        ({
            let (q1, _, _) = after_message(q, playing, SoundMessage::StopManualBuzzer, remotes);
            &&& !q1.contains(SoundId::ManualAlarm)
            &&& (y != SoundId::ManualAlarm ==> (q1.contains(y) <==> q.contains(y)))
        }),
        ({
            let (q1, _, _) = after_message(q, playing, SoundMessage::StopWiredBuzzer, remotes);
            &&& !q1.contains(SoundId::WiredButton)
            &&& (y != SoundId::WiredButton ==> (q1.contains(y) <==> q.contains(y)))
        }),
{
    lemma_removed(q, SoundId::ManualAlarm);
    lemma_removed(q, SoundId::WiredButton);
}

/// After the next action, what plays is the front of the queue (when it can
/// be played), and nothing plays when the queue is empty.
pub proof fn lemma_front_plays(q: Seq<SoundId>, playing: Option<SoundId>, settings: SoundSettings)
    requires
        q.len() > 0 ==> plan(q[0], settings, true) is Some,
    ensures
        q.len() == 0 ==> next_step(q, playing, settings).0 is None,
        q.len() > 0 ==> next_step(q, playing, settings).0 == Some(q[0]),
{
}

/// Looking a remote up from position `k` finds the first remote at or after
/// `k` with that identity, and finds nothing when there is none.
proof fn lemma_remote_sound_from(remotes: Seq<RemoteInfo>, id: RemoteId, k: int)
    requires
        0 <= k,
    ensures
        remote_sound_from(remotes, id, k) is Some <==> exists|i: int|
            k <= i < remotes.len() && (#[trigger] remotes[i]).id == id,
        forall|j: int|
            k <= j < remotes.len() && (#[trigger] remotes[j]).id == id && (forall|i: int|
                k <= i < j ==> remotes[i].id != id) ==> remote_sound_from(remotes, id, k) == Some(
                remotes[j].sound,
            ),
    decreases remotes.len() - k,
{
    if k < remotes.len() {
        lemma_remote_sound_from(remotes, id, k + 1);
        if remotes[k].id != id {
            assert forall|j: int|
                k <= j < remotes.len() && (#[trigger] remotes[j]).id == id implies j >= k + 1 by {}
        }
    }
}

/// Each request plays its own recording, in its own way, whatever the
/// settings: the whistle plays the whistle clip once at the whistle volumes;
/// the countdown beep plays the countdown clip once; the automatic buzzer
/// repeats the chosen buzzer sound for a fixed time, and a buzzer test the
/// sound under test; the manual alarm and the wired button repeat the chosen
/// buzzer sound until stopped; a wireless button repeats its remote's own
/// sound (the chosen one when it has none) until stopped, and plays nothing
/// when no remote has its identity. Only buzzers pressed or sounded by the
/// clock may flash the display, and only when flashing is allowed.
pub proof fn lemma_each_sound_plays_its_own_clip(id: SoundId, settings: SoundSettings, flash: bool)
    ensures
        plan(id, settings, flash) matches Some(p) ==> p.id == id,
        id == SoundId::Whistle ==> (plan(id, settings, flash) matches Some(p) && p.clip
            == Clip::Whistle && !p.repeat && !p.timed && p.whistle_volumes && !p.flash),
        id == SoundId::CountdownBeep ==> (plan(id, settings, flash) matches Some(p) && p.clip
            == Clip::Countdown && !p.repeat && !p.timed && !p.whistle_volumes && !p.flash),
        id == SoundId::AutoBuzzer ==> (plan(id, settings, flash) matches Some(p) && p.clip
            == Clip::Buzzer(settings.buzzer_sound) && p.repeat && p.timed && !p.whistle_volumes
            && p.flash == flash),
        id matches SoundId::TestBuzzer(b) ==> (plan(id, settings, flash) matches Some(p) && p.clip
            == Clip::Buzzer(b) && p.repeat && p.timed && !p.whistle_volumes && !p.flash),
        id == SoundId::ManualAlarm || id == SoundId::WiredButton ==> (plan(
            id,
            settings,
            flash,
        ) matches Some(p) && p.clip == Clip::Buzzer(settings.buzzer_sound) && p.repeat && !p.timed
            && !p.whistle_volumes && p.flash == flash),
        id matches SoundId::WirelessButton(r) ==> {
            &&& plan(id, settings, flash) is Some <==> exists|i: int|
                0 <= i < settings.remotes@.len() && (#[trigger] settings.remotes@[i]).id == r
            &&& forall|j: int|
                0 <= j < settings.remotes@.len() && (#[trigger] settings.remotes@[j]).id == r
                    && (forall|i: int| 0 <= i < j ==> settings.remotes@[i].id != r) ==> (plan(
                    id,
                    settings,
                    flash,
                ) matches Some(p) && p.clip == Clip::Buzzer(
                    match settings.remotes@[j].sound {
                        Some(b) => b,
                        None => settings.buzzer_sound,
                    },
                ) && p.repeat && !p.timed && !p.whistle_volumes && p.flash == flash)
        },
{
    if let SoundId::WirelessButton(r) = id {
        lemma_remote_sound_from(settings.remotes@, r, 0);
    }
}

/// The sound a request to play asks for: the automatic buzzer, the whistle,
/// the countdown beep, a buzzer test, the wired button; none for the other
/// messages.
pub open spec fn requested_sound(msg: SoundMessage) -> Option<SoundId> {
    match msg {
        SoundMessage::TriggerBuzzer => Some(SoundId::AutoBuzzer),
        SoundMessage::TriggerWhistle => Some(SoundId::Whistle),
        SoundMessage::TriggerCountdownBeep => Some(SoundId::CountdownBeep),
        SoundMessage::TestBuzzer(b) => Some(SoundId::TestBuzzer(b)),
        SoundMessage::StartWiredBuzzer => Some(SoundId::WiredButton),
        _ => None,
    }
}

/// Each request to play queues its own sound at the back, once: the queue
/// afterwards holds it, keeps everything queued before in its order, and
/// grows by one only when the sound was not queued yet. The manual alarm goes
/// to the front instead. No message but a reload changes what plays.
pub proof fn lemma_message_queues_its_own_sound(
    q: Seq<SoundId>,
    playing: Option<SoundId>,
    msg: SoundMessage,
    remotes: Seq<RemoteInfo>,
)
    ensures
        requested_sound(msg) matches Some(id) ==> {
            let q2 = after_message(q, playing, msg, remotes).0;
            &&& q2.contains(id)
            &&& q2.take(q.len() as int) == q
            &&& q2.len() == (if q.contains(id) {
                q.len()
            } else {
                q.len() + 1
            })
            &&& q2[q2.len() - 1] == id || q.contains(id)
        },
        msg == SoundMessage::StartManualBuzzer ==> {
            let q2 = after_message(q, playing, msg, remotes).0;
            &&& q2.contains(SoundId::ManualAlarm)
            &&& !q.contains(SoundId::ManualAlarm) ==> q2 == seq![SoundId::ManualAlarm] + q
            &&& q.contains(SoundId::ManualAlarm) ==> q2 == q
        },
        msg != SoundMessage::ReloadAudioOutput ==> after_message(q, playing, msg, remotes).1
            == playing,
        msg == SoundMessage::ReloadAudioOutput ==> after_message(q, playing, msg, remotes)
            == (q, None::<SoundId>, MessageEffect::ReloadOutput(playing)),
{
    if let Some(id) = requested_sound(msg) {
        let q2 = after_message(q, playing, msg, remotes).0;
        if !q.contains(id) {
            assert(q2 == q.push(id));
            assert(q2.take(q.len() as int) =~= q);
            assert(q2[q2.len() - 1] == id);
            assert(q2.contains(id));
        } else {
            assert(q2 == q);
            assert(q2.take(q.len() as int) =~= q);
        }
    }
    if msg == SoundMessage::StartManualBuzzer && !q.contains(SoundId::ManualAlarm) {
        let q2 = seq![SoundId::ManualAlarm] + q;
        assert(q2[0] == SoundId::ManualAlarm);
    }
}

} // verus!
