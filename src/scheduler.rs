//! Time-of-day automation: presets that fire at a given minute on chosen weekdays.
use vstd::prelude::*;
use crate::color::Rgb;
use crate::effects::EffectType;
use crate::text::string_from_chars;

verus! {

/// A time of day, to the minute.
#[derive(Clone, Copy, Debug, PartialEq, Eq, Structural)]
pub struct TimeOfDay {
    pub hour: u8,
    pub minute: u8,
}

impl TimeOfDay {
    /// A valid time: hour 0..=23, minute 0..=59.
    pub fn new(hour: u8, minute: u8) -> (t: Result<TimeOfDay, &'static str>)
        ensures
            t is Ok <==> hour <= 23 && minute <= 59,
            t is Ok ==> t->Ok_0 == (TimeOfDay { hour, minute }),
    {
        if hour > 23 || minute > 59 {
            return Err("Invalid time");
        }
        Ok(TimeOfDay { hour, minute })
    }

    /// Minutes since midnight.
    pub fn to_minutes(&self) -> (m: u16)
        ensures
            m == self.hour as int * 60 + self.minute as int,
    {
        (self.hour as u16) * 60 + (self.minute as u16)
    }
}

/// What a schedule applies: an effect and, optionally, a color, a brightness (0..=255) and a speed.
#[derive(Clone, Copy, Debug, PartialEq, Eq, Structural)]
pub struct SchedulePreset {
    pub effect: EffectType,
    pub color: Option<Rgb>,
    pub brightness: Option<u8>,
    pub speed: Option<u8>,
}

pub open spec fn is_off_spec(p: SchedulePreset) -> bool {
    p.effect == EffectType::Static && p.color == Some(Rgb { r: 0, g: 0, b: 0 })
}

impl SchedulePreset {
    pub fn new(effect: EffectType) -> (p: SchedulePreset)
        ensures
            p == (SchedulePreset { effect, color: None, brightness: None, speed: None }),
    {
        SchedulePreset { effect, color: None, brightness: None, speed: None }
    }

    pub fn with_color(effect: EffectType, color: Rgb) -> (p: SchedulePreset)
        ensures
            p == (SchedulePreset { effect, color: Some(color), brightness: None, speed: None }),
    {
        SchedulePreset { effect, color: Some(color), brightness: None, speed: None }
    }

    pub fn with_all(effect: EffectType, color: Option<Rgb>, brightness: Option<u8>, speed: Option<u8>) -> (p: SchedulePreset)
        ensures
            p == (SchedulePreset { effect, color, brightness, speed }),
    {
        SchedulePreset { effect, color, brightness, speed }
    }

    /// The "lights off" preset: static black.
    pub fn off() -> (p: SchedulePreset)
        ensures
            p == (SchedulePreset { effect: EffectType::Static, color: Some(Rgb { r: 0, g: 0, b: 0 }), brightness: None, speed: None }),
            is_off_spec(p),
    {
        SchedulePreset { effect: EffectType::Static, color: Some(Rgb { r: 0, g: 0, b: 0 }), brightness: None, speed: None }
    }

    pub fn is_off(&self) -> (r: bool)
        ensures
            r == is_off_spec(*self),
    {
        match self.effect {
            EffectType::Static => match self.color {
                Some(c) => c.r == 0 && c.g == 0 && c.b == 0,
                None => false,
            },
            _ => false,
        }
    }

    pub fn on(effect: EffectType, color: Option<Rgb>, brightness: Option<u8>, speed: Option<u8>) -> (p: SchedulePreset)
        ensures
            p == (SchedulePreset { effect, color, brightness, speed }),
    {
        SchedulePreset { effect, color, brightness, speed }
    }
}

/// A preset applied at `time` on the weekdays marked in `days` (0 = Monday .. 6 = Sunday).
#[derive(Clone, Copy, Debug)]
pub struct Schedule {
    pub id: usize,
    pub enabled: bool,
    pub preset: SchedulePreset,
    pub time: TimeOfDay,
    pub days: [bool; 7],
}

pub open spec fn triggers(s: Schedule, t: TimeOfDay, day: u8) -> bool {
    s.enabled && day <= 6 && s.days@[day as int] && s.time == t
}

/// The marked weekdays as digits separated by commas, e.g. `0,2,4`.
pub open spec fn days_text(days: Seq<bool>, n: int) -> Seq<char>
    decreases n,
{
    if n <= 0 {
        Seq::empty()
    } else {
        let before = days_text(days, n - 1);
        if days[n - 1] {
            if before.len() == 0 { seq![(48 + n - 1) as char] } else { before.push(',').push((48 + n - 1) as char) }
        } else {
            before
        }
    }
}

/// The name the control surface uses for an effect.
pub open spec fn effect_word(e: EffectType) -> &'static str {
    match e {
        EffectType::Static => "static",
        EffectType::Rainbow => "rainbow",
        EffectType::Breathe => "breathe",
        EffectType::Comet => "comet",
        EffectType::VuMeter => "vumeter",
        EffectType::Scanner => "scanner",
        EffectType::TheaterChase => "theaterchase",
        EffectType::Bounce => "bounce",
        EffectType::ColorWipe => "colorwipe",
        EffectType::Gravimeter => "gravimeter",
        EffectType::RadialPulseEffect => "pulse",
    }
}

impl Schedule {
    /// Whether the schedule fires at `current_time` on weekday `current_day`.
    pub fn should_trigger(&self, current_time: TimeOfDay, current_day: u8) -> (r: bool)
        ensures
            r == triggers(*self, current_time, current_day),
    {
        if !self.enabled {
            return false;
        }
        if current_day > 6 {
            return false;
        }
        if !self.days[current_day as usize] {
            return false;
        }
        self.time.hour == current_time.hour && self.time.minute == current_time.minute
    }

    pub fn days_string(&self) -> (s: String)
        ensures
            s@ == days_text(self.days@, 7),
    {
        let mut out: Vec<char> = Vec::new();
        let mut i: usize = 0;
        while i < 7
            invariant
                i <= 7,
                out@ == days_text(self.days@, i as int),
            decreases 7 - i,
        {
            if self.days[i] {
                if out.len() > 0 {
                    out.push(',');
                }
                out.push(((48 + i) as u8) as char);
            }
            i += 1;
            assert(out@ =~= days_text(self.days@, i as int));
        }
        string_from_chars(&out)
    }

    /// The name the control surface uses for the preset's effect (`off` for the off preset).
    pub fn effect_string(&self) -> (w: &'static str)
        ensures
            w == if is_off_spec(self.preset) { "off" } else { effect_word(self.preset.effect) },
    {
        if self.preset.is_off() {
            return "off";
        }
        match self.preset.effect {
            EffectType::Static => "static",
            EffectType::Rainbow => "rainbow",
            EffectType::Breathe => "breathe",
            EffectType::Comet => "comet",
            EffectType::VuMeter => "vumeter",
            EffectType::Scanner => "scanner",
            EffectType::TheaterChase => "theaterchase",
            EffectType::Bounce => "bounce",
            EffectType::ColorWipe => "colorwipe",
            EffectType::Gravimeter => "gravimeter",
            EffectType::RadialPulseEffect => "pulse",
        }
    }

    pub fn is_off(&self) -> (r: bool)
        ensures
            r == is_off_spec(self.preset),
    {
        self.preset.is_off()
    }
}

/// Schedules the scheduler holds at most.
pub const MAX_SCHEDULES: usize = 16;

/// Index of the first schedule with identifier `id`, or the length when there is none.
pub open spec fn first_with_id(s: Seq<Schedule>, id: usize) -> int
    decreases s.len(),
{
    if s.len() == 0 {
        0
    } else if s[0].id == id {
        0
    } else {
        1 + first_with_id(s.drop_first(), id)
    }
}

/// Index of the first schedule that fires, or the length when none does.
pub open spec fn first_trigger(s: Seq<Schedule>, t: TimeOfDay, day: u8) -> int
    decreases s.len(),
{
    if s.len() == 0 {
        0
    } else if triggers(s[0], t, day) {
        0
    } else {
        1 + first_trigger(s.drop_first(), t, day)
    }
}

proof fn lemma_first_with_id(s: Seq<Schedule>, id: usize, k: int)
    requires
        0 <= k <= s.len(),
        forall|j: int| 0 <= j < k ==> s[j].id != id,
        k < s.len() ==> s[k].id == id,
    ensures
        first_with_id(s, id) == k,
    decreases s.len(),
{
    if s.len() > 0 && k > 0 {
        lemma_first_with_id(s.drop_first(), id, k - 1);
    }
}

proof fn lemma_first_trigger(s: Seq<Schedule>, t: TimeOfDay, day: u8, k: int)
    requires
        0 <= k <= s.len(),
        forall|j: int| 0 <= j < k ==> !triggers(s[j], t, day),
        k < s.len() ==> triggers(s[k], t, day),
    ensures
        first_trigger(s, t, day) == k,
    decreases s.len(),
{
    if s.len() > 0 && k > 0 {
        lemma_first_trigger(s.drop_first(), t, day, k - 1);
    }
}

/// The list of schedules, with fresh identifiers for new ones and a memory of
/// the last minute checked, so that each minute fires at most once.
pub struct LedScheduler {
    schedules: Vec<Schedule>,
    next_id: usize,
    last_check_minute: u16,
}

impl LedScheduler {
    pub closed spec fn schedules_spec(&self) -> Seq<Schedule> {
        self.schedules@
    }

    pub closed spec fn next_id_spec(&self) -> usize {
        self.next_id
    }

    pub closed spec fn last_check_spec(&self) -> u16 {
        self.last_check_minute
    }

    pub closed spec fn wf(&self) -> bool {
        self.schedules@.len() <= MAX_SCHEDULES
    }

    pub fn new() -> (s: LedScheduler)
        ensures
            s.wf(),
            s.schedules_spec().len() == 0,
            s.next_id_spec() == 0,
            s.last_check_spec() == 0xFFFF,
    {
        LedScheduler { schedules: Vec::new(), next_id: 0, last_check_minute: 0xFFFF }
    }

    /// Adds an enabled schedule and returns its identifier; fails when the list
    /// is full (the identifier is used up all the same) or identifiers ran out.
    pub fn add_schedule(&mut self, preset: SchedulePreset, time: TimeOfDay, days: [bool; 7]) -> (r: Result<usize, &'static str>)
        requires
            old(self).wf(),
        ensures
            final(self).wf(),
            final(self).last_check_spec() == old(self).last_check_spec(),
            r is Ok <==> old(self).schedules_spec().len() < MAX_SCHEDULES && old(self).next_id_spec() < usize::MAX,
            r is Ok ==> r->Ok_0 == old(self).next_id_spec() && final(self).next_id_spec() == old(self).next_id_spec() + 1
                && final(self).schedules_spec() == old(self).schedules_spec().push(
                Schedule { id: old(self).next_id_spec(), enabled: true, preset, time, days },
            ),
            r is Err ==> final(self).schedules_spec() == old(self).schedules_spec(),
    {
        if self.next_id == usize::MAX {
            return Err("Schedule identifiers exhausted");
        }
        let id = self.next_id;
        self.next_id = self.next_id + 1;
        if self.schedules.len() >= MAX_SCHEDULES {
            return Err("Schedule list full (max 16)");
        }
        self.schedules.push(Schedule { id, enabled: true, preset, time, days });
        Ok(id)
    }

    /// Removes the first schedule with identifier `id`: the last schedule takes its place.
    pub fn remove_schedule(&mut self, id: usize) -> (removed: bool)
        requires
            old(self).wf(),
        ensures
            final(self).wf(),
            final(self).next_id_spec() == old(self).next_id_spec(),
            final(self).last_check_spec() == old(self).last_check_spec(),
            removed == (first_with_id(old(self).schedules_spec(), id) < old(self).schedules_spec().len()),
            removed ==> {
                let s = old(self).schedules_spec();
                let k = first_with_id(s, id);
                final(self).schedules_spec() == s.update(k, s.last()).drop_last()
            },
            !removed ==> final(self).schedules_spec() == old(self).schedules_spec(),
    {
        let n = self.schedules.len();
        let mut k: usize = 0;
        while k < n
            invariant
                n == self.schedules@.len(),
                self.schedules@ == old(self).schedules@,
                self.schedules@.len() <= MAX_SCHEDULES,
                self.next_id == old(self).next_id,
                self.last_check_minute == old(self).last_check_minute,
                k <= n,
                forall|j: int| 0 <= j < k ==> self.schedules@[j].id != id,
            decreases n - k,
        {
            if self.schedules[k].id == id {
                proof {
                    lemma_first_with_id(self.schedules@, id, k as int);
                }
                let ghost s = self.schedules@;
                self.schedules.swap_remove(k);
                proof {
                    assert(self.schedules@ =~= s.update(k as int, s.last()).drop_last());
                }
                return true;
            }
            k += 1;
        }
        proof {
            lemma_first_with_id(self.schedules@, id, n as int);
        }
        false
    }

    /// Enables or disables the first schedule with identifier `id`.
    pub fn toggle_schedule(&mut self, id: usize, enable: bool) -> (found: bool)
        requires
            old(self).wf(),
        ensures
            final(self).wf(),
            final(self).next_id_spec() == old(self).next_id_spec(),
            final(self).last_check_spec() == old(self).last_check_spec(),
            found == (first_with_id(old(self).schedules_spec(), id) < old(self).schedules_spec().len()),
            found ==> {
                let s = old(self).schedules_spec();
                let k = first_with_id(s, id);
                final(self).schedules_spec() == s.update(k, Schedule { enabled: enable, ..s[k] })
            },
            !found ==> final(self).schedules_spec() == old(self).schedules_spec(),
    {
        let n = self.schedules.len();
        let mut k: usize = 0;
        while k < n
            invariant
                n == self.schedules@.len(),
                self.schedules@ == old(self).schedules@,
                self.schedules@.len() <= MAX_SCHEDULES,
                self.next_id == old(self).next_id,
                self.last_check_minute == old(self).last_check_minute,
                k <= n,
                forall|j: int| 0 <= j < k ==> self.schedules@[j].id != id,
            decreases n - k,
        {
            if self.schedules[k].id == id {
                proof {
                    lemma_first_with_id(self.schedules@, id, k as int);
                }
                let mut s = self.schedules[k];
                s.enabled = enable;
                self.schedules.set(k, s);
                return true;
            }
            k += 1;
        }
        proof {
            lemma_first_with_id(self.schedules@, id, n as int);
        }
        false
    }

    pub fn clear_all(&mut self)
        ensures
            final(self).wf(),
            final(self).schedules_spec().len() == 0,
            final(self).next_id_spec() == old(self).next_id_spec(),
            final(self).last_check_spec() == old(self).last_check_spec(),
    {
        self.schedules.clear();
    }

    /// At most once per minute of the day: the preset of the first schedule
    /// that fires at `current_time` on `current_day`, if any.
    pub fn check_and_execute(&mut self, current_time: TimeOfDay, current_day: u8) -> (p: Option<SchedulePreset>)
        requires
            old(self).wf(),
        ensures
            final(self).wf(),
            final(self).schedules_spec() == old(self).schedules_spec(),
            final(self).next_id_spec() == old(self).next_id_spec(),
            final(self).last_check_spec() == current_time.hour as int * 60 + current_time.minute as int,
            old(self).last_check_spec() == current_time.hour as int * 60 + current_time.minute as int ==> p is None,
            old(self).last_check_spec() != current_time.hour as int * 60 + current_time.minute as int ==> {
                let s = old(self).schedules_spec();
                let k = first_trigger(s, current_time, current_day);
                &&& k < s.len() ==> p == Some(s[k].preset)
                &&& k >= s.len() ==> p is None
            },
    {
        let m = current_time.to_minutes();
        if m == self.last_check_minute {
            return None;
        }
        self.last_check_minute = m;
        let n = self.schedules.len();
        let mut k: usize = 0;
        while k < n
            invariant
                n == self.schedules@.len(),
                self.schedules@ == old(self).schedules@,
                self.schedules@.len() <= MAX_SCHEDULES,
                self.next_id == old(self).next_id,
                self.last_check_minute == m,
                m == current_time.hour as int * 60 + current_time.minute as int,
                old(self).last_check_minute != m,
                k <= n,
                forall|j: int| 0 <= j < k ==> !triggers(self.schedules@[j], current_time, current_day),
            decreases n - k,
        {
            if self.schedules[k].should_trigger(current_time, current_day) {
                proof {
                    lemma_first_trigger(self.schedules@, current_time, current_day, k as int);
                }
                return Some(self.schedules[k].preset);
            }
            k += 1;
        }
        proof {
            lemma_first_trigger(self.schedules@, current_time, current_day, n as int);
        }
        None
    }

    pub fn get_all_schedules(&self) -> (s: &[Schedule])
        ensures
            s@ == self.schedules_spec(),
    {
        self.schedules.as_slice()
    }
}

} // verus!
