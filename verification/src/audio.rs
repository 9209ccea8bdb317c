//! Sound categories and the integer parts of procedural sound synthesis:
//! the seeded xorshift generator, per-event seeds and the voice budget.

use vstd::prelude::*;

pub mod wav;
pub mod arpeggio;

verus! {

/// Combat / expansion sound category.
#[derive(Clone, Copy, Debug, PartialEq, Eq, Structural)]
pub enum CombatSoundKind {
    WildernessExpansion,
    AttackHuman,
    AttackEmpire,
    AttackTribe,
    CounterAttack,
}

/// Player archetype for death sounds.
#[derive(Clone, Copy, Debug, PartialEq, Eq, Structural)]
pub enum PlayerSoundType {
    Human,
    Nation,
    Bot,
}

/// Structure type for placement and completion sounds.
#[derive(Clone, Copy, Debug, PartialEq, Eq, Structural)]
pub enum BuildingSoundKind {
    City,
    Bunker,
    Factory,
    Port,
}

/// Mixing priority of a sound.
#[derive(Clone, Copy, Debug, PartialEq, Eq, Structural)]
pub enum SoundPriority {
    Background,
    Normal,
    Foreground,
}

/// Most simultaneous background voices.
pub const MAX_VOICES: u8 = 3;

/// Whether a sound of `priority` may start while `active` voices play:
/// background sounds below three voices, normal below four, foreground below five.
pub open spec fn may_play(priority: SoundPriority, active: u8) -> bool {
    match priority {
        SoundPriority::Background => active < 3,
        SoundPriority::Normal => active < 4,
        SoundPriority::Foreground => active < 5,
    }
}

/// Voice-budget check of the mixer.
pub fn should_play(priority: SoundPriority, active: u8) -> (r: bool)
    ensures
        r == may_play(priority, active),
{
    match priority {
        SoundPriority::Background => active < MAX_VOICES,
        SoundPriority::Normal => active < MAX_VOICES + 1,
        SoundPriority::Foreground => active < MAX_VOICES + 2,
    }
}

/// One xorshift32 step (shifts 13, 17, 5).
pub open spec fn xorshift(x: u32) -> u32 {
    let a = x ^ ((x << 13u32) as u32);
    let b = a ^ (a >> 17u32);
    b ^ ((b << 5u32) as u32)
}

/// Seeded xorshift32 generator used to vary synthesized sounds.
pub struct SimpleRng {
    pub state: u32,
}

impl SimpleRng {
    /// A generator seeded with `seed` (a zero seed is replaced by 0x12345678,
    /// since xorshift never leaves zero).
    pub fn new(seed: u32) -> (r: SimpleRng)
        ensures
            r.state == if seed == 0 { 0x12345678u32 } else { seed },
    {
        SimpleRng { state: if seed == 0 { 0x12345678 } else { seed } }
    }

    /// Advances the generator and returns the new state.
    pub fn next_u32(&mut self) -> (r: u32)
        ensures
            r == xorshift(old(self).state),
            final(self).state == r,
    {
        let mut x = self.state;
        x = x ^ (x << 13u32);
        x = x ^ (x >> 17u32);
        x = x ^ (x << 5u32);
        self.state = x;
        x
    }
}

/// A nonzero state stays nonzero: the generator never gets stuck at zero.
pub proof fn law_xorshift_never_zero(x: u32)
    requires
        x != 0,
    ensures
        xorshift(x) != 0,
{
    assert(x != 0 ==> (x ^ ((x << 13u32) as u32)) != 0) by (bit_vector);
    let a = x ^ ((x << 13u32) as u32);
    assert(a != 0 ==> (a ^ (a >> 17u32)) != 0) by (bit_vector);
    let b = a ^ (a >> 17u32);
    assert(b != 0 ==> (b ^ ((b << 5u32) as u32)) != 0) by (bit_vector);
}

/// A sound event of the runtime synthesizer.
#[derive(Clone, Copy, Debug, PartialEq, Eq, Structural)]
pub enum SfxEvent {
    Combat(CombatSoundKind),
    BuildingComplete(BuildingSoundKind),
    NuclearLaunch,
    NuclearImpact(u8),
}

/// Seed salt of each event, so that different events vary differently.
pub open spec fn event_salt(e: SfxEvent) -> u32 {
    match e {
        SfxEvent::Combat(CombatSoundKind::WildernessExpansion) => 1,
        SfxEvent::Combat(CombatSoundKind::AttackTribe) => 2,
        SfxEvent::Combat(CombatSoundKind::AttackEmpire) => 3,
        SfxEvent::Combat(CombatSoundKind::AttackHuman) => 4,
        SfxEvent::Combat(CombatSoundKind::CounterAttack) => 5,
        SfxEvent::BuildingComplete(BuildingSoundKind::City) => 6,
        SfxEvent::BuildingComplete(BuildingSoundKind::Bunker) => 7,
        SfxEvent::BuildingComplete(BuildingSoundKind::Factory) => 8,
        SfxEvent::BuildingComplete(BuildingSoundKind::Port) => 9,
        SfxEvent::NuclearLaunch => 10,
        SfxEvent::NuclearImpact(_) => 11,
    }
}

impl SfxEvent {
    /// The event's seed salt.
    pub fn seed(self) -> (r: u32)
        ensures
            r == event_salt(self),
    {
        match self {
            SfxEvent::Combat(CombatSoundKind::WildernessExpansion) => 1,
            SfxEvent::Combat(CombatSoundKind::AttackTribe) => 2,
            SfxEvent::Combat(CombatSoundKind::AttackEmpire) => 3,
            SfxEvent::Combat(CombatSoundKind::AttackHuman) => 4,
            SfxEvent::Combat(CombatSoundKind::CounterAttack) => 5,
            SfxEvent::BuildingComplete(BuildingSoundKind::City) => 6,
            SfxEvent::BuildingComplete(BuildingSoundKind::Bunker) => 7,
            SfxEvent::BuildingComplete(BuildingSoundKind::Factory) => 8,
            SfxEvent::BuildingComplete(BuildingSoundKind::Port) => 9,
            SfxEvent::NuclearLaunch => 10,
            SfxEvent::NuclearImpact(_) => 11,
        }
    }

    /// Initial generator of a synthesized event: `seed` mixed with the
    /// event's salt.
    pub fn rng(self, seed: u32) -> (r: SimpleRng)
        ensures
            r.state == if seed ^ event_salt(self) == 0 {
                0x12345678u32
            } else {
                seed ^ event_salt(self)
            },
    {
        SimpleRng::new(seed ^ self.seed())
    }
}

/// Event of the preview renderer.
#[derive(Clone, Copy, Debug, PartialEq, Eq, Structural)]
pub enum PreviewEvent {
    Capture(CombatSoundKind),
    BuildingComplete,
    NukeLaunch,
    NukeImpact,
}

/// Seed salt of a preview event.
pub open spec fn preview_salt(e: PreviewEvent) -> u32 {
    match e {
        PreviewEvent::Capture(CombatSoundKind::AttackTribe) => 1,
        PreviewEvent::Capture(CombatSoundKind::AttackEmpire) => 2,
        PreviewEvent::Capture(CombatSoundKind::AttackHuman) => 3,
        PreviewEvent::Capture(CombatSoundKind::WildernessExpansion) => 4,
        PreviewEvent::Capture(CombatSoundKind::CounterAttack) => 5,
        PreviewEvent::BuildingComplete => 6,
        PreviewEvent::NukeLaunch => 7,
        PreviewEvent::NukeImpact => 8,
    }
}

/// Seed salt of a preview event.
pub fn event_seed(event: PreviewEvent) -> (r: u32)
    ensures
        r == preview_salt(event),
{
    match event {
        PreviewEvent::Capture(CombatSoundKind::AttackTribe) => 1,
        PreviewEvent::Capture(CombatSoundKind::AttackEmpire) => 2,
        PreviewEvent::Capture(CombatSoundKind::AttackHuman) => 3,
        PreviewEvent::Capture(CombatSoundKind::WildernessExpansion) => 4,
        PreviewEvent::Capture(CombatSoundKind::CounterAttack) => 5,
        PreviewEvent::BuildingComplete => 6,
        PreviewEvent::NukeLaunch => 7,
        PreviewEvent::NukeImpact => 8,
    }
}

impl PreviewEvent {
    /// Mixing priority of a preview event: captures play in the background,
    /// the rest in the foreground.
    pub fn priority(self) -> (r: SoundPriority)
        ensures
            r == match self {
                PreviewEvent::Capture(_) => SoundPriority::Background,
                _ => SoundPriority::Foreground,
            },
    {
        match self {
            PreviewEvent::Capture(_) => SoundPriority::Background,
            _ => SoundPriority::Foreground,
        }
    }
}

} // verus!
