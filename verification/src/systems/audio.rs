//! The sound effects the game plays and the sound files behind them.

use vstd::prelude::*;

verus! {

/// A sound effect, raised by the rules and played by the audio system.
#[derive(Clone, Copy, PartialEq, Eq, Structural, Debug)]
pub enum SoundEffect {
    /// A tower shoots a projectile.
    ArrowShoot,
    /// A worker cuts wood.
    AxeHit,
    /// A worker mines gold.
    PickaxeHit,
    /// A worker harvests a sheep.
    SheepHarvest,
    /// The castle takes damage.
    CastleDamage,
    /// A worker brings a resource home.
    Reward,
    /// A menu button is pressed.
    ButtonClick,
}

/// The sound file an effect plays.
pub open spec fn effect_file(effect: SoundEffect) -> Seq<char> {
    match effect {
        SoundEffect::ArrowShoot => "Sound Effects/attack_arrow.mp3"@,
        SoundEffect::AxeHit => "Sound Effects/axe.mp3"@,
        SoundEffect::PickaxeHit => "Sound Effects/pickaxe.mp3"@,
        SoundEffect::SheepHarvest => "Sound Effects/sheep.mp3"@,
        SoundEffect::CastleDamage => "Sound Effects/castle_demage.mp3"@,
        SoundEffect::Reward => "Sound Effects/reward.mp3"@,
        SoundEffect::ButtonClick => "Sound Effects/choose.mp3"@,
    }
}

/// The sound file an effect plays.
pub fn sound_file(effect: SoundEffect) -> (r: &'static str)
    ensures
        r@ == effect_file(effect),
{
    match effect {
        SoundEffect::ArrowShoot => "Sound Effects/attack_arrow.mp3",
        SoundEffect::AxeHit => "Sound Effects/axe.mp3",
        SoundEffect::PickaxeHit => "Sound Effects/pickaxe.mp3",
        SoundEffect::SheepHarvest => "Sound Effects/sheep.mp3",
        SoundEffect::CastleDamage => "Sound Effects/castle_demage.mp3",
        SoundEffect::Reward => "Sound Effects/reward.mp3",
        SoundEffect::ButtonClick => "Sound Effects/choose.mp3",
    }
}

/// The music that loops in the background.
pub fn background_music_file() -> (r: &'static str)
    ensures
        r@ == "Sound Effects/medieval_soundtrack.mp3"@,
{
    "Sound Effects/medieval_soundtrack.mp3"
}

} // verus!
