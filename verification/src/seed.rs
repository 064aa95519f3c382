//! Which seed a session runs on, and which seed is shown when the listener
//! switches from a random seed to a fixed one.

use rand::Rng;
use vstd::prelude::*;
use crate::config::{capped, Config, SEED_MAX};

verus! {

/// The seed of a session: the drawn one where the settings ask for a random
/// seed, else the stored one, capped.
pub open spec fn chosen_seed(random: bool, stored: u64, drawn: u16) -> u64 {
    if random {
        drawn as u64
    } else {
        capped(stored)
    }
}

/// The seed to show when the random switch changes, if any. Only the change
/// from random to fixed shows one: the running seed where the session began
/// on a random seed or no seed is stored (a stored `0` counts as none), else
/// the stored seed.
pub open spec fn shown_seed(
    was_random: bool,
    now_random: bool,
    began_random: bool,
    stored: u64,
    running: u64,
) -> Option<u64> {
    if was_random && !now_random {
        if began_random || stored == 0 {
            Some(running)
        } else {
            Some(stored)
        }
    } else {
        None
    }
}

/// Calls `rand::rng()` and `Rng::random::<u16>` on it: one draw from the
/// thread's generator. Nothing is claimed of the value. The generator is
/// made on a thread's first draw and panics there if the operating system
/// gives it no entropy.
#[verifier::external_body]
fn draw_seed() -> u16 {
    rand::rng().random()
}

/// Picks the seed of a session from the settings and a drawn value.
pub fn pick_seed(random: bool, stored: u64, drawn: u16) -> (seed: u64)
    ensures
        seed == chosen_seed(random, stored, drawn),
        seed <= SEED_MAX,
{
    if random {
        drawn as u64
    } else if stored > SEED_MAX {
        SEED_MAX
    } else {
        stored
    }
}

/// Whether `drawn` is a value that one draw from the thread's generator may
/// give.
pub closed spec fn may_draw(drawn: u16) -> bool {
    call_ensures(draw_seed, (), drawn)
}

/// The seed of a new session: where the settings ask for a random seed, a
/// freshly drawn one; else the stored one, capped. A value is drawn only
/// where the settings ask for a random seed.
pub fn session_seed(cfg: &Config) -> (seed: u64)
    ensures
        seed <= SEED_MAX,
        !cfg.random ==> seed == capped(cfg.seed),
        cfg.random ==> exists|drawn: u16| #[trigger]
            may_draw(drawn) && seed == chosen_seed(true, cfg.seed, drawn),
{
    if cfg.random {
        let drawn: u16 = draw_seed();
        assert(may_draw(drawn));
        pick_seed(true, cfg.seed, drawn)
    } else {
        pick_seed(false, cfg.seed, 0)
    }
}

/// The seed to show after the random switch went from `was_random` to
/// `now_random`, if the change shows one.
pub fn revealed_seed(
    was_random: bool,
    now_random: bool,
    began_random: bool,
    stored: u64,
    running: u64,
) -> (r: Option<u64>)
    ensures
        r == shown_seed(was_random, now_random, began_random, stored, running),
{
    if was_random && !now_random {
        if began_random {
            Some(running)
        } else if stored != 0 {
            Some(stored)
        } else {
            Some(running)
        }
    } else {
        None
    }
}

} // verus!
