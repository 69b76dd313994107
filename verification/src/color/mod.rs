//! COLOR — turns the theme's keys into the roles applications ask for, and into tonal ramps.

mod content;
mod ramp;
mod role;
mod roles;

pub use content::{candidates, lemma_the_first_foreground_that_reads_wins, on_with, picked};
pub use ramp::{black, lemma_ramp_clamps, tonal_tone, white, Ramp};
pub use role::{lemma_role_order_lists_every_role_once, role_order, Level, Role};
pub use roles::{
    lemma_content_is_the_weight_asked_for, lemma_each_role_takes_its_own_ground, role_ground, Grounds,
    Levels, Roles,
};
