//! The mode a theme declares: it sets the direction surfaces and content are derived in.

use vstd::prelude::*;

use super::error::{ThemeError, ThemeErrorView};

verus! {

/// Whether the theme is built on a dark or a light ground.
#[derive(Debug, Clone, Copy, PartialEq, Eq, Structural)]
pub enum Mode {
    Dark,
    Light,
}

/// The mode a `mode` value names: exactly `dark` or `light`.
pub open spec fn mode_of_text(value: Seq<char>) -> Option<Mode> {
    if value == seq!['d', 'a', 'r', 'k'] {
        Some(Mode::Dark)
    } else if value == seq!['l', 'i', 'g', 'h', 't'] {
        Some(Mode::Light)
    } else {
        None
    }
}

impl Mode {
    pub fn parse(value: &str) -> (r: Result<Mode, ThemeError>)
        ensures
            match mode_of_text(value@) {
                Some(mode) => r == Ok::<Mode, ThemeError>(mode),
                None => (r matches Err(error) && error@ == ThemeErrorView::InvalidMode(value@)),
            },
    {
        proof {
            reveal_strlit("dark");
            reveal_strlit("light");
            assert("dark"@ =~= seq!['d', 'a', 'r', 'k']);
            assert("light"@ =~= seq!['l', 'i', 'g', 'h', 't']);
        }
        let text = value.to_owned();
        if text == "dark".to_owned() {
            Ok(Mode::Dark)
        } else if text == "light".to_owned() {
            Ok(Mode::Light)
        } else {
            Err(ThemeError::InvalidMode(text))
        }
    }

    pub fn is_dark(self) -> (r: bool)
        ensures
            r == (self == Mode::Dark),
    {
        matches!(self, Mode::Dark)
    }

    /// The other mode. Used when a transform makes a theme's colors read as the opposite ground,
    /// so mode-dependent derivations keep reasoning in the right direction.
    pub fn flipped(self) -> (r: Mode)
        ensures
            r == self.opposite(),
    {
        match self {
            Mode::Dark => Mode::Light,
            Mode::Light => Mode::Dark,
        }
    }

    /// The other of the two modes.
    pub open spec fn opposite(self) -> Mode {
        match self {
            Mode::Dark => Mode::Light,
            Mode::Light => Mode::Dark,
        }
    }
}

/// Flipping a mode lands on the other one, and flipping it again gives it back.
pub proof fn lemma_flip_is_an_involution(mode: Mode)
    ensures
        mode.opposite() != mode,
        mode.opposite().opposite() == mode,
        (mode.opposite() == Mode::Dark) == (mode != Mode::Dark),
{
}

} // verus!
