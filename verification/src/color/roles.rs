//! Every role resolved against one theme, each with the content colors that read on it.

use vstd::prelude::*;

use crate::theme::{Rgb, Theme};

use super::ramp::Ramp;
use super::role::{Level, Role};

verus! {

/// The three weights of content that read on one ground.
#[derive(Debug, Clone, Copy, PartialEq, Eq, Structural)]
pub struct Levels {
    pub primary: Rgb,
    pub secondary: Rgb,
    pub disabled: Rgb,
}

impl Levels {
    pub open spec fn of(self, level: Level) -> Rgb {
        match level {
            Level::Primary => self.primary,
            Level::Secondary => self.secondary,
            Level::Disabled => self.disabled,
        }
    }

    pub fn at(self, level: Level) -> (r: Rgb)
        ensures
            r == self.of(level),
    {
        match level {
            Level::Primary => self.primary,
            Level::Secondary => self.secondary,
            Level::Disabled => self.disabled,
        }
    }
}

/// The grounds the theme does not back directly and that are placed by tone: the raised and the
/// recessed surface, the border, and the focus and disabled variants.
#[derive(Debug, Clone, Copy, PartialEq, Eq, Structural)]
pub struct Grounds {
    pub raised: Rgb,
    pub recessed: Rgb,
    pub border: Rgb,
    pub focus: Rgb,
    pub disabled: Rgb,
}

#[derive(Debug, Clone, Copy, PartialEq, Eq, Structural)]
struct Pair {
    color: Rgb,
    content: Levels,
}

fn pair_on<L: Fn(Rgb) -> Levels>(color: Rgb, levels: &L) -> (p: Pair)
    requires
        levels.requires((color,)),
    ensures
        p.color == color,
        call_ensures(*levels, (color,), p.content),
{
    Pair { color, content: levels(color) }
}

/// Every role resolved against one theme, each with the content colors that read on it.
///
/// A theme leads as far as it serves: the roles it backs directly take its own keys, and the
/// others take the grounds placed off them.
#[derive(Debug, Clone, Copy, PartialEq, Eq, Structural)]
pub struct Roles {
    background: Pair,
    surface: Pair,
    surface_variant: Pair,
    border: Pair,
    primary: Pair,
    selection: Pair,
    muted: Pair,
    error: Pair,
    focus: Pair,
    disabled: Pair,
}

/// The color a role takes: the theme's own key for the roles it backs, a placed ground otherwise.
pub open spec fn role_ground(theme: Theme, grounds: Grounds, role: Role) -> Rgb {
    match role {
        Role::Background => theme.colors.background,
        Role::Elevated => grounds.raised,
        Role::Recessed => grounds.recessed,
        Role::Border => grounds.border,
        Role::Primary => theme.colors.accent,
        Role::Selection => theme.colors.selection,
        Role::Muted => theme.colors.muted,
        Role::Error => theme.colors.red,
        Role::Focus => grounds.focus,
        Role::Disabled => grounds.disabled,
    }
}

impl Roles {
    closed spec fn pair_of(self, role: Role) -> Pair {
        match role {
            Role::Background => self.background,
            Role::Elevated => self.surface,
            Role::Recessed => self.surface_variant,
            Role::Border => self.border,
            Role::Primary => self.primary,
            Role::Selection => self.selection,
            Role::Muted => self.muted,
            Role::Error => self.error,
            Role::Focus => self.focus,
            Role::Disabled => self.disabled,
        }
    }

    /// The color `role` resolved to.
    pub closed spec fn ground(self, role: Role) -> Rgb {
        self.pair_of(role).color
    }

    /// The content that reads on `role`, at every weight.
    pub closed spec fn levels(self, role: Role) -> Levels {
        self.pair_of(role).content
    }

    /// Resolves every role of `theme`: the roles the theme backs take its keys, the others the
    /// `grounds` placed for it, and each role's content is what `levels` gives for its color.
    pub fn resolve_with<L: Fn(Rgb) -> Levels>(theme: &Theme, grounds: &Grounds, levels: L) -> (r: Roles)
        requires
            forall|c: Rgb| levels.requires((c,)),
        ensures
            forall|role: Role| r.ground(role) == role_ground(*theme, *grounds, role),
            forall|role: Role| call_ensures(levels, (#[trigger] r.ground(role),), r.levels(role)),
    {
        let colors = &theme.colors;
        let r = Roles {
            background: pair_on(colors.background, &levels),
            surface: pair_on(grounds.raised, &levels),
            surface_variant: pair_on(grounds.recessed, &levels),
            border: pair_on(grounds.border, &levels),
            primary: pair_on(colors.accent, &levels),
            selection: pair_on(colors.selection, &levels),
            muted: pair_on(colors.muted, &levels),
            error: pair_on(colors.red, &levels),
            focus: pair_on(grounds.focus, &levels),
            disabled: pair_on(grounds.disabled, &levels),
        };
        assert forall|role: Role| call_ensures(levels, (#[trigger] r.ground(role),), r.levels(role)) by {
            match role {
                Role::Background => {},
                Role::Elevated => {},
                Role::Recessed => {},
                Role::Border => {},
                Role::Primary => {},
                Role::Selection => {},
                Role::Muted => {},
                Role::Error => {},
                Role::Focus => {},
                Role::Disabled => {},
            }
        }
        r
    }

    fn pair(&self, role: Role) -> (r: Pair)
        ensures
            r == self.pair_of(role),
    {
        match role {
            Role::Background => self.background,
            Role::Elevated => self.surface,
            Role::Recessed => self.surface_variant,
            Role::Border => self.border,
            Role::Primary => self.primary,
            Role::Selection => self.selection,
            Role::Muted => self.muted,
            Role::Error => self.error,
            Role::Focus => self.focus,
            Role::Disabled => self.disabled,
        }
    }

    pub fn color(&self, role: Role) -> (r: Rgb)
        ensures
            r == self.ground(role),
    {
        self.pair(role).color
    }

    /// The main content color that stays readable on top of `role`.
    pub fn on(&self, role: Role) -> (r: Rgb)
        ensures
            r == self.levels(role).of(Level::Primary),
    {
        self.content(role, Level::Primary)
    }

    /// The content color of a given weight that reads on top of `role`.
    pub fn content(&self, role: Role, level: Level) -> (r: Rgb)
        ensures
            r == self.levels(role).of(level),
    {
        self.pair(role).content.at(level)
    }

    /// The tonal ramp `role`'s color scales along.
    pub fn ramp(&self, role: Role) -> (r: Ramp)
        ensures
            r.base_color() == self.ground(role),
    {
        Ramp::of(self.color(role))
    }
}

/// Each weight of content on a role is that weight of what the content function gives for the
/// role's own color: the primary content its primary, the secondary its secondary, the disabled
/// its disabled — so the three weights stay as told apart as the function makes them. `weights` is
/// what `levels` gives for each color.
pub proof fn lemma_content_is_the_weight_asked_for<L: Fn(Rgb) -> Levels>(
    roles: Roles,
    levels: L,
    weights: spec_fn(Rgb) -> Levels,
    role: Role,
)
    requires
        call_ensures(levels, (roles.ground(role),), roles.levels(role)),
        forall|c: Rgb, l: Levels| #[trigger] call_ensures(levels, (c,), l) ==> l == weights(c),
    ensures
        roles.levels(role).of(Level::Primary) == weights(roles.ground(role)).primary,
        roles.levels(role).of(Level::Secondary) == weights(roles.ground(role)).secondary,
        roles.levels(role).of(Level::Disabled) == weights(roles.ground(role)).disabled,
{
}

/// The roles a theme backs take its own keys — the canvas its background, primary its accent,
/// selection and muted their keys, error its red — and the others take the ground placed for
/// them: the raised surface for elevated, the recessed one for recessed, then the border, focus
/// and disabled grounds.
pub proof fn lemma_each_role_takes_its_own_ground(roles: Roles, theme: Theme, grounds: Grounds)
    requires
        forall|role: Role| #[trigger] roles.ground(role) == role_ground(theme, grounds, role),
    ensures
        roles.ground(Role::Background) == theme.colors.background,
        roles.ground(Role::Elevated) == grounds.raised,
        roles.ground(Role::Recessed) == grounds.recessed,
        roles.ground(Role::Border) == grounds.border,
        roles.ground(Role::Primary) == theme.colors.accent,
        roles.ground(Role::Selection) == theme.colors.selection,
        roles.ground(Role::Muted) == theme.colors.muted,
        roles.ground(Role::Error) == theme.colors.red,
        roles.ground(Role::Focus) == grounds.focus,
        roles.ground(Role::Disabled) == grounds.disabled,
{
    assert(roles.ground(Role::Background) == role_ground(theme, grounds, Role::Background));
    assert(roles.ground(Role::Elevated) == role_ground(theme, grounds, Role::Elevated));
    assert(roles.ground(Role::Recessed) == role_ground(theme, grounds, Role::Recessed));
    assert(roles.ground(Role::Border) == role_ground(theme, grounds, Role::Border));
    assert(roles.ground(Role::Primary) == role_ground(theme, grounds, Role::Primary));
    assert(roles.ground(Role::Selection) == role_ground(theme, grounds, Role::Selection));
    assert(roles.ground(Role::Muted) == role_ground(theme, grounds, Role::Muted));
    assert(roles.ground(Role::Error) == role_ground(theme, grounds, Role::Error));
    assert(roles.ground(Role::Focus) == role_ground(theme, grounds, Role::Focus));
    assert(roles.ground(Role::Disabled) == role_ground(theme, grounds, Role::Disabled));
}

} // verus!
