//! The roles applications ask for, instead of reaching for a theme key by name, and the weights
//! content takes on them.

use vstd::prelude::*;

verus! {

/// A slot in the interface, resolved to a concrete color for the active theme.
///
/// Every role also has a content color, the one that stays legible on top of it.
#[derive(Debug, Clone, Copy, PartialEq, Eq, Hash, Structural)]
pub enum Role {
    /// The canvas the interface sits on.
    Background,
    /// A surface raised off the canvas, such as a card or a panel.
    Elevated,
    /// A recessed surface, such as an input field or a well.
    Recessed,
    /// A line that marks the interface apart from its canvas, such as a border or a divider.
    Border,
    /// The color that carries the theme's identity, used for emphasis.
    Primary,
    /// The ground behind selected content.
    Selection,
    /// De-emphasized content, such as secondary labels.
    Muted,
    /// Something went wrong.
    Error,
    /// The element holding keyboard focus.
    Focus,
    /// An element that cannot be interacted with.
    Disabled,
}

/// The ten roles, in the fixed order an interface lists them.
pub open spec fn role_order() -> Seq<Role> {
    seq![
        Role::Background,
        Role::Elevated,
        Role::Recessed,
        Role::Border,
        Role::Primary,
        Role::Selection,
        Role::Muted,
        Role::Error,
        Role::Focus,
        Role::Disabled,
    ]
}

impl Role {
    pub const ALL: [Role; 10] = [
        Role::Background,
        Role::Elevated,
        Role::Recessed,
        Role::Border,
        Role::Primary,
        Role::Selection,
        Role::Muted,
        Role::Error,
        Role::Focus,
        Role::Disabled,
    ];

    /// The role at `index` in [`Role::ALL`], or `None` past its end.
    pub fn at(index: usize) -> (r: Option<Role>)
        ensures
            index < 10 ==> r == Some(role_order()[index as int]),
            index >= 10 ==> r is None,
    {
        match index {
            0 => Some(Role::Background),
            1 => Some(Role::Elevated),
            2 => Some(Role::Recessed),
            3 => Some(Role::Border),
            4 => Some(Role::Primary),
            5 => Some(Role::Selection),
            6 => Some(Role::Muted),
            7 => Some(Role::Error),
            8 => Some(Role::Focus),
            9 => Some(Role::Disabled),
            _ => None,
        }
    }
}

/// Every role stands exactly once in the fixed order.
pub proof fn lemma_role_order_lists_every_role_once(role: Role)
    ensures
        role_order().len() == 10,
        role_order().contains(role),
        forall|i: int, j: int| 0 <= i < j < 10 ==> role_order()[i] != role_order()[j],
{
    let order = role_order();
    match role {
        Role::Background => assert(order[0] == role),
        Role::Elevated => assert(order[1] == role),
        Role::Recessed => assert(order[2] == role),
        Role::Border => assert(order[3] == role),
        Role::Primary => assert(order[4] == role),
        Role::Selection => assert(order[5] == role),
        Role::Muted => assert(order[6] == role),
        Role::Error => assert(order[7] == role),
        Role::Focus => assert(order[8] == role),
        Role::Disabled => assert(order[9] == role),
    }
}

/// How much weight a piece of content carries on its ground.
#[derive(Debug, Clone, Copy, PartialEq, Eq, Hash, Structural)]
pub enum Level {
    /// Body text and anything the reader is meant to act on.
    Primary,
    /// Supporting text, such as a caption under a title.
    Secondary,
    /// Content that cannot be interacted with.
    Disabled,
}

impl Level {
    pub const ALL: [Level; 3] = [Level::Primary, Level::Secondary, Level::Disabled];
}

} // verus!
