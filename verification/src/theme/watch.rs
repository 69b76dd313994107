//! What a watcher keeps between two collections, and how it decides what a change on disk means.
//!
//! The application decides when to collect: nothing is pushed onto its threads. A watcher holds
//! the value in force and the newest change nobody collected yet; the notification side publishes
//! into it, and the application reads the one or takes the other.

use vstd::prelude::*;

use super::error::ThemeError;
use super::reader::Theme;

verus! {

/// What a [`Latest`] holds: the value in force, and the newest change not collected yet.
pub struct LatestView<T> {
    pub in_force: T,
    pub pending: Option<T>,
}

/// The value in force, and the newest change nobody collected yet.
#[derive(Debug)]
pub struct Latest<T> {
    current: T,
    changed: Option<T>,
}

impl<T> View for Latest<T> {
    type V = LatestView<T>;

    closed spec fn view(&self) -> LatestView<T> {
        LatestView { in_force: self.current, pending: self.changed }
    }
}

/// The state after `value` lands: it is in force, and it is the change waiting to be collected —
/// whatever change was waiting before is dropped.
pub open spec fn after_publish<T>(state: LatestView<T>, value: T) -> LatestView<T> {
    LatestView { in_force: value, pending: Some(value) }
}

/// Collecting the change: what was waiting is handed over, and nothing waits any more.
pub open spec fn after_take<T>(state: LatestView<T>) -> (LatestView<T>, Option<T>) {
    (LatestView { in_force: state.in_force, pending: None }, state.pending)
}

/// A theme read back after a change on disk: it lands only when it could be read and differs from
/// the one in force; a failed read or the same theme leaves everything as it was.
pub open spec fn after_offer(state: LatestView<Theme>, read: Option<Theme>) -> (LatestView<Theme>, bool) {
    match read {
        Some(theme) => if theme != state.in_force {
            (after_publish(state, theme), true)
        } else {
            (state, false)
        },
        None => (state, false),
    }
}

/// The theme a read gave, if it gave one.
pub open spec fn theme_read(read: Result<Theme, ThemeError>) -> Option<Theme> {
    match read {
        Ok(theme) => Some(theme),
        Err(_) => None,
    }
}

impl<T: Copy> Latest<T> {
    /// Starts with `initial` in force and no change waiting.
    pub fn new(initial: T) -> (r: Latest<T>)
        ensures
            r@ == (LatestView { in_force: initial, pending: None }),
    {
        Latest { current: initial, changed: None }
    }

    /// The value in force.
    pub fn current(&self) -> (r: T)
        ensures
            r == self@.in_force,
    {
        self.current
    }

    /// Lands `value`: it goes in force and waits to be collected, replacing any change that was
    /// still waiting.
    pub fn publish(&mut self, value: T)
        ensures
            final(self)@ == after_publish(old(self)@, value),
    {
        self.current = value;
        self.changed = Some(value);
    }

    /// The change that arrived since the last call, if any. Only the newest survives.
    pub fn take_changed(&mut self) -> (r: Option<T>)
        ensures
            (final(self)@, r) == after_take(old(self)@),
    {
        let changed = self.changed;
        self.changed = None;
        changed
    }
}

impl Latest<Theme> {
    /// Offers the outcome of reading the theme back after a change on disk. A failed read never
    /// surfaces, and a theme equal to the one in force is no change: in both cases nothing moves
    /// and `false` comes back. Otherwise the new theme lands and `true` says so.
    pub fn offer(&mut self, read: Result<Theme, ThemeError>) -> (published: bool)
        ensures
            (final(self)@, published) == after_offer(old(self)@, theme_read(read)),
    {
        match read {
            Ok(theme) => {
                if theme != self.current {
                    self.publish(theme);
                    true
                } else {
                    false
                }
            },
            Err(_) => false,
        }
    }
}

/// Only the newest change survives: when several land between two collections, the one handed
/// over is the last, and the ones in between are dropped.
pub proof fn lemma_only_the_newest_survives<T>(state: LatestView<T>, first: T, second: T)
    ensures
        after_take(after_publish(after_publish(state, first), second)).1 == Some(second),
        after_take(after_publish(after_publish(state, first), second)).0.in_force == second,
{
}

/// A change is handed over once: collecting again right after gives nothing, and collecting never
/// changes what is in force.
pub proof fn lemma_a_change_is_collected_once<T>(state: LatestView<T>)
    ensures
        after_take(after_take(state).0).1 is None,
        after_take(state).0.in_force == state.in_force,
{
}

/// Once running, a failed reload never surfaces and an unchanged theme is no change: the last
/// valid theme stays in force and nothing waits to be collected that was not waiting before.
pub proof fn lemma_a_failed_or_unchanged_read_is_not_reported(state: LatestView<Theme>, read: Option<Theme>)
    requires
        read is None || read == Some(state.in_force),
    ensures
        after_offer(state, read) == (state, false),
{
}

/// A theme that differs from the one in force is reported, is in force afterwards, and is what
/// the next collection hands over.
pub proof fn lemma_a_new_theme_is_reported(state: LatestView<Theme>, theme: Theme)
    requires
        theme != state.in_force,
    ensures
        after_offer(state, Some(theme)).1,
        after_offer(state, Some(theme)).0.in_force == theme,
        after_take(after_offer(state, Some(theme)).0).1 == Some(theme),
{
}

/// How many times a theme is read back after a change before the change is given up on: switching
/// theme rewrites the file, which can be read while still half-written.
pub const READ_ATTEMPTS: usize = 5;

/// Whether to read again after read number `attempt` (counting from one): only when that read
/// failed and fewer than [`READ_ATTEMPTS`] were made.
pub fn read_again(attempt: usize, failed: bool) -> (r: bool)
    ensures
        r == (failed && attempt < READ_ATTEMPTS),
{
    failed && attempt < READ_ATTEMPTS
}

/// A file name, by its bytes.
pub open spec fn name_view(name: Option<Vec<u8>>) -> Option<Seq<u8>> {
    match name {
        Some(bytes) => Some(bytes@),
        None => None,
    }
}

/// A path's name concerns the theme when it has one and it is the theme file's name or the theme
/// directory's name.
pub open spec fn names_the_theme(name: Option<Seq<u8>>, file: Option<Seq<u8>>, directory: Option<Seq<u8>>) -> bool {
    name is Some && (name == file || name == directory)
}

fn same_bytes(a: &Vec<u8>, b: &Vec<u8>) -> (r: bool)
    ensures
        r == (a@ == b@),
{
    if a.len() != b.len() {
        return false;
    }
    let mut i: usize = 0;
    while i < a.len()
        invariant
            a@.len() == b@.len(),
            i <= a@.len(),
            forall|j: int| 0 <= j < i ==> a@[j] == b@[j],
        decreases a@.len() - i,
    {
        if a[i] != b[i] {
            return false;
        }
        i = i + 1;
    }
    assert(a@ =~= b@);
    true
}

fn same_name(name: &Option<Vec<u8>>, other: &Option<Vec<u8>>) -> (r: bool)
    ensures
        r == (name_view(*name) is Some && name_view(*name) == name_view(*other)),
{
    match (name, other) {
        (Some(a), Some(b)) => same_bytes(a, b),
        _ => false,
    }
}

/// Whether a file event concerns the theme: it is no mere access (being opened or read is not a
/// change, and answering it by reading the theme back would produce the very event that
/// triggered the read), and one of its paths is named like the theme file or the theme directory.
pub fn touches(
    access: bool,
    names: &Vec<Option<Vec<u8>>>,
    file: &Option<Vec<u8>>,
    directory: &Option<Vec<u8>>,
) -> (r: bool)
    ensures
        r == (!access && exists|i: int|
            0 <= i < names@.len() && #[trigger] names_the_theme(
                name_view(names@[i]),
                name_view(*file),
                name_view(*directory),
            )),
{
    if access {
        return false;
    }
    let mut i: usize = 0;
    while i < names.len()
        invariant
            !access,
            i <= names@.len(),
            forall|j: int|
                0 <= j < i ==> !#[trigger] names_the_theme(
                    name_view(names@[j]),
                    name_view(*file),
                    name_view(*directory),
                ),
        decreases names@.len() - i,
    {
        let name = &names[i];
        let named = same_name(name, file) || same_name(name, directory);
        assert(named == names_the_theme(name_view(names@[i as int]), name_view(*file), name_view(*directory)));
        if named {
            return true;
        }
        i = i + 1;
    }
    false
}

} // verus!
