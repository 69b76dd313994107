//! Choosing the color that sits on top of another one and stays readable.

use vstd::prelude::*;

use crate::theme::{Rgb, ThemeColors};

verus! {

/// The foregrounds a theme offers for content, in the order it means them.
pub open spec fn candidates(colors: ThemeColors) -> Seq<Rgb> {
    seq![colors.foreground, colors.bright_foreground, colors.light_foreground, colors.dark_foreground]
}

/// `content` is what [`on_with`] picks on `ground`: the first candidate `reads` accepted after
/// turning down every one before it, or what `fallback` gave once all four were turned down.
pub open spec fn picked<R: Fn(Rgb, Rgb) -> bool, F: Fn(Rgb) -> Rgb>(
    ground: Rgb,
    colors: ThemeColors,
    reads: R,
    fallback: F,
    content: Rgb,
) -> bool {
    let c = candidates(colors);
    ||| call_ensures(reads, (c[0], ground), true) && content == c[0]
    ||| call_ensures(reads, (c[0], ground), false) && call_ensures(reads, (c[1], ground), true)
        && content == c[1]
    ||| call_ensures(reads, (c[0], ground), false) && call_ensures(reads, (c[1], ground), false)
        && call_ensures(reads, (c[2], ground), true) && content == c[2]
    ||| call_ensures(reads, (c[0], ground), false) && call_ensures(reads, (c[1], ground), false)
        && call_ensures(reads, (c[2], ground), false) && call_ensures(reads, (c[3], ground), true)
        && content == c[3]
    ||| call_ensures(reads, (c[0], ground), false) && call_ensures(reads, (c[1], ground), false)
        && call_ensures(reads, (c[2], ground), false) && call_ensures(reads, (c[3], ground), false)
        && call_ensures(fallback, (ground,), content)
}

/// Picks the first foreground the theme offers that `reads` accepts on `ground`.
///
/// The candidates are tried in the order the theme means them — `foreground`, then
/// `bright_foreground`, `light_foreground` and `dark_foreground` — so a theme's own `foreground`
/// wins whenever it already reads; only when none of them does is `fallback` asked for a content
/// of the ground's own.
pub fn on_with<R: Fn(Rgb, Rgb) -> bool, F: Fn(Rgb) -> Rgb>(
    ground: Rgb,
    colors: &ThemeColors,
    reads: R,
    fallback: F,
) -> (r: Rgb)
    requires
        forall|candidate: Rgb, g: Rgb| reads.requires((candidate, g)),
        forall|g: Rgb| fallback.requires((g,)),
    ensures
        picked(ground, *colors, reads, fallback, r),
{
    if reads(colors.foreground, ground) {
        return colors.foreground;
    }
    if reads(colors.bright_foreground, ground) {
        return colors.bright_foreground;
    }
    if reads(colors.light_foreground, ground) {
        return colors.light_foreground;
    }
    if reads(colors.dark_foreground, ground) {
        return colors.dark_foreground;
    }
    fallback(ground)
}

/// The theme's own foreground wins whenever it reads, and the others are tried only after it,
/// in the order `bright_foreground`, `light_foreground`, `dark_foreground`; only when none reads
/// does the fallback supply the content. `verdict` is what `reads` decides for each candidate on
/// `ground`.
pub proof fn lemma_the_first_foreground_that_reads_wins<R: Fn(Rgb, Rgb) -> bool, F: Fn(Rgb) -> Rgb>(
    ground: Rgb,
    colors: ThemeColors,
    reads: R,
    fallback: F,
    verdict: spec_fn(Rgb) -> bool,
    content: Rgb,
)
    requires
        picked(ground, colors, reads, fallback, content),
        forall|c: Rgb, b: bool| #[trigger] call_ensures(reads, (c, ground), b) ==> b == verdict(c),
    ensures
        verdict(colors.foreground) ==> content == colors.foreground,
        !verdict(colors.foreground) && verdict(colors.bright_foreground) ==> content
            == colors.bright_foreground,
        !verdict(colors.foreground) && !verdict(colors.bright_foreground) && verdict(
            colors.light_foreground,
        ) ==> content == colors.light_foreground,
        !verdict(colors.foreground) && !verdict(colors.bright_foreground) && !verdict(
            colors.light_foreground,
        ) && verdict(colors.dark_foreground) ==> content == colors.dark_foreground,
        !verdict(colors.foreground) && !verdict(colors.bright_foreground) && !verdict(
            colors.light_foreground,
        ) && !verdict(colors.dark_foreground) ==> call_ensures(fallback, (ground,), content),
{
}

} // verus!
