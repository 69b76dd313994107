//! API — the stable public contract: palettes of colors, basic in, extended and readable out, and
//! the plain values the C bridge hands across.

mod bridge;
mod palette;

pub use bridge::{
    absent_family, color_name, color_names, color_of, declared_colors, error_message_bytes,
    families_read, family_is, family_reads, lemma_each_family_is_the_color_its_name_names,
    named_family, optional_family_reads, representation_name,
    representation_name_text, rgb_of, role_entry, role_name, role_name_text, shade_reads,
    snapshot_of, to_color, written_message, OmarchyColor, OmarchyColorFamily, OmarchyRole,
    OmarchyShade, OmarchySnapshot, OMARCHY_COLOR_COUNT, OMARCHY_REPRESENTATION_COUNT,
    OMARCHY_ROLE_COUNT,
};
pub use palette::{
    background_step, completed, default_error, lemma_a_stated_mode_overrides_the_inferred_one,
    lemma_a_theme_seed_resolves_its_roles_as_the_theme, role_keys_agree,
    lemma_a_theme_palette_keeps_the_declared_mode, lemma_stated_keys_are_kept,
    lemma_unstated_keys_take_their_defaults, seed_mode, seed_of_theme, stated_or, Palette,
    PaletteSeed, SeedView, SurfaceSteps,
};
