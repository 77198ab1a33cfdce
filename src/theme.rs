//! Customization records as decoded from their tags: object themes with
//! their regions and attachments, attachment configurations, and the
//! customization globals that list the theme configurations.
use vstd::prelude::*;

verus! {

/// A permutation region of a region block.
#[derive(PartialEq, Eq, Structural, Debug, Clone, Copy)]
pub struct PermutationName {
    pub name: i32,
}

/// A permutation setting: its name, its style and its attachment, by global ID.
#[derive(PartialEq, Eq, Structural, Debug, Clone, Copy)]
pub struct PermutationSetting {
    pub name: i32,
    pub style: i32,
    pub attachment: i32,
}

/// A region of a theme.
pub struct RegionBlock {
    pub region_name: i32,
    pub permutation_regions: Vec<PermutationName>,
    pub permutation_settings: Vec<PermutationSetting>,
}

/// An attachment of a theme: the global ID of an attachment configuration.
#[derive(PartialEq, Eq, Structural, Debug, Clone, Copy)]
pub struct Attachment {
    pub attachment: i32,
}

/// An object theme.
pub struct ObjectTheme {
    pub regions: Vec<RegionBlock>,
    pub attachments: Vec<Attachment>,
    pub prosthetics: Vec<RegionBlock>,
    pub body_types: Vec<RegionBlock>,
}

/// A model an attachment configuration places, at the listed markers.
pub struct ModelAttachment {
    pub model: i32,
    pub markers: Vec<i32>,
}

/// An attachment configuration.
pub struct AttachmentConfiguration {
    pub tag_id: i32,
    pub model_attachments: Vec<ModelAttachment>,
}

/// A kit: a name and its regions.
pub struct KitConfiguration {
    pub name: i32,
    pub regions: Vec<RegionBlock>,
}

/// A theme configuration: the theme it uses, by global ID, its names, and its kits.
pub struct ThemeConfiguration {
    pub theme_configs: i32,
    pub name: i32,
    pub variant_name: i32,
    pub kit_configs: Vec<KitConfiguration>,
}

/// A customization theme entry: a model and its theme configurations.
pub struct CustomizationTheme {
    pub model: i32,
    pub theme_configurations: Vec<ThemeConfiguration>,
}

/// The customization globals.
pub struct CustomizationGlobals {
    pub themes: Vec<CustomizationTheme>,
}

} // verus!
