use std::collections::HashMap;

use ekur::customization::{get_attachment, process_object_globals, CustomizationContext, ResolvedAttachment};
use ekur::forge::{
    get_object_info, process_forge_objects, CategoryObject, ForgeAssetVariant, ForgeCatalog, ForgeObjectCategoryEntry,
    ForgeObjectData, ForgeObjectManifest, ForgeObjectManifestEntry, ModelDefinition, ModelVariant,
    ObjectModels, ObjectRepresentation, GROUP_CRATE, GROUP_WEAPON, ROOT_CATEGORY,
};
use ekur::keyed::KeyedList;
use ekur::strings::StringTable;
use ekur::styles::{process_styles, RuntimeCoatingStyles, RuntimeStyleReference};
use ekur::theme::{
    Attachment, AttachmentConfiguration, CustomizationGlobals, CustomizationTheme,
    KitConfiguration, ModelAttachment, ObjectTheme, PermutationName, PermutationSetting,
    RegionBlock, ThemeConfiguration,
};

fn strings() -> StringTable {
    let mut t = StringTable::new();
    t.insert(1, "Props".to_string());
    t.insert(50, "Barrel".to_string());
    t.insert(61, "Red".to_string());
    t
}

fn models() -> HashMap<i32, ModelDefinition> {
    let mut m = HashMap::new();
    m.insert(
        900,
        ModelDefinition {
            render_model: 9000,
            variants: vec![ModelVariant { name: 61, style: 6100 }, ModelVariant { name: 61, style: 1 }],
        },
    );
    m
}

fn catalog() -> ForgeCatalog {
    let mut crates = HashMap::new();
    crates.insert(300, 900);
    let data = ForgeObjectData {
        default_representation: 61,
        object_representations: vec![
            ObjectRepresentation { representation_name: 61, group: GROUP_CRATE, definition: 300, crate_variant: 61 },
            ObjectRepresentation { representation_name: 62, group: GROUP_WEAPON, definition: 300, crate_variant: 0 },
            ObjectRepresentation { representation_name: 63, group: 0x1111_1111, definition: 300, crate_variant: 0 },
        ],
        forge_asset_variants: vec![ForgeAssetVariant { variant_name: 70, underlying_geo: 7000 }],
    };
    let mut objects = KeyedList::new();
    objects.insert(400, data);
    ForgeCatalog {
        objects,
        definitions: ObjectModels {
            crates,
            weapons: HashMap::new(),
            vehicles: HashMap::new(),
            equipment: HashMap::new(),
            scenery: HashMap::new(),
        },
        models: models(),
        strings: strings(),
    }
}

fn category(title: i32, id: u32, parent: u32) -> ForgeObjectCategoryEntry {
    ForgeObjectCategoryEntry { title, description: 0, category_id: id as i32, parent_category_id: parent as i32 }
}

fn entry(name: i32, object: i32, category_id: Option<u32>) -> ForgeObjectManifestEntry {
    ForgeObjectManifestEntry {
        element_id: 0,
        forge_object: object,
        name,
        description: 0,
        object_metadata: category_id.into_iter().map(|c| category(0, c, 0)).collect(),
    }
}

fn manifest() -> ForgeObjectManifest {
    ForgeObjectManifest {
        categories: vec![
            category(1, 10, ROOT_CATEGORY),
            category(2, 11, 10),
            category(3, 2645216826, ROOT_CATEGORY),
        ],
        entries: vec![entry(50, 400, Some(11)), entry(51, 401, Some(11)), entry(52, 400, None)],
    }
}

#[test]
fn forge_tree_skips_blacklisted_roots_and_keeps_unresolved_objects() {
    let doc = process_forge_objects(&manifest(), &catalog());
    assert_eq!(doc.root_categories.len(), 1);
    let root = &doc.root_categories[0];
    assert_eq!(root.name, "Props");
    assert!(root.objects.is_none());
    let subs = root.sub_categories.as_ref().unwrap();
    assert_eq!(subs.len(), 1);
    assert_eq!(subs[0].name, "2");
    assert!(subs[0].sub_categories.is_none());
    let objects = subs[0].objects.as_ref().unwrap();
    assert_eq!(objects.len(), 2);
    match &objects[0] {
        CategoryObject::Resolved(o) => {
            assert_eq!(o.id, 50);
            assert_eq!(o.name, "Barrel");
        }
        CategoryObject::Unresolved(_) => panic!("object 400 is defined"),
    }
    assert!(matches!(objects[1], CategoryObject::Unresolved(401)));
}

#[test]
fn forge_object_representations_follow_the_group_table() {
    let doc = process_forge_objects(&manifest(), &catalog());
    assert_eq!(doc.objects.len(), 1);
    let o = &doc.objects[0];
    assert_eq!(o.id, 400);
    assert_eq!(o.name, "400");
    assert_eq!(o.default_variant, 61);
    assert_eq!(o.representations.len(), 4);
    let r = &o.representations[0];
    assert_eq!((r.name.as_str(), r.name_int, r.model, r.variant, r.style, r.is_rtgo), ("Red", 61, 9000, 61, 6100, false));
    assert_eq!(r.unresolved_definition, None);
    let w = &o.representations[1];
    assert_eq!((w.name.as_str(), w.model, w.style, w.unresolved_definition), ("62", 0, 0, Some(300)));
    let u = &o.representations[2];
    assert_eq!((u.name_int, u.unresolved_definition), (63, Some(300)));
    let g = &o.representations[3];
    assert_eq!((g.name.as_str(), g.model, g.variant, g.style, g.is_rtgo), ("70", 7000, 0, 0, true));
    assert_eq!(g.unresolved_definition, None);
}

#[test]
fn object_info_is_absent_for_no_entries() {
    let m = manifest();
    assert!(get_object_info(&catalog(), &m.entries, &vec![]).is_none());
    let found = get_object_info(&catalog(), &m.entries, &vec![1, 2]).unwrap();
    assert_eq!(found.len(), 2);
    assert!(matches!(found[0], CategoryObject::Unresolved(401)));
    match &found[1] {
        CategoryObject::Resolved(o) => assert_eq!(o.id, 52),
        CategoryObject::Unresolved(_) => panic!("object 400 is defined"),
    }
}

fn region(name: i32, attachment: i32) -> RegionBlock {
    RegionBlock {
        region_name: name,
        permutation_regions: vec![PermutationName { name: 5 }, PermutationName { name: 6 }],
        permutation_settings: vec![PermutationSetting { name: 7, style: 0, attachment }],
    }
}

fn context() -> CustomizationContext {
    let mut themes = HashMap::new();
    themes.insert(
        800,
        ObjectTheme {
            regions: vec![region(1, 700)],
            attachments: vec![Attachment { attachment: 700 }, Attachment { attachment: 701 }],
            prosthetics: vec![],
            body_types: vec![region(2, 701)],
        },
    );
    let mut attachments = HashMap::new();
    attachments.insert(
        700,
        AttachmentConfiguration {
            tag_id: 7700,
            model_attachments: vec![ModelAttachment { model: 900, markers: vec![33, 34] }],
        },
    );
    attachments.insert(
        701,
        AttachmentConfiguration {
            tag_id: 7701,
            model_attachments: vec![ModelAttachment { model: 900, markers: vec![] }],
        },
    );
    CustomizationContext { themes, attachments, models: models(), strings: strings() }
}

fn theme_config(theme: i32, name: i32) -> ThemeConfiguration {
    ThemeConfiguration {
        theme_configs: theme,
        name,
        variant_name: 3,
        kit_configs: vec![KitConfiguration { name: 4, regions: vec![region(1, 999)] }],
    }
}

#[test]
fn attachments_resolve_through_their_model() {
    let ctx = context();
    match get_attachment(&ctx, 700) {
        ResolvedAttachment::Present(a) => assert_eq!((a.tag_id, a.marker_name, a.model), (7700, 33, 9000)),
        ResolvedAttachment::Absent(_) => panic!("attachment 700 resolves"),
    }
    assert_eq!(get_attachment(&ctx, 701), ResolvedAttachment::Absent(701));
    assert_eq!(get_attachment(&ctx, 702), ResolvedAttachment::Absent(702));
}

#[test]
fn globals_list_each_theme_once() {
    let globals = CustomizationGlobals {
        themes: vec![CustomizationTheme {
            model: 77,
            theme_configurations: vec![theme_config(800, 2059096660), theme_config(800, 1), theme_config(801, 12)],
        }],
    };
    let doc = process_object_globals(&globals, &context());
    assert_eq!(doc.model, 77);
    assert_eq!(doc.themes.len(), 2);
    let t = &doc.themes[0];
    assert_eq!(t.name, "Mark VII");
    assert_eq!(t.variant_name, 3);
    assert_eq!(t.attachments.len(), 2);
    assert!(matches!(t.attachments[0], ResolvedAttachment::Present(_)));
    assert_eq!(t.attachments[1], ResolvedAttachment::Absent(701));
    assert_eq!(t.regions.len(), 1);
    assert_eq!(t.regions[0].name, "Props");
    assert_eq!(t.regions[0].permutation_regions, vec![5, 6]);
    assert_eq!(t.regions[0].permutations[0].name, 7);
    assert!(matches!(t.regions[0].permutations[0].attachment, ResolvedAttachment::Present(_)));
    assert_eq!(t.body_types[0].name, "2");
    assert_eq!(t.body_types[0].permutations[0].attachment, ResolvedAttachment::Absent(701));
    assert_eq!(t.kits.len(), 1);
    assert_eq!(t.kits[0].name, 4);
    let other = &doc.themes[1];
    assert_eq!(other.name, "12");
    assert!(other.regions.is_empty());
    assert_eq!(other.kits.len(), 1);
}

#[test]
fn globals_without_themes_are_empty() {
    let doc = process_object_globals(&CustomizationGlobals { themes: vec![] }, &context());
    assert_eq!(doc.model, 0);
    assert!(doc.themes.is_empty());
}

#[test]
fn style_list_replaces_repeated_names_in_place() {
    let style = RuntimeCoatingStyles {
        styles: vec![
            RuntimeStyleReference { style_ref: 10, name: 61 },
            RuntimeStyleReference { style_ref: -20, name: 62 },
            RuntimeStyleReference { style_ref: 30, name: 61 },
        ],
        default_style_index: 1,
    };
    let list = process_styles(&style, &strings());
    assert_eq!(list.default_index, 1);
    let keys: Vec<i32> = list.styles.keys().copied().collect();
    assert_eq!(keys, vec![61, 62]);
    assert_eq!(list.styles[&61].reference, "30");
    assert_eq!(list.styles[&61].name, "Red");
    assert_eq!(list.styles[&62].reference, "-20");
    assert_eq!(list.styles[&62].name, "62");
}
