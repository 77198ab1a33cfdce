//! The customization document: for the first customization theme, every
//! theme configuration (each theme once) with its resolved attachments,
//! regions and kits.
use vstd::prelude::*;
use vstd::string::StringExecFns;
use std::collections::{HashMap, HashSet};
use crate::forge::ModelDefinition;
use crate::strings::{decimal_of, decimal_text, text_spec, StringTable};
use crate::theme::{
    AttachmentConfiguration, CustomizationGlobals, ObjectTheme, PermutationName, RegionBlock,
    ThemeConfiguration,
};

verus! {

broadcast use vstd::std_specs::hash::group_hash_axioms;

/// A resolved attachment: its configuration's tag ID, the first marker
/// and the render model.
#[derive(PartialEq, Eq, Structural, Debug, Clone, Copy)]
pub struct Attachment {
    pub tag_id: i32,
    pub marker_name: i32,
    pub model: i32,
}

/// An attachment reference as documents carry it: the resolved attachment,
/// or the configuration's global ID where it does not resolve.
#[derive(PartialEq, Eq, Structural, Debug, Clone, Copy)]
pub enum ResolvedAttachment {
    Present(Attachment),
    Absent(i32),
}

#[derive(PartialEq, Eq, Structural, Debug, Clone, Copy)]
pub struct Permutation {
    pub name: i32,
    pub attachment: ResolvedAttachment,
}

pub struct Region {
    pub name: String,
    pub name_int: i32,
    pub permutations: Vec<Permutation>,
    pub permutation_regions: Vec<i32>,
}

pub struct Kit {
    pub name: i32,
    pub regions: Vec<Region>,
}

pub struct Theme {
    pub name: String,
    pub variant_name: i32,
    pub attachments: Vec<ResolvedAttachment>,
    pub regions: Vec<Region>,
    pub prosthetics: Vec<Region>,
    pub body_types: Vec<Region>,
    pub kits: Vec<Kit>,
}

pub struct SpartanGlobals {
    pub model: i32,
    pub themes: Vec<Theme>,
}

/// What the customization document is built from, but the globals.
pub struct CustomizationContext {
    pub themes: HashMap<i32, ObjectTheme>,
    pub attachments: HashMap<i32, AttachmentConfiguration>,
    pub models: HashMap<i32, ModelDefinition>,
    pub strings: StringTable,
}

/// The attachment that configuration `id` resolves to: through its first
/// model attachment, that model's render model and first marker. `Absent`
/// with `id` where any of these is missing.
pub open spec fn attachment_spec(ctx: CustomizationContext, id: i32) -> ResolvedAttachment {
    if !ctx.attachments@.contains_key(id) {
        ResolvedAttachment::Absent(id)
    } else {
        let a = ctx.attachments@[id];
        if a.model_attachments@.len() == 0 {
            ResolvedAttachment::Absent(id)
        } else {
            let ma = a.model_attachments@[0];
            if !ctx.models@.contains_key(ma.model) || ma.markers@.len() == 0 {
                ResolvedAttachment::Absent(id)
            } else {
                ResolvedAttachment::Present(
                    Attachment {
                        tag_id: a.tag_id,
                        marker_name: ma.markers@[0],
                        model: ctx.models@[ma.model].render_model,
                    },
                )
            }
        }
    }
}

/// `reg` is the document of region block `b`.
pub open spec fn region_matches(reg: Region, b: RegionBlock, ctx: CustomizationContext) -> bool {
    let settings = b.permutation_settings@;
    &&& reg.name@ == text_spec(ctx.strings@, b.region_name)
    &&& reg.name_int == b.region_name
    &&& reg.permutation_regions@ == b.permutation_regions@.map_values(|p: PermutationName| p.name)
    &&& reg.permutations@.len() == settings.len()
    &&& forall|k: int|
        0 <= k < settings.len() ==> #[trigger] reg.permutations@[k] == (Permutation {
            name: settings[k].name,
            attachment: attachment_spec(ctx, settings[k].attachment),
        })
}

pub open spec fn regions_match(
    out: Seq<Region>,
    blocks: Seq<RegionBlock>,
    ctx: CustomizationContext,
) -> bool {
    &&& out.len() == blocks.len()
    &&& forall|k: int| 0 <= k < blocks.len() ==> region_matches(#[trigger] out[k], blocks[k], ctx)
}

/// The first `n` attachments of a theme, each resolved or kept as its ID.
pub open spec fn attachments_spec(
    ctx: CustomizationContext,
    list: Seq<crate::theme::Attachment>,
    n: int,
) -> Seq<ResolvedAttachment>
    decreases n,
{
    if n <= 0 || n > list.len() {
        Seq::empty()
    } else {
        attachments_spec(ctx, list, n - 1).push(attachment_spec(ctx, list[n - 1].attachment))
    }
}

/// The display names of known theme configurations.
pub open spec fn theme_display(id: i32) -> Option<Seq<char>> {
    if id == 2059096660 {
        Some("Mark VII"@)
    } else if id == 734978415 {
        Some("Mark V [B]"@)
    } else if id == -877464205 {
        Some("Yoroi"@)
    } else if id == 1599196406 {
        Some("Eaglestrike"@)
    } else if id == 1200330315 {
        Some("Rakshasa"@)
    } else if id == -1600125127 {
        Some("Chimera"@)
    } else if id == -1062089054 {
        Some("Mirage IIC"@)
    } else if id == -1199279334 {
        Some("HAZMAT"@)
    } else if id == -1472719967 {
        Some("Mark IV"@)
    } else {
        None
    }
}

/// The name of a theme configuration: its display name where it has one,
/// else its name ID in decimal.
pub open spec fn theme_name_spec(id: i32) -> Seq<char> {
    match theme_display(id) {
        Some(s) => s,
        None => decimal_of(id as int),
    }
}

/// `t` is the document of theme configuration `cfg`.
pub open spec fn theme_matches(t: Theme, cfg: ThemeConfiguration, ctx: CustomizationContext) -> bool {
    let kits = cfg.kit_configs@;
    &&& t.name@ == theme_name_spec(cfg.name)
    &&& t.variant_name == cfg.variant_name
    &&& if ctx.themes@.contains_key(cfg.theme_configs) {
        let th = ctx.themes@[cfg.theme_configs];
        &&& t.attachments@ == attachments_spec(ctx, th.attachments@, th.attachments@.len() as int)
        &&& regions_match(t.regions@, th.regions@, ctx)
        &&& regions_match(t.body_types@, th.body_types@, ctx)
        &&& regions_match(t.prosthetics@, th.prosthetics@, ctx)
    } else {
        &&& t.attachments@.len() == 0
        &&& t.regions@.len() == 0
        &&& t.body_types@.len() == 0
        &&& t.prosthetics@.len() == 0
    }
    &&& t.kits@.len() == kits.len()
    &&& forall|k: int|
        0 <= k < kits.len() ==> {
            &&& (#[trigger] t.kits@[k]).name == kits[k].name
            &&& regions_match(t.kits@[k].regions@, kits[k].regions@, ctx)
        }
}

/// Among the first `n` configurations, those whose theme no earlier one uses.
pub open spec fn fresh_configs(cfgs: Seq<ThemeConfiguration>, n: int) -> Seq<int>
    decreases n,
{
    if n <= 0 || n > cfgs.len() {
        Seq::empty()
    } else {
        let before = fresh_configs(cfgs, n - 1);
        if exists|j: int| 0 <= j < n - 1 && #[trigger] cfgs[j].theme_configs == cfgs[n - 1].theme_configs {
            before
        } else {
            before.push(n - 1)
        }
    }
}

/// Resolves the attachment configuration `id` to the attachment it places;
/// `Absent(id)` where it does not resolve.
pub fn get_attachment(ctx: &CustomizationContext, id: i32) -> (r: ResolvedAttachment)
    ensures
        r == attachment_spec(*ctx, id),
{
    let a = match ctx.attachments.get(&id) {
        Some(a) => a,
        None => {
            return ResolvedAttachment::Absent(id);
        },
    };
    if a.model_attachments.len() == 0 {
        return ResolvedAttachment::Absent(id);
    }
    let ma = &a.model_attachments[0];
    match ctx.models.get(&ma.model) {
        Some(m) => {
            if ma.markers.len() == 0 {
                ResolvedAttachment::Absent(id)
            } else {
                ResolvedAttachment::Present(
                    Attachment { tag_id: a.tag_id, marker_name: ma.markers[0], model: m.render_model },
                )
            }
        },
        None => ResolvedAttachment::Absent(id),
    }
}

/// The document of a region: its name, its permutation regions, and each
/// permutation setting with its resolved attachment.
pub fn add_region(ctx: &CustomizationContext, b: &RegionBlock) -> (r: Region)
    ensures
        region_matches(r, *b, *ctx),
{
    let mut permutation_regions: Vec<i32> = Vec::new();
    let mut k: usize = 0;
    while k < b.permutation_regions.len()
        invariant
            k <= b.permutation_regions@.len(),
            permutation_regions@ == b.permutation_regions@.subrange(0, k as int).map_values(
                |p: PermutationName| p.name,
            ),
        decreases b.permutation_regions@.len() - k,
    {
        permutation_regions.push(b.permutation_regions[k].name);
        k = k + 1;
        assert(permutation_regions@ =~= b.permutation_regions@.subrange(0, k as int).map_values(
            |p: PermutationName| p.name,
        ));
    }
    assert(b.permutation_regions@.subrange(0, k as int) =~= b.permutation_regions@);
    let mut permutations: Vec<Permutation> = Vec::new();
    let mut j: usize = 0;
    while j < b.permutation_settings.len()
        invariant
            j <= b.permutation_settings@.len(),
            permutations@.len() == j,
            forall|m: int|
                0 <= m < j ==> #[trigger] permutations@[m] == (Permutation {
                    name: b.permutation_settings@[m].name,
                    attachment: attachment_spec(*ctx, b.permutation_settings@[m].attachment),
                }),
        decreases b.permutation_settings@.len() - j,
    {
        let setting = b.permutation_settings[j];
        permutations.push(
            Permutation { name: setting.name, attachment: get_attachment(ctx, setting.attachment) },
        );
        j = j + 1;
    }
    Region {
        name: ctx.strings.text_for(b.region_name),
        name_int: b.region_name,
        permutations,
        permutation_regions,
    }
}

/// The documents of a list of regions, in order.
fn add_regions(ctx: &CustomizationContext, blocks: &Vec<RegionBlock>) -> (r: Vec<Region>)
    ensures
        regions_match(r@, blocks@, *ctx),
{
    let mut out: Vec<Region> = Vec::new();
    let mut k: usize = 0;
    while k < blocks.len()
        invariant
            k <= blocks@.len(),
            out@.len() == k,
            forall|m: int| 0 <= m < k ==> region_matches(#[trigger] out@[m], blocks@[m], *ctx),
        decreases blocks@.len() - k,
    {
        out.push(add_region(ctx, &blocks[k]));
        k = k + 1;
    }
    out
}

/// The name of a theme configuration.
fn theme_name(id: i32) -> (r: String)
    ensures
        r@ == theme_name_spec(id),
{
    match id {
        2059096660 => String::from_str("Mark VII"),
        734978415 => String::from_str("Mark V [B]"),
        -877464205 => String::from_str("Yoroi"),
        1599196406 => String::from_str("Eaglestrike"),
        1200330315 => String::from_str("Rakshasa"),
        -1600125127 => String::from_str("Chimera"),
        -1062089054 => String::from_str("Mirage IIC"),
        -1199279334 => String::from_str("HAZMAT"),
        -1472719967 => String::from_str("Mark IV"),
        _ => decimal_text(id),
    }
}

/// The document of a theme configuration.
fn theme_document(ctx: &CustomizationContext, cfg: &ThemeConfiguration) -> (r: Theme)
    ensures
        theme_matches(r, *cfg, *ctx),
{
    let mut attachments: Vec<ResolvedAttachment> = Vec::new();
    let mut regions: Vec<Region> = Vec::new();
    let mut prosthetics: Vec<Region> = Vec::new();
    let mut body_types: Vec<Region> = Vec::new();
    if let Some(th) = ctx.themes.get(&cfg.theme_configs) {
        let mut k: usize = 0;
        while k < th.attachments.len()
            invariant
                k <= th.attachments@.len(),
                attachments@ == attachments_spec(*ctx, th.attachments@, k as int),
            decreases th.attachments@.len() - k,
        {
            attachments.push(get_attachment(ctx, th.attachments[k].attachment));
            k = k + 1;
        }
        regions = add_regions(ctx, &th.regions);
        body_types = add_regions(ctx, &th.body_types);
        prosthetics = add_regions(ctx, &th.prosthetics);
    }
    let kits = &cfg.kit_configs;
    let mut kit_docs: Vec<Kit> = Vec::new();
    let mut j: usize = 0;
    while j < kits.len()
        invariant
            j <= kits@.len(),
            *kits == cfg.kit_configs,
            kit_docs@.len() == j,
            forall|m: int|
                0 <= m < j ==> {
                    &&& (#[trigger] kit_docs@[m]).name == kits@[m].name
                    &&& regions_match(kit_docs@[m].regions@, kits@[m].regions@, *ctx)
                },
        decreases kits@.len() - j,
    {
        let kit_regions = add_regions(ctx, &kits[j].regions);
        kit_docs.push(Kit { name: kits[j].name, regions: kit_regions });
        j = j + 1;
    }
    Theme {
        name: theme_name(cfg.name),
        variant_name: cfg.variant_name,
        attachments,
        regions,
        prosthetics,
        body_types,
        kits: kit_docs,
    }
}

/// The configurations `fresh_configs` picks are positions below `n`.
proof fn lemma_fresh_in_range(cfgs: Seq<ThemeConfiguration>, n: int)
    ensures
        forall|k: int|
            0 <= k < fresh_configs(cfgs, n).len() ==> 0 <= #[trigger] fresh_configs(cfgs, n)[k]
                < n,
    decreases n,
{
    if n > 0 && n <= cfgs.len() {
        lemma_fresh_in_range(cfgs, n - 1);
        let before = fresh_configs(cfgs, n - 1);
        assert forall|k: int| 0 <= k < fresh_configs(cfgs, n).len() implies 0
            <= #[trigger] fresh_configs(cfgs, n)[k] < n by {
            if k < before.len() {
                assert(fresh_configs(cfgs, n)[k] == before[k]);
            }
        }
    }
}

/// The customization document: the model of the first customization theme
/// and, in order, the document of each of its theme configurations whose
/// theme no earlier configuration uses. Empty where there is no theme.
pub fn process_object_globals(globals: &CustomizationGlobals, ctx: &CustomizationContext) -> (r:
    SpartanGlobals)
    ensures
        globals.themes@.len() == 0 ==> r.model == 0 && r.themes@.len() == 0,
        globals.themes@.len() > 0 ==> {
            let cfgs = globals.themes@[0].theme_configurations@;
            let fresh = fresh_configs(cfgs, cfgs.len() as int);
            &&& r.model == globals.themes@[0].model
            &&& r.themes@.len() == fresh.len()
            &&& forall|k: int|
                0 <= k < fresh.len() ==> theme_matches(#[trigger] r.themes@[k], cfgs[fresh[k]], *ctx)
        },
{
    let mut out = SpartanGlobals { model: 0, themes: Vec::new() };
    if globals.themes.len() == 0 {
        return out;
    }
    let first = &globals.themes[0];
    out.model = first.model;
    let cfgs = &first.theme_configurations;
    let mut seen: HashSet<i32> = HashSet::new();
    let mut i: usize = 0;
    while i < cfgs.len()
        invariant
            i <= cfgs@.len(),
            globals.themes@.len() > 0,
            *cfgs == globals.themes@[0].theme_configurations,
            out.model == globals.themes@[0].model,
            forall|x: i32|
                #[trigger] seen@.contains(x) <==> exists|j: int|
                    0 <= j < i && #[trigger] cfgs@[j].theme_configs == x,
            out.themes@.len() == fresh_configs(cfgs@, i as int).len(),
            forall|k: int|
                0 <= k < out.themes@.len() ==> theme_matches(
                    #[trigger] out.themes@[k],
                    cfgs@[fresh_configs(cfgs@, i as int)[k]],
                    *ctx,
                ),
        decreases cfgs@.len() - i,
    {
        let cfg = &cfgs[i];
        proof {
            lemma_fresh_in_range(cfgs@, i as int);
            lemma_fresh_in_range(cfgs@, i + 1);
        }
        let ghost old_seen = seen@;
        let fresh = seen.insert(cfg.theme_configs);
        proof {
            assert(fresh == !exists|j: int|
                0 <= j < i && #[trigger] cfgs@[j].theme_configs == cfgs@[i as int].theme_configs);
            assert forall|x: i32| #[trigger]
                seen@.contains(x) <==> exists|j: int|
                    0 <= j < i + 1 && #[trigger] cfgs@[j].theme_configs == x by {
                if x == cfg.theme_configs {
                    assert(cfgs@[i as int].theme_configs == x);
                } else if seen@.contains(x) {
                    assert(old_seen.contains(x));
                }
            }
        }
        if fresh {
            let t = theme_document(ctx, cfg);
            out.themes.push(t);
        }
        i = i + 1;
    }
    proof {
        lemma_fresh_in_range(cfgs@, i as int);
    }
    out
}

} // verus!
