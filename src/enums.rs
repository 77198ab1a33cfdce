//! The enumerations of material records, each read from its raw integer;
//! a raw value outside the variant set is refused, never defaulted.
use vstd::prelude::*;

verus! {

/// How many layers a style shader supports.
#[derive(PartialEq, Eq, Structural, Debug, Clone, Copy)]
pub enum MaterialStyleShaderSupportedLayers {
    Supports1Layer,
    Supports4Layers,
    Supports7Layers,
    LayerShaderDisabled,
}

impl MaterialStyleShaderSupportedLayers {
    /// The raw value that stands for this variant.
    pub open spec fn raw_spec(self) -> u8 {
        match self {
            MaterialStyleShaderSupportedLayers::Supports1Layer => 0,
            MaterialStyleShaderSupportedLayers::Supports4Layers => 1,
            MaterialStyleShaderSupportedLayers::Supports7Layers => 2,
            MaterialStyleShaderSupportedLayers::LayerShaderDisabled => 3,
        }
    }

    /// The raw value that stands for this variant.
    pub fn raw(&self) -> (r: u8)
        ensures
            r == self.raw_spec(),
    {
        match self {
            MaterialStyleShaderSupportedLayers::Supports1Layer => 0,
            MaterialStyleShaderSupportedLayers::Supports4Layers => 1,
            MaterialStyleShaderSupportedLayers::Supports7Layers => 2,
            MaterialStyleShaderSupportedLayers::LayerShaderDisabled => 3,
        }
    }

    /// The variant that `v` stands for, if any.
    pub open spec fn from_raw_spec(v: u8) -> Option<MaterialStyleShaderSupportedLayers> {
        if v == 0 {
            Some(MaterialStyleShaderSupportedLayers::Supports1Layer)
        } else if v == 1 {
            Some(MaterialStyleShaderSupportedLayers::Supports4Layers)
        } else if v == 2 {
            Some(MaterialStyleShaderSupportedLayers::Supports7Layers)
        } else if v == 3 {
            Some(MaterialStyleShaderSupportedLayers::LayerShaderDisabled)
        } else {
            None
        }
    }

    /// The variant that `v` stands for; `None` where it stands for none.
    pub fn from_raw(v: u8) -> (r: Option<MaterialStyleShaderSupportedLayers>)
        ensures
            r == MaterialStyleShaderSupportedLayers::from_raw_spec(v),
            r is Some <==> v < 4,
            r matches Some(x) ==> x.raw_spec() == v,
    {
        match v {
            0 => Some(MaterialStyleShaderSupportedLayers::Supports1Layer),
            1 => Some(MaterialStyleShaderSupportedLayers::Supports4Layers),
            2 => Some(MaterialStyleShaderSupportedLayers::Supports7Layers),
            3 => Some(MaterialStyleShaderSupportedLayers::LayerShaderDisabled),
            _ => None,
        }
    }
}
/// Whether a style shader supports damage.
#[derive(PartialEq, Eq, Structural, Debug, Clone, Copy)]
pub enum MaterialStyleShaderSupportsDamageEnum {
    No,
    Yes,
}

impl MaterialStyleShaderSupportsDamageEnum {
    /// The raw value that stands for this variant.
    pub open spec fn raw_spec(self) -> u8 {
        match self {
            MaterialStyleShaderSupportsDamageEnum::No => 0,
            MaterialStyleShaderSupportsDamageEnum::Yes => 1,
        }
    }

    /// The raw value that stands for this variant.
    pub fn raw(&self) -> (r: u8)
        ensures
            r == self.raw_spec(),
    {
        match self {
            MaterialStyleShaderSupportsDamageEnum::No => 0,
            MaterialStyleShaderSupportsDamageEnum::Yes => 1,
        }
    }

    /// The variant that `v` stands for, if any.
    pub open spec fn from_raw_spec(v: u8) -> Option<MaterialStyleShaderSupportsDamageEnum> {
        if v == 0 {
            Some(MaterialStyleShaderSupportsDamageEnum::No)
        } else if v == 1 {
            Some(MaterialStyleShaderSupportsDamageEnum::Yes)
        } else {
            None
        }
    }

    /// The variant that `v` stands for; `None` where it stands for none.
    pub fn from_raw(v: u8) -> (r: Option<MaterialStyleShaderSupportsDamageEnum>)
        ensures
            r == MaterialStyleShaderSupportsDamageEnum::from_raw_spec(v),
            r is Some <==> v < 2,
            r matches Some(x) ==> x.raw_spec() == v,
    {
        match v {
            0 => Some(MaterialStyleShaderSupportsDamageEnum::No),
            1 => Some(MaterialStyleShaderSupportsDamageEnum::Yes),
            _ => None,
        }
    }
}
/// The kind of value a material parameter holds.
#[derive(PartialEq, Eq, Structural, Debug, Clone, Copy)]
pub enum MaterialParameterType {
    Bitmap,
    Real,
    Int,
    Bool,
    Color,
    ScalarGPUProperty,
    ColorGPUProperty,
    String,
    Preset,
}

impl MaterialParameterType {
    /// The raw value that stands for this variant.
    pub open spec fn raw_spec(self) -> u32 {
        match self {
            MaterialParameterType::Bitmap => 0,
            MaterialParameterType::Real => 1,
            MaterialParameterType::Int => 2,
            MaterialParameterType::Bool => 3,
            MaterialParameterType::Color => 4,
            MaterialParameterType::ScalarGPUProperty => 5,
            MaterialParameterType::ColorGPUProperty => 6,
            MaterialParameterType::String => 7,
            MaterialParameterType::Preset => 8,
        }
    }

    /// The raw value that stands for this variant.
    pub fn raw(&self) -> (r: u32)
        ensures
            r == self.raw_spec(),
    {
        match self {
            MaterialParameterType::Bitmap => 0,
            MaterialParameterType::Real => 1,
            MaterialParameterType::Int => 2,
            MaterialParameterType::Bool => 3,
            MaterialParameterType::Color => 4,
            MaterialParameterType::ScalarGPUProperty => 5,
            MaterialParameterType::ColorGPUProperty => 6,
            MaterialParameterType::String => 7,
            MaterialParameterType::Preset => 8,
        }
    }

    /// The variant that `v` stands for, if any.
    pub open spec fn from_raw_spec(v: u32) -> Option<MaterialParameterType> {
        if v == 0 {
            Some(MaterialParameterType::Bitmap)
        } else if v == 1 {
            Some(MaterialParameterType::Real)
        } else if v == 2 {
            Some(MaterialParameterType::Int)
        } else if v == 3 {
            Some(MaterialParameterType::Bool)
        } else if v == 4 {
            Some(MaterialParameterType::Color)
        } else if v == 5 {
            Some(MaterialParameterType::ScalarGPUProperty)
        } else if v == 6 {
            Some(MaterialParameterType::ColorGPUProperty)
        } else if v == 7 {
            Some(MaterialParameterType::String)
        } else if v == 8 {
            Some(MaterialParameterType::Preset)
        } else {
            None
        }
    }

    /// The variant that `v` stands for; `None` where it stands for none.
    pub fn from_raw(v: u32) -> (r: Option<MaterialParameterType>)
        ensures
            r == MaterialParameterType::from_raw_spec(v),
            r is Some <==> v < 9,
            r matches Some(x) ==> x.raw_spec() == v,
    {
        match v {
            0 => Some(MaterialParameterType::Bitmap),
            1 => Some(MaterialParameterType::Real),
            2 => Some(MaterialParameterType::Int),
            3 => Some(MaterialParameterType::Bool),
            4 => Some(MaterialParameterType::Color),
            5 => Some(MaterialParameterType::ScalarGPUProperty),
            6 => Some(MaterialParameterType::ColorGPUProperty),
            7 => Some(MaterialParameterType::String),
            8 => Some(MaterialParameterType::Preset),
            _ => None,
        }
    }
}
/// The blend mode of a material.
#[derive(PartialEq, Eq, Structural, Debug, Clone, Copy)]
pub enum AlphaMode {
    Opaque,
    Additive,
    Multiply,
    AlphaBlend,
    DoubleMultiply,
    PreMultipliedAlpha,
    Maximum,
    MultiplyAdd,
    AddSrcTimesDstAlpha,
    AddSrcTimesSrcAlpha,
    InvAlphaBlend,
    OverdrawApply,
    Decal,
    Minimum,
    RevSubtract,
    AlphaBlendMax,
    OpaqueAlphaBlend,
    AlphaBlendAdditiveTransparent,
    Unused0,
    DecalAlphaBlend,
    DecalAddSrcTimesSrcAlpha,
    DecalMultiplyAdd,
    WpfNoColorBlendMode,
    DecalOpaque,
    AccumulatePreMultipliedAlpha,
    WpfBlendMode,
    AccumulateMultiplyAdd,
    AccumulateAlphaBlend,
    AccumulateInverseAlphaBlend,
    AccumulateAdditive,
    AccumulateAdditiveTransparent,
    AccumulateAddSrcTimesSrcAlpha,
    AccumulateMultiply,
    AlphaBlendForDisplayPlanes,
    TexturePainterSrcAddDestMult,
    TexturePainterDestMultSubSrc,
    LogicalOr,
    LogicalAnd,
    DecalMultiply,
    DecalDoubleMultiply,
    FourChannelAdditive,
    WpfAdditiveBlendMode,
    CloudApply,
    SubsurfaceScatteringConvolution,
    ReflectionOcclusionMask,
    TaaMaskAdditive,
    TaaMaskRevSubtract,
    TaaMaskMultiply,
    TaaMaskDoubleMultiply,
    TaaMaskPreMultipliedAlpha,
    TaaMaskMultiplyAdd,
    TaaMaskAlphaBlend,
    TaaMaskAddSrcTimesDstAlpha,
    TaaMaskAddSrcTimesSrcAlpha,
    TaaMaskAdditiveTransparent,
    TaaMaskAlphaBlendForDisplayPlane,
    TaaVelocityAdditive,
    TaaVelocityRevSubtract,
    TaaVelocityMultiply,
    TaaVelocityDoubleMultiply,
    TaaVelocityPreMultipliedAlpha,
    TaaVelocityMultiplyAdd,
    TaaVelocityAlphaBlend,
    TaaVelocityAddSrcTimesDstAlpha,
    TaaVelocityAddSrcTimesSrcAlpha,
    TaaVelocityAdditiveTransparent,
    TaaVelocityAlphaBlendForDisplayPlane,
    DeferredDecalsResolve,
    DecalAoOpaque,
    DecalAoAlphaBlend,
    DecalSssBlend,
    HudDamageAlphaBlend,
}

impl AlphaMode {
    /// The raw value that stands for this variant.
    pub open spec fn raw_spec(self) -> u8 {
        match self {
            AlphaMode::Opaque => 0,
            AlphaMode::Additive => 1,
            AlphaMode::Multiply => 2,
            AlphaMode::AlphaBlend => 3,
            AlphaMode::DoubleMultiply => 4,
            AlphaMode::PreMultipliedAlpha => 5,
            AlphaMode::Maximum => 6,
            AlphaMode::MultiplyAdd => 7,
            AlphaMode::AddSrcTimesDstAlpha => 8,
            AlphaMode::AddSrcTimesSrcAlpha => 9,
            AlphaMode::InvAlphaBlend => 10,
            AlphaMode::OverdrawApply => 11,
            AlphaMode::Decal => 12,
            AlphaMode::Minimum => 13,
            AlphaMode::RevSubtract => 14,
            AlphaMode::AlphaBlendMax => 15,
            AlphaMode::OpaqueAlphaBlend => 16,
            AlphaMode::AlphaBlendAdditiveTransparent => 17,
            AlphaMode::Unused0 => 18,
            AlphaMode::DecalAlphaBlend => 19,
            AlphaMode::DecalAddSrcTimesSrcAlpha => 20,
            AlphaMode::DecalMultiplyAdd => 21,
            AlphaMode::WpfNoColorBlendMode => 22,
            AlphaMode::DecalOpaque => 23,
            AlphaMode::AccumulatePreMultipliedAlpha => 24,
            AlphaMode::WpfBlendMode => 25,
            AlphaMode::AccumulateMultiplyAdd => 26,
            AlphaMode::AccumulateAlphaBlend => 27,
            AlphaMode::AccumulateInverseAlphaBlend => 28,
            AlphaMode::AccumulateAdditive => 29,
            AlphaMode::AccumulateAdditiveTransparent => 30,
            AlphaMode::AccumulateAddSrcTimesSrcAlpha => 31,
            AlphaMode::AccumulateMultiply => 32,
            AlphaMode::AlphaBlendForDisplayPlanes => 33,
            AlphaMode::TexturePainterSrcAddDestMult => 34,
            AlphaMode::TexturePainterDestMultSubSrc => 35,
            AlphaMode::LogicalOr => 36,
            AlphaMode::LogicalAnd => 37,
            AlphaMode::DecalMultiply => 38,
            AlphaMode::DecalDoubleMultiply => 39,
            AlphaMode::FourChannelAdditive => 40,
            AlphaMode::WpfAdditiveBlendMode => 41,
            AlphaMode::CloudApply => 42,
            AlphaMode::SubsurfaceScatteringConvolution => 43,
            AlphaMode::ReflectionOcclusionMask => 44,
            AlphaMode::TaaMaskAdditive => 45,
            AlphaMode::TaaMaskRevSubtract => 46,
            AlphaMode::TaaMaskMultiply => 47,
            AlphaMode::TaaMaskDoubleMultiply => 48,
            AlphaMode::TaaMaskPreMultipliedAlpha => 49,
            AlphaMode::TaaMaskMultiplyAdd => 50,
            AlphaMode::TaaMaskAlphaBlend => 51,
            AlphaMode::TaaMaskAddSrcTimesDstAlpha => 52,
            AlphaMode::TaaMaskAddSrcTimesSrcAlpha => 53,
            AlphaMode::TaaMaskAdditiveTransparent => 54,
            AlphaMode::TaaMaskAlphaBlendForDisplayPlane => 55,
            AlphaMode::TaaVelocityAdditive => 56,
            AlphaMode::TaaVelocityRevSubtract => 57,
            AlphaMode::TaaVelocityMultiply => 58,
            AlphaMode::TaaVelocityDoubleMultiply => 59,
            AlphaMode::TaaVelocityPreMultipliedAlpha => 60,
            AlphaMode::TaaVelocityMultiplyAdd => 61,
            AlphaMode::TaaVelocityAlphaBlend => 62,
            AlphaMode::TaaVelocityAddSrcTimesDstAlpha => 63,
            AlphaMode::TaaVelocityAddSrcTimesSrcAlpha => 64,
            AlphaMode::TaaVelocityAdditiveTransparent => 65,
            AlphaMode::TaaVelocityAlphaBlendForDisplayPlane => 66,
            AlphaMode::DeferredDecalsResolve => 67,
            AlphaMode::DecalAoOpaque => 68,
            AlphaMode::DecalAoAlphaBlend => 69,
            AlphaMode::DecalSssBlend => 70,
            AlphaMode::HudDamageAlphaBlend => 71,
        }
    }

    /// The raw value that stands for this variant.
    pub fn raw(&self) -> (r: u8)
        ensures
            r == self.raw_spec(),
    {
        match self {
            AlphaMode::Opaque => 0,
            AlphaMode::Additive => 1,
            AlphaMode::Multiply => 2,
            AlphaMode::AlphaBlend => 3,
            AlphaMode::DoubleMultiply => 4,
            AlphaMode::PreMultipliedAlpha => 5,
            AlphaMode::Maximum => 6,
            AlphaMode::MultiplyAdd => 7,
            AlphaMode::AddSrcTimesDstAlpha => 8,
            AlphaMode::AddSrcTimesSrcAlpha => 9,
            AlphaMode::InvAlphaBlend => 10,
            AlphaMode::OverdrawApply => 11,
            AlphaMode::Decal => 12,
            AlphaMode::Minimum => 13,
            AlphaMode::RevSubtract => 14,
            AlphaMode::AlphaBlendMax => 15,
            AlphaMode::OpaqueAlphaBlend => 16,
            AlphaMode::AlphaBlendAdditiveTransparent => 17,
            AlphaMode::Unused0 => 18,
            AlphaMode::DecalAlphaBlend => 19,
            AlphaMode::DecalAddSrcTimesSrcAlpha => 20,
            AlphaMode::DecalMultiplyAdd => 21,
            AlphaMode::WpfNoColorBlendMode => 22,
            AlphaMode::DecalOpaque => 23,
            AlphaMode::AccumulatePreMultipliedAlpha => 24,
            AlphaMode::WpfBlendMode => 25,
            AlphaMode::AccumulateMultiplyAdd => 26,
            AlphaMode::AccumulateAlphaBlend => 27,
            AlphaMode::AccumulateInverseAlphaBlend => 28,
            AlphaMode::AccumulateAdditive => 29,
            AlphaMode::AccumulateAdditiveTransparent => 30,
            AlphaMode::AccumulateAddSrcTimesSrcAlpha => 31,
            AlphaMode::AccumulateMultiply => 32,
            AlphaMode::AlphaBlendForDisplayPlanes => 33,
            AlphaMode::TexturePainterSrcAddDestMult => 34,
            AlphaMode::TexturePainterDestMultSubSrc => 35,
            AlphaMode::LogicalOr => 36,
            AlphaMode::LogicalAnd => 37,
            AlphaMode::DecalMultiply => 38,
            AlphaMode::DecalDoubleMultiply => 39,
            AlphaMode::FourChannelAdditive => 40,
            AlphaMode::WpfAdditiveBlendMode => 41,
            AlphaMode::CloudApply => 42,
            AlphaMode::SubsurfaceScatteringConvolution => 43,
            AlphaMode::ReflectionOcclusionMask => 44,
            AlphaMode::TaaMaskAdditive => 45,
            AlphaMode::TaaMaskRevSubtract => 46,
            AlphaMode::TaaMaskMultiply => 47,
            AlphaMode::TaaMaskDoubleMultiply => 48,
            AlphaMode::TaaMaskPreMultipliedAlpha => 49,
            AlphaMode::TaaMaskMultiplyAdd => 50,
            AlphaMode::TaaMaskAlphaBlend => 51,
            AlphaMode::TaaMaskAddSrcTimesDstAlpha => 52,
            AlphaMode::TaaMaskAddSrcTimesSrcAlpha => 53,
            AlphaMode::TaaMaskAdditiveTransparent => 54,
            AlphaMode::TaaMaskAlphaBlendForDisplayPlane => 55,
            AlphaMode::TaaVelocityAdditive => 56,
            AlphaMode::TaaVelocityRevSubtract => 57,
            AlphaMode::TaaVelocityMultiply => 58,
            AlphaMode::TaaVelocityDoubleMultiply => 59,
            AlphaMode::TaaVelocityPreMultipliedAlpha => 60,
            AlphaMode::TaaVelocityMultiplyAdd => 61,
            AlphaMode::TaaVelocityAlphaBlend => 62,
            AlphaMode::TaaVelocityAddSrcTimesDstAlpha => 63,
            AlphaMode::TaaVelocityAddSrcTimesSrcAlpha => 64,
            AlphaMode::TaaVelocityAdditiveTransparent => 65,
            AlphaMode::TaaVelocityAlphaBlendForDisplayPlane => 66,
            AlphaMode::DeferredDecalsResolve => 67,
            AlphaMode::DecalAoOpaque => 68,
            AlphaMode::DecalAoAlphaBlend => 69,
            AlphaMode::DecalSssBlend => 70,
            AlphaMode::HudDamageAlphaBlend => 71,
        }
    }

    /// The variant that `v` stands for, if any.
    pub open spec fn from_raw_spec(v: u8) -> Option<AlphaMode> {
        if v == 0 {
            Some(AlphaMode::Opaque)
        } else if v == 1 {
            Some(AlphaMode::Additive)
        } else if v == 2 {
            Some(AlphaMode::Multiply)
        } else if v == 3 {
            Some(AlphaMode::AlphaBlend)
        } else if v == 4 {
            Some(AlphaMode::DoubleMultiply)
        } else if v == 5 {
            Some(AlphaMode::PreMultipliedAlpha)
        } else if v == 6 {
            Some(AlphaMode::Maximum)
        } else if v == 7 {
            Some(AlphaMode::MultiplyAdd)
        } else if v == 8 {
            Some(AlphaMode::AddSrcTimesDstAlpha)
        } else if v == 9 {
            Some(AlphaMode::AddSrcTimesSrcAlpha)
        } else if v == 10 {
            Some(AlphaMode::InvAlphaBlend)
        } else if v == 11 {
            Some(AlphaMode::OverdrawApply)
        } else if v == 12 {
            Some(AlphaMode::Decal)
        } else if v == 13 {
            Some(AlphaMode::Minimum)
        } else if v == 14 {
            Some(AlphaMode::RevSubtract)
        } else if v == 15 {
            Some(AlphaMode::AlphaBlendMax)
        } else if v == 16 {
            Some(AlphaMode::OpaqueAlphaBlend)
        } else if v == 17 {
            Some(AlphaMode::AlphaBlendAdditiveTransparent)
        } else if v == 18 {
            Some(AlphaMode::Unused0)
        } else if v == 19 {
            Some(AlphaMode::DecalAlphaBlend)
        } else if v == 20 {
            Some(AlphaMode::DecalAddSrcTimesSrcAlpha)
        } else if v == 21 {
            Some(AlphaMode::DecalMultiplyAdd)
        } else if v == 22 {
            Some(AlphaMode::WpfNoColorBlendMode)
        } else if v == 23 {
            Some(AlphaMode::DecalOpaque)
        } else if v == 24 {
            Some(AlphaMode::AccumulatePreMultipliedAlpha)
        } else if v == 25 {
            Some(AlphaMode::WpfBlendMode)
        } else if v == 26 {
            Some(AlphaMode::AccumulateMultiplyAdd)
        } else if v == 27 {
            Some(AlphaMode::AccumulateAlphaBlend)
        } else if v == 28 {
            Some(AlphaMode::AccumulateInverseAlphaBlend)
        } else if v == 29 {
            Some(AlphaMode::AccumulateAdditive)
        } else if v == 30 {
            Some(AlphaMode::AccumulateAdditiveTransparent)
        } else if v == 31 {
            Some(AlphaMode::AccumulateAddSrcTimesSrcAlpha)
        } else if v == 32 {
            Some(AlphaMode::AccumulateMultiply)
        } else if v == 33 {
            Some(AlphaMode::AlphaBlendForDisplayPlanes)
        } else if v == 34 {
            Some(AlphaMode::TexturePainterSrcAddDestMult)
        } else if v == 35 {
            Some(AlphaMode::TexturePainterDestMultSubSrc)
        } else if v == 36 {
            Some(AlphaMode::LogicalOr)
        } else if v == 37 {
            Some(AlphaMode::LogicalAnd)
        } else if v == 38 {
            Some(AlphaMode::DecalMultiply)
        } else if v == 39 {
            Some(AlphaMode::DecalDoubleMultiply)
        } else if v == 40 {
            Some(AlphaMode::FourChannelAdditive)
        } else if v == 41 {
            Some(AlphaMode::WpfAdditiveBlendMode)
        } else if v == 42 {
            Some(AlphaMode::CloudApply)
        } else if v == 43 {
            Some(AlphaMode::SubsurfaceScatteringConvolution)
        } else if v == 44 {
            Some(AlphaMode::ReflectionOcclusionMask)
        } else if v == 45 {
            Some(AlphaMode::TaaMaskAdditive)
        } else if v == 46 {
            Some(AlphaMode::TaaMaskRevSubtract)
        } else if v == 47 {
            Some(AlphaMode::TaaMaskMultiply)
        } else if v == 48 {
            Some(AlphaMode::TaaMaskDoubleMultiply)
        } else if v == 49 {
            Some(AlphaMode::TaaMaskPreMultipliedAlpha)
        } else if v == 50 {
            Some(AlphaMode::TaaMaskMultiplyAdd)
        } else if v == 51 {
            Some(AlphaMode::TaaMaskAlphaBlend)
        } else if v == 52 {
            Some(AlphaMode::TaaMaskAddSrcTimesDstAlpha)
        } else if v == 53 {
            Some(AlphaMode::TaaMaskAddSrcTimesSrcAlpha)
        } else if v == 54 {
            Some(AlphaMode::TaaMaskAdditiveTransparent)
        } else if v == 55 {
            Some(AlphaMode::TaaMaskAlphaBlendForDisplayPlane)
        } else if v == 56 {
            Some(AlphaMode::TaaVelocityAdditive)
        } else if v == 57 {
            Some(AlphaMode::TaaVelocityRevSubtract)
        } else if v == 58 {
            Some(AlphaMode::TaaVelocityMultiply)
        } else if v == 59 {
            Some(AlphaMode::TaaVelocityDoubleMultiply)
        } else if v == 60 {
            Some(AlphaMode::TaaVelocityPreMultipliedAlpha)
        } else if v == 61 {
            Some(AlphaMode::TaaVelocityMultiplyAdd)
        } else if v == 62 {
            Some(AlphaMode::TaaVelocityAlphaBlend)
        } else if v == 63 {
            Some(AlphaMode::TaaVelocityAddSrcTimesDstAlpha)
        } else if v == 64 {
            Some(AlphaMode::TaaVelocityAddSrcTimesSrcAlpha)
        } else if v == 65 {
            Some(AlphaMode::TaaVelocityAdditiveTransparent)
        } else if v == 66 {
            Some(AlphaMode::TaaVelocityAlphaBlendForDisplayPlane)
        } else if v == 67 {
            Some(AlphaMode::DeferredDecalsResolve)
        } else if v == 68 {
            Some(AlphaMode::DecalAoOpaque)
        } else if v == 69 {
            Some(AlphaMode::DecalAoAlphaBlend)
        } else if v == 70 {
            Some(AlphaMode::DecalSssBlend)
        } else if v == 71 {
            Some(AlphaMode::HudDamageAlphaBlend)
        } else {
            None
        }
    }

    /// The variant that `v` stands for; `None` where it stands for none.
    pub fn from_raw(v: u8) -> (r: Option<AlphaMode>)
        ensures
            r == AlphaMode::from_raw_spec(v),
            r is Some <==> v < 72,
            r matches Some(x) ==> x.raw_spec() == v,
    {
        match v {
            0 => Some(AlphaMode::Opaque),
            1 => Some(AlphaMode::Additive),
            2 => Some(AlphaMode::Multiply),
            3 => Some(AlphaMode::AlphaBlend),
            4 => Some(AlphaMode::DoubleMultiply),
            5 => Some(AlphaMode::PreMultipliedAlpha),
            6 => Some(AlphaMode::Maximum),
            7 => Some(AlphaMode::MultiplyAdd),
            8 => Some(AlphaMode::AddSrcTimesDstAlpha),
            9 => Some(AlphaMode::AddSrcTimesSrcAlpha),
            10 => Some(AlphaMode::InvAlphaBlend),
            11 => Some(AlphaMode::OverdrawApply),
            12 => Some(AlphaMode::Decal),
            13 => Some(AlphaMode::Minimum),
            14 => Some(AlphaMode::RevSubtract),
            15 => Some(AlphaMode::AlphaBlendMax),
            16 => Some(AlphaMode::OpaqueAlphaBlend),
            17 => Some(AlphaMode::AlphaBlendAdditiveTransparent),
            18 => Some(AlphaMode::Unused0),
            19 => Some(AlphaMode::DecalAlphaBlend),
            20 => Some(AlphaMode::DecalAddSrcTimesSrcAlpha),
            21 => Some(AlphaMode::DecalMultiplyAdd),
            22 => Some(AlphaMode::WpfNoColorBlendMode),
            23 => Some(AlphaMode::DecalOpaque),
            24 => Some(AlphaMode::AccumulatePreMultipliedAlpha),
            25 => Some(AlphaMode::WpfBlendMode),
            26 => Some(AlphaMode::AccumulateMultiplyAdd),
            27 => Some(AlphaMode::AccumulateAlphaBlend),
            28 => Some(AlphaMode::AccumulateInverseAlphaBlend),
            29 => Some(AlphaMode::AccumulateAdditive),
            30 => Some(AlphaMode::AccumulateAdditiveTransparent),
            31 => Some(AlphaMode::AccumulateAddSrcTimesSrcAlpha),
            32 => Some(AlphaMode::AccumulateMultiply),
            33 => Some(AlphaMode::AlphaBlendForDisplayPlanes),
            34 => Some(AlphaMode::TexturePainterSrcAddDestMult),
            35 => Some(AlphaMode::TexturePainterDestMultSubSrc),
            36 => Some(AlphaMode::LogicalOr),
            37 => Some(AlphaMode::LogicalAnd),
            38 => Some(AlphaMode::DecalMultiply),
            39 => Some(AlphaMode::DecalDoubleMultiply),
            40 => Some(AlphaMode::FourChannelAdditive),
            41 => Some(AlphaMode::WpfAdditiveBlendMode),
            42 => Some(AlphaMode::CloudApply),
            43 => Some(AlphaMode::SubsurfaceScatteringConvolution),
            44 => Some(AlphaMode::ReflectionOcclusionMask),
            45 => Some(AlphaMode::TaaMaskAdditive),
            46 => Some(AlphaMode::TaaMaskRevSubtract),
            47 => Some(AlphaMode::TaaMaskMultiply),
            48 => Some(AlphaMode::TaaMaskDoubleMultiply),
            49 => Some(AlphaMode::TaaMaskPreMultipliedAlpha),
            50 => Some(AlphaMode::TaaMaskMultiplyAdd),
            51 => Some(AlphaMode::TaaMaskAlphaBlend),
            52 => Some(AlphaMode::TaaMaskAddSrcTimesDstAlpha),
            53 => Some(AlphaMode::TaaMaskAddSrcTimesSrcAlpha),
            54 => Some(AlphaMode::TaaMaskAdditiveTransparent),
            55 => Some(AlphaMode::TaaMaskAlphaBlendForDisplayPlane),
            56 => Some(AlphaMode::TaaVelocityAdditive),
            57 => Some(AlphaMode::TaaVelocityRevSubtract),
            58 => Some(AlphaMode::TaaVelocityMultiply),
            59 => Some(AlphaMode::TaaVelocityDoubleMultiply),
            60 => Some(AlphaMode::TaaVelocityPreMultipliedAlpha),
            61 => Some(AlphaMode::TaaVelocityMultiplyAdd),
            62 => Some(AlphaMode::TaaVelocityAlphaBlend),
            63 => Some(AlphaMode::TaaVelocityAddSrcTimesDstAlpha),
            64 => Some(AlphaMode::TaaVelocityAddSrcTimesSrcAlpha),
            65 => Some(AlphaMode::TaaVelocityAdditiveTransparent),
            66 => Some(AlphaMode::TaaVelocityAlphaBlendForDisplayPlane),
            67 => Some(AlphaMode::DeferredDecalsResolve),
            68 => Some(AlphaMode::DecalAoOpaque),
            69 => Some(AlphaMode::DecalAoAlphaBlend),
            70 => Some(AlphaMode::DecalSssBlend),
            71 => Some(AlphaMode::HudDamageAlphaBlend),
            _ => None,
        }
    }
}
/// The slot a bitmap is bound to in a material.
#[derive(PartialEq, Eq, Structural, Debug, Clone, Copy)]
pub enum TextureType {
    Normal,
    Asg,
    Mask0,
    Mask1,
    Color,
    Control,
    AlphaMap,
    MacroMaskMap,
    MacroCohmap,
    MacroConemap,
    MacroNormal,
    NoiseTexture,
    SharedControl,
    BurntGradient,
    Emissive,
    Meter,
    AORoughnessTransmission,
    SpecScatterPore,
    PoreNormal,
    DetailNormal,
    Sclera,
    ScleraNormal,
    Iris,
    IrisNormal,
    AO,
    EyeGazeMap,
    Cubemap,
}

impl TextureType {
    /// The raw value that stands for this variant.
    pub open spec fn raw_spec(self) -> u8 {
        match self {
            TextureType::Normal => 0,
            TextureType::Asg => 1,
            TextureType::Mask0 => 2,
            TextureType::Mask1 => 3,
            TextureType::Color => 4,
            TextureType::Control => 5,
            TextureType::AlphaMap => 6,
            TextureType::MacroMaskMap => 7,
            TextureType::MacroCohmap => 8,
            TextureType::MacroConemap => 9,
            TextureType::MacroNormal => 10,
            TextureType::NoiseTexture => 11,
            TextureType::SharedControl => 12,
            TextureType::BurntGradient => 13,
            TextureType::Emissive => 14,
            TextureType::Meter => 15,
            TextureType::AORoughnessTransmission => 16,
            TextureType::SpecScatterPore => 17,
            TextureType::PoreNormal => 18,
            TextureType::DetailNormal => 19,
            TextureType::Sclera => 20,
            TextureType::ScleraNormal => 21,
            TextureType::Iris => 22,
            TextureType::IrisNormal => 23,
            TextureType::AO => 24,
            TextureType::EyeGazeMap => 25,
            TextureType::Cubemap => 26,
        }
    }

    /// The raw value that stands for this variant.
    pub fn raw(&self) -> (r: u8)
        ensures
            r == self.raw_spec(),
    {
        match self {
            TextureType::Normal => 0,
            TextureType::Asg => 1,
            TextureType::Mask0 => 2,
            TextureType::Mask1 => 3,
            TextureType::Color => 4,
            TextureType::Control => 5,
            TextureType::AlphaMap => 6,
            TextureType::MacroMaskMap => 7,
            TextureType::MacroCohmap => 8,
            TextureType::MacroConemap => 9,
            TextureType::MacroNormal => 10,
            TextureType::NoiseTexture => 11,
            TextureType::SharedControl => 12,
            TextureType::BurntGradient => 13,
            TextureType::Emissive => 14,
            TextureType::Meter => 15,
            TextureType::AORoughnessTransmission => 16,
            TextureType::SpecScatterPore => 17,
            TextureType::PoreNormal => 18,
            TextureType::DetailNormal => 19,
            TextureType::Sclera => 20,
            TextureType::ScleraNormal => 21,
            TextureType::Iris => 22,
            TextureType::IrisNormal => 23,
            TextureType::AO => 24,
            TextureType::EyeGazeMap => 25,
            TextureType::Cubemap => 26,
        }
    }

    /// The variant that `v` stands for, if any.
    pub open spec fn from_raw_spec(v: u8) -> Option<TextureType> {
        if v == 0 {
            Some(TextureType::Normal)
        } else if v == 1 {
            Some(TextureType::Asg)
        } else if v == 2 {
            Some(TextureType::Mask0)
        } else if v == 3 {
            Some(TextureType::Mask1)
        } else if v == 4 {
            Some(TextureType::Color)
        } else if v == 5 {
            Some(TextureType::Control)
        } else if v == 6 {
            Some(TextureType::AlphaMap)
        } else if v == 7 {
            Some(TextureType::MacroMaskMap)
        } else if v == 8 {
            Some(TextureType::MacroCohmap)
        } else if v == 9 {
            Some(TextureType::MacroConemap)
        } else if v == 10 {
            Some(TextureType::MacroNormal)
        } else if v == 11 {
            Some(TextureType::NoiseTexture)
        } else if v == 12 {
            Some(TextureType::SharedControl)
        } else if v == 13 {
            Some(TextureType::BurntGradient)
        } else if v == 14 {
            Some(TextureType::Emissive)
        } else if v == 15 {
            Some(TextureType::Meter)
        } else if v == 16 {
            Some(TextureType::AORoughnessTransmission)
        } else if v == 17 {
            Some(TextureType::SpecScatterPore)
        } else if v == 18 {
            Some(TextureType::PoreNormal)
        } else if v == 19 {
            Some(TextureType::DetailNormal)
        } else if v == 20 {
            Some(TextureType::Sclera)
        } else if v == 21 {
            Some(TextureType::ScleraNormal)
        } else if v == 22 {
            Some(TextureType::Iris)
        } else if v == 23 {
            Some(TextureType::IrisNormal)
        } else if v == 24 {
            Some(TextureType::AO)
        } else if v == 25 {
            Some(TextureType::EyeGazeMap)
        } else if v == 26 {
            Some(TextureType::Cubemap)
        } else {
            None
        }
    }

    /// The variant that `v` stands for; `None` where it stands for none.
    pub fn from_raw(v: u8) -> (r: Option<TextureType>)
        ensures
            r == TextureType::from_raw_spec(v),
            r is Some <==> v < 27,
            r matches Some(x) ==> x.raw_spec() == v,
    {
        match v {
            0 => Some(TextureType::Normal),
            1 => Some(TextureType::Asg),
            2 => Some(TextureType::Mask0),
            3 => Some(TextureType::Mask1),
            4 => Some(TextureType::Color),
            5 => Some(TextureType::Control),
            6 => Some(TextureType::AlphaMap),
            7 => Some(TextureType::MacroMaskMap),
            8 => Some(TextureType::MacroCohmap),
            9 => Some(TextureType::MacroConemap),
            10 => Some(TextureType::MacroNormal),
            11 => Some(TextureType::NoiseTexture),
            12 => Some(TextureType::SharedControl),
            13 => Some(TextureType::BurntGradient),
            14 => Some(TextureType::Emissive),
            15 => Some(TextureType::Meter),
            16 => Some(TextureType::AORoughnessTransmission),
            17 => Some(TextureType::SpecScatterPore),
            18 => Some(TextureType::PoreNormal),
            19 => Some(TextureType::DetailNormal),
            20 => Some(TextureType::Sclera),
            21 => Some(TextureType::ScleraNormal),
            22 => Some(TextureType::Iris),
            23 => Some(TextureType::IrisNormal),
            24 => Some(TextureType::AO),
            25 => Some(TextureType::EyeGazeMap),
            26 => Some(TextureType::Cubemap),
            _ => None,
        }
    }
}
} // verus!
