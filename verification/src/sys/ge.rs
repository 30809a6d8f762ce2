//! Graphic Engine operation and management.
use vstd::prelude::*;

use crate::sys::result::{SceIntoOkValue, SceOkRoundTrip, SceResultOk};
use crate::sys::{SceSize, SceUid, SCE_OK_MAX};

verus! {

/// A Valid Display list ID.
#[derive(Debug, Clone, Copy, PartialEq, Eq, Structural, PartialOrd, Ord, Hash)]
pub struct DisplayListId(SceUid);

impl DisplayListId {
    /// The identifier word.
    pub closed spec fn raw(self) -> u32 {
        self.0.raw()
    }

    /// The identifier whose word is `raw`.
    pub closed spec fn spec_new(raw: u32) -> DisplayListId {
        DisplayListId(SceUid::spec_new(raw))
    }

    /// The word of an identifier built from a word is that word.
    pub broadcast proof fn lemma_raw_spec_new(raw: u32)
        ensures
            #[trigger] DisplayListId::spec_new(raw).raw() == raw,
    {
    }

    /// An identifier is the identifier built from its word.
    pub broadcast proof fn lemma_spec_new_raw(id: DisplayListId)
        ensures
            #[trigger] DisplayListId::spec_new(id.raw()) == id,
    {
    }

    /// Create a new identifier from a raw value.
    ///
    /// This functions checks for the value of `raw` to be a in the range of possible `SceUid`
    /// values used by the PSP OS, returning [`None`] otherwise.
    pub fn from_raw(raw: u32) -> (r: Option<DisplayListId>)
        ensures
            r == (if raw <= SCE_OK_MAX {
                Some(DisplayListId::spec_new(raw))
            } else {
                None
            }),
    {
        if raw <= SCE_OK_MAX {
            Some(DisplayListId(SceUid::from_raw_unchecked(raw)))
        } else {
            None
        }
    }

    /// Create a new identifier from a raw value that is known to be in range.
    pub fn from_raw_unchecked(raw: u32) -> (r: DisplayListId)
        requires
            raw <= SCE_OK_MAX,
        ensures
            r == DisplayListId::spec_new(raw),
    {
        DisplayListId(SceUid::from_raw_unchecked(raw))
    }

    /// The identifier word.
    pub fn to_inner(self) -> (r: u32)
        ensures
            r == self.raw(),
            r <= SCE_OK_MAX,
    {
        self.0.to_inner()
    }
}

impl SceResultOk for DisplayListId {
    open spec fn ok_value_spec(ok_value: u32) -> Option<DisplayListId> {
        Some(DisplayListId::spec_new(ok_value))
    }

    open spec fn ok_value64_spec(ok_value: u64) -> Option<DisplayListId> {
        if ok_value <= SCE_OK_MAX as u64 {
            Some(DisplayListId::spec_new(ok_value as u32))
        } else {
            None
        }
    }

    fn handle_ok_value(ok_value: u32) -> (r: Option<DisplayListId>) {
        Some(DisplayListId(SceUid::from_raw_unchecked(ok_value)))
    }

    fn handle_ok_value64(ok_value: u64) -> (r: Option<DisplayListId>) {
        if ok_value <= SCE_OK_MAX as u64 {
            Some(DisplayListId(SceUid::from_raw_unchecked(ok_value as u32)))
        } else {
            None
        }
    }
}

impl SceIntoOkValue for DisplayListId {
    open spec fn into_ok_spec(self) -> u32 {
        self.raw()
    }

    fn into_ok_value(self) -> (r: u32) {
        self.to_inner()
    }
}

impl SceOkRoundTrip for DisplayListId {
    proof fn lemma_ok_round_trip(v: DisplayListId) {
    }
}

/// A Graphic Engine callback ID.
#[derive(Debug, Clone, Copy, PartialEq, Eq, Structural, PartialOrd, Ord, Hash)]
pub struct GeCallbackId(SceUid);

impl GeCallbackId {
    /// The identifier word.
    pub closed spec fn raw(self) -> u32 {
        self.0.raw()
    }

    /// The identifier whose word is `raw`.
    pub closed spec fn spec_new(raw: u32) -> GeCallbackId {
        GeCallbackId(SceUid::spec_new(raw))
    }

    /// The word of an identifier built from a word is that word.
    pub broadcast proof fn lemma_raw_spec_new(raw: u32)
        ensures
            #[trigger] GeCallbackId::spec_new(raw).raw() == raw,
    {
    }

    /// An identifier is the identifier built from its word.
    pub broadcast proof fn lemma_spec_new_raw(id: GeCallbackId)
        ensures
            #[trigger] GeCallbackId::spec_new(id.raw()) == id,
    {
    }

    /// Create a new identifier from a raw value.
    ///
    /// This functions checks for the value of `raw` to be a in the range of possible `SceUid`
    /// values used by the PSP OS, returning [`None`] otherwise.
    pub fn from_raw(raw: u32) -> (r: Option<GeCallbackId>)
        ensures
            r == (if raw <= SCE_OK_MAX {
                Some(GeCallbackId::spec_new(raw))
            } else {
                None
            }),
    {
        if raw <= SCE_OK_MAX {
            Some(GeCallbackId(SceUid::from_raw_unchecked(raw)))
        } else {
            None
        }
    }

    /// Create a new identifier from a raw value that is known to be in range.
    pub fn from_raw_unchecked(raw: u32) -> (r: GeCallbackId)
        requires
            raw <= SCE_OK_MAX,
        ensures
            r == GeCallbackId::spec_new(raw),
    {
        GeCallbackId(SceUid::from_raw_unchecked(raw))
    }

    /// The identifier word.
    pub fn to_inner(self) -> (r: u32)
        ensures
            r == self.raw(),
            r <= SCE_OK_MAX,
    {
        self.0.to_inner()
    }
}

impl SceResultOk for GeCallbackId {
    open spec fn ok_value_spec(ok_value: u32) -> Option<GeCallbackId> {
        Some(GeCallbackId::spec_new(ok_value))
    }

    open spec fn ok_value64_spec(ok_value: u64) -> Option<GeCallbackId> {
        if ok_value <= SCE_OK_MAX as u64 {
            Some(GeCallbackId::spec_new(ok_value as u32))
        } else {
            None
        }
    }

    fn handle_ok_value(ok_value: u32) -> (r: Option<GeCallbackId>) {
        Some(GeCallbackId(SceUid::from_raw_unchecked(ok_value)))
    }

    fn handle_ok_value64(ok_value: u64) -> (r: Option<GeCallbackId>) {
        if ok_value <= SCE_OK_MAX as u64 {
            Some(GeCallbackId(SceUid::from_raw_unchecked(ok_value as u32)))
        } else {
            None
        }
    }
}

impl SceIntoOkValue for GeCallbackId {
    open spec fn into_ok_spec(self) -> u32 {
        self.raw()
    }

    fn into_ok_value(self) -> (r: u32) {
        self.to_inner()
    }
}

impl SceOkRoundTrip for GeCallbackId {
    proof fn lemma_ok_round_trip(v: GeCallbackId) {
    }
}

/// Storage for a Graphic Engine context.
#[derive(Debug, Clone, Copy, PartialEq, Eq, PartialOrd, Ord, Hash)]
pub struct GeContext {
    buffer: [u32; 512],
}

impl GeContext {
    /// The words of the saved context.
    pub closed spec fn words(self) -> Seq<u32> {
        self.buffer@
    }

    /// Creates a empty `GeContext` to be filled with `sceGeSaveContext`.
    pub fn empty() -> (r: GeContext)
        ensures
            r.words() == Seq::new(512, |_i: int| 0u32),
    {
        GeContext { buffer: [0; 512] }
    }
}

impl Default for GeContext {
    fn default() -> (r: GeContext)
        ensures
            r.words() == Seq::new(512, |_i: int| 0u32),
    {
        GeContext::empty()
    }
}

/// The list of arguments when enqueueing a list.
#[derive(Debug, Clone, Copy, PartialEq, Eq, PartialOrd, Ord, Hash)]
pub struct GeListArgs {
    /// The size of this structure.
    pub size: SceSize,
    /// A pointer to the context.
    ///
    /// Held as the 32-bit address it has on the PSP (0 for none).
    pub ctx: u32,
    /// The number of stacks to use.
    pub num_stacks: u32,
    /// A pointer to the stack list (unused).
    ///
    /// Held as the 32-bit address it has on the PSP (0 for none).
    pub stacks: u32,
}

impl Default for GeListArgs {
    /// The record with every field zero or at its default, and the size field set to the
    /// size of the record in the system interface.
    fn default() -> (r: GeListArgs)
        ensures
            r.size == 16,
            r.ctx == 0,
            r.num_stacks == 0,
            r.stacks == 0,
    {
        GeListArgs {
            size: 16,
            ctx: 0,
            num_stacks: 0,
            stacks: 0,
        }
    }
}

/// Storage for a stack (for CALL/RET).
#[derive(Debug, Clone, Copy, PartialEq, Eq, PartialOrd, Ord, Hash)]
pub struct GeStack {
    /// The stack buffer.
    pub stack: [u32; 8],
}

impl Default for GeStack {
    /// The record with every field zero or at its default.
    fn default() -> (r: GeStack)
        ensures
            r.stack@ == Seq::new(8, |_i: int| 0u32),
    {
        GeStack {
            stack: [0u32; 8],
        }
    }
}

/// The possible width values of the EDRAM address translation.
#[derive(Debug, Clone, Copy, PartialEq, Eq, Structural, PartialOrd, Ord, Hash)]
pub enum TranslationMemWidth {
    /// Linear mode.
    LinearMode,
    /// Width of 512 bytes.
    Bytes512,
    /// Width of 1024 bytes.
    Bytes1024,
    /// Width of 2048 bytes.
    Bytes2048,
    /// Width of 4096 bytes.
    Bytes4096,
}

impl TranslationMemWidth {
    /// The number that stands for the value in the system interface.
    pub open spec fn spec_raw(self) -> u32 {
        match self {
            TranslationMemWidth::LinearMode => 0,
            TranslationMemWidth::Bytes512 => 0x200,
            TranslationMemWidth::Bytes1024 => 0x400,
            TranslationMemWidth::Bytes2048 => 0x800,
            TranslationMemWidth::Bytes4096 => 0x1000,
        }
    }

    /// The number that stands for the value in the system interface.
    pub fn as_raw(self) -> (r: u32)
        ensures
            r == self.spec_raw(),
    {
        match self {
            TranslationMemWidth::LinearMode => 0,
            TranslationMemWidth::Bytes512 => 0x200,
            TranslationMemWidth::Bytes1024 => 0x400,
            TranslationMemWidth::Bytes2048 => 0x800,
            TranslationMemWidth::Bytes4096 => 0x1000,
        }
    }

    /// The value that the number `raw` stands for, if any.
    pub open spec fn spec_from_raw(raw: u32) -> Option<TranslationMemWidth> {
        if raw == 0 {
            Some(TranslationMemWidth::LinearMode)
        } else if raw == 0x200 {
            Some(TranslationMemWidth::Bytes512)
        } else if raw == 0x400 {
            Some(TranslationMemWidth::Bytes1024)
        } else if raw == 0x800 {
            Some(TranslationMemWidth::Bytes2048)
        } else if raw == 0x1000 {
            Some(TranslationMemWidth::Bytes4096)
        } else {
            None
        }
    }

    fn from_raw(raw: u32) -> (r: Option<TranslationMemWidth>)
        ensures
            r == TranslationMemWidth::spec_from_raw(raw),
    {
        match raw {
            0 => Some(TranslationMemWidth::LinearMode),
            0x200 => Some(TranslationMemWidth::Bytes512),
            0x400 => Some(TranslationMemWidth::Bytes1024),
            0x800 => Some(TranslationMemWidth::Bytes2048),
            0x1000 => Some(TranslationMemWidth::Bytes4096),
            _ => None,
        }
    }
}

impl Default for TranslationMemWidth {
    fn default() -> (r: TranslationMemWidth)
        ensures
            r == TranslationMemWidth::Bytes1024,
    {
        TranslationMemWidth::Bytes1024
    }
}

impl SceResultOk for TranslationMemWidth {
    open spec fn ok_value_spec(ok_value: u32) -> Option<TranslationMemWidth> {
        TranslationMemWidth::spec_from_raw(ok_value)
    }

    open spec fn ok_value64_spec(ok_value: u64) -> Option<TranslationMemWidth> {
        if ok_value <= SCE_OK_MAX as u64 {
            TranslationMemWidth::spec_from_raw(ok_value as u32)
        } else {
            None
        }
    }

    fn handle_ok_value(ok_value: u32) -> (r: Option<TranslationMemWidth>) {
        TranslationMemWidth::from_raw(ok_value)
    }

    fn handle_ok_value64(ok_value: u64) -> (r: Option<TranslationMemWidth>) {
        if ok_value <= SCE_OK_MAX as u64 {
            TranslationMemWidth::from_raw(ok_value as u32)
        } else {
            None
        }
    }
}

impl SceIntoOkValue for TranslationMemWidth {
    open spec fn into_ok_spec(self) -> u32 {
        self.spec_raw() as u32
    }

    fn into_ok_value(self) -> (r: u32) {
        self.as_raw() as u32
    }
}

impl SceOkRoundTrip for TranslationMemWidth {
    proof fn lemma_ok_round_trip(v: TranslationMemWidth) {
    }
}

/// The available GE commands.
#[derive(Debug, Clone, Copy, PartialEq, Eq, Structural, PartialOrd, Ord, Hash)]
pub enum GeCmd {
    Nop,
    Vaddr,
    Iaddr,
    Prim,
    Bezier,
    Spline,
    BoundingBox,
    Jump,
    BJump,
    Call,
    Ret,
    End,
    Signal,
    Finish,
    Base,
    VertexType,
    OffsetAddr,
    Origin,
    Region1,
    Region2,
    LightingEnable,
    LightEnable0,
    LightEnable1,
    LightEnable2,
    LightEnable3,
    DepthClampEnable,
    CullFaceEnable,
    TextureMapEnable,
    FogEnable,
    DitherEnable,
    AlphaBlendEnable,
    AlphaTestEnable,
    ZTestEnable,
    StencilTestEnable,
    AntiAliasEnable,
    PatchCullEnable,
    ColorTestEnable,
    LogicOpEnable,
    BoneMatrixNumber,
    BoneMatrixData,
    MorphWeight0,
    MorphWeight1,
    MorphWeight2,
    MorphWeight3,
    MorphWeight4,
    MorphWeight5,
    MorphWeight6,
    MorphWeight7,
    PatchDivision,
    PatchPrimitive,
    PatchFacing,
    WorldMatrixNumber,
    WorldMatrixData,
    ViewMatrixNumber,
    ViewMatrixData,
    ProjMatrixNumber,
    ProjMatrixData,
    TGenMatrixNumber,
    TGenMatrixData,
    ViewportXScale,
    ViewportYScale,
    ViewportZScale,
    ViewportXCenter,
    ViewportYCenter,
    ViewportZCenter,
    TexScaleU,
    TexScaleV,
    TexOffsetU,
    TexOffsetV,
    OffsetX,
    OffsetY,
    ShadeMode,
    ReverseNormal,
    MaterialUpdate,
    MaterialEmissive,
    MaterialAmbient,
    MaterialDiffuse,
    MaterialSpecular,
    MaterialAlpha,
    MaterialSpecularCoef,
    AmbientColor,
    AmbientAlpha,
    LightMode,
    LightType0,
    LightType1,
    LightType2,
    LightType3,
    Light0X,
    Light0Y,
    Light0Z,
    Light1X,
    Light1Y,
    Light1Z,
    Light2X,
    Light2Y,
    Light2Z,
    Light3X,
    Light3Y,
    Light3Z,
    Light0DirectionX,
    Light0DirectionY,
    Light0DirectionZ,
    Light1DirectionX,
    Light1DirectionY,
    Light1DirectionZ,
    Light2DirectionX,
    Light2DirectionY,
    Light2DirectionZ,
    Light3DirectionX,
    Light3DirectionY,
    Light3DirectionZ,
    Light0ConstantAtten,
    Light0LinearAtten,
    Light0QuadtraticAtten,
    Light1ConstantAtten,
    Light1LinearAtten,
    Light1QuadtraticAtten,
    Light2ConstantAtten,
    Light2LinearAtten,
    Light2QuadtraticAtten,
    Light3ConstantAtten,
    Light3LinearAtten,
    Light3QuadtraticAtten,
    Light0ExponentAtten,
    Light1ExponentAtten,
    Light2ExponentAtten,
    Light3ExponentAtten,
    Light0CutoffAtten,
    Light1CutoffAtten,
    Light2CutoffAtten,
    Light3CutoffAtten,
    Light0Ambient,
    Light0Diffuse,
    Light0Specular,
    Light1Ambient,
    Light1Diffuse,
    Light1Specular,
    Light2Ambient,
    Light2Diffuse,
    Light2Specular,
    Light3Ambient,
    Light3Diffuse,
    Light3Specular,
    Cull,
    FrameBufPtr,
    FrameBufWidth,
    ZBufPtr,
    ZBufWidth,
    TexAddr0,
    TexAddr1,
    TexAddr2,
    TexAddr3,
    TexAddr4,
    TexAddr5,
    TexAddr6,
    TexAddr7,
    TexBufWidth0,
    TexBufWidth1,
    TexBufWidth2,
    TexBufWidth3,
    TexBufWidth4,
    TexBufWidth5,
    TexBufWidth6,
    TexBufWidth7,
    ClutAddr,
    ClutAddrUpper,
    TransferSrc,
    TransferSrcWide,
    TransferDst,
    TransferDstWide,
    TexSize0,
    TexSize1,
    TexSize2,
    TexSize3,
    TexSize4,
    TexSize5,
    TexSize6,
    TexSize7,
    TexMapMode,
    TexShadeLs,
    TexMode,
    TexFormat,
    LoadClut,
    ClutFormat,
    TexFilter,
    TexWrap,
    TexLevel,
    TexFunc,
    TexEnvColor,
    TexFlush,
    TexSync,
    Fog1,
    Fog2,
    FogColor,
    TexLodSlope,
    FramebufPixFormat,
    ClearMode,
    Scissor1,
    Scissor2,
    MinZ,
    MaxZ,
    ColorTest,
    ColorRef,
    ColorTestmask,
    AlphaTest,
    StencilTest,
    StencilOp,
    ZTest,
    BlendMode,
    BlendFixedA,
    BlendFixedB,
    Dith0,
    Dith1,
    Dith2,
    Dith3,
    LogicOp,
    ZWriteDisable,
    MaskRgb,
    MaskAlpha,
    TransferStart,
    TransferSrcPos,
    TransferDstPos,
    TransferSize,
    /// Vertex Screen/Texture/Color
    VscX,
    /// Vertex Screen/Texture/Color
    VscY,
    /// Vertex Screen/Texture/Color
    VscZ,
    /// Vertex Screen/Texture/Color
    VtcS,
    /// Vertex Screen/Texture/Color
    VtcT,
    /// Vertex Screen/Texture/Color
    VtcQ,
    Vcv,
    Vap,
    Vfc,
    Vscv,
}

impl GeCmd {
    /// The number that stands for the value in the system interface.
    pub open spec fn spec_raw(self) -> u8 {
        match self {
            GeCmd::Nop => 0,
            GeCmd::Vaddr => 1,
            GeCmd::Iaddr => 2,
            GeCmd::Prim => 4,
            GeCmd::Bezier => 5,
            GeCmd::Spline => 6,
            GeCmd::BoundingBox => 7,
            GeCmd::Jump => 8,
            GeCmd::BJump => 9,
            GeCmd::Call => 0xA,
            GeCmd::Ret => 0xB,
            GeCmd::End => 0xC,
            GeCmd::Signal => 0xE,
            GeCmd::Finish => 0xF,
            GeCmd::Base => 0x10,
            GeCmd::VertexType => 0x12,
            GeCmd::OffsetAddr => 0x13,
            GeCmd::Origin => 0x14,
            GeCmd::Region1 => 0x15,
            GeCmd::Region2 => 0x16,
            GeCmd::LightingEnable => 0x17,
            GeCmd::LightEnable0 => 0x18,
            GeCmd::LightEnable1 => 0x19,
            GeCmd::LightEnable2 => 0x1A,
            GeCmd::LightEnable3 => 0x1B,
            GeCmd::DepthClampEnable => 0x1C,
            GeCmd::CullFaceEnable => 0x1D,
            GeCmd::TextureMapEnable => 0x1E,
            GeCmd::FogEnable => 0x1F,
            GeCmd::DitherEnable => 0x20,
            GeCmd::AlphaBlendEnable => 0x21,
            GeCmd::AlphaTestEnable => 0x22,
            GeCmd::ZTestEnable => 0x23,
            GeCmd::StencilTestEnable => 0x24,
            GeCmd::AntiAliasEnable => 0x25,
            GeCmd::PatchCullEnable => 0x26,
            GeCmd::ColorTestEnable => 0x27,
            GeCmd::LogicOpEnable => 0x28,
            GeCmd::BoneMatrixNumber => 0x2A,
            GeCmd::BoneMatrixData => 0x2B,
            GeCmd::MorphWeight0 => 0x2C,
            GeCmd::MorphWeight1 => 0x2D,
            GeCmd::MorphWeight2 => 0x2E,
            GeCmd::MorphWeight3 => 0x2F,
            GeCmd::MorphWeight4 => 0x30,
            GeCmd::MorphWeight5 => 0x31,
            GeCmd::MorphWeight6 => 0x32,
            GeCmd::MorphWeight7 => 0x33,
            GeCmd::PatchDivision => 0x36,
            GeCmd::PatchPrimitive => 0x37,
            GeCmd::PatchFacing => 0x38,
            GeCmd::WorldMatrixNumber => 0x3A,
            GeCmd::WorldMatrixData => 0x3B,
            GeCmd::ViewMatrixNumber => 0x3C,
            GeCmd::ViewMatrixData => 0x3D,
            GeCmd::ProjMatrixNumber => 0x3E,
            GeCmd::ProjMatrixData => 0x3F,
            GeCmd::TGenMatrixNumber => 0x40,
            GeCmd::TGenMatrixData => 0x41,
            GeCmd::ViewportXScale => 0x42,
            GeCmd::ViewportYScale => 0x43,
            GeCmd::ViewportZScale => 0x44,
            GeCmd::ViewportXCenter => 0x45,
            GeCmd::ViewportYCenter => 0x46,
            GeCmd::ViewportZCenter => 0x47,
            GeCmd::TexScaleU => 0x48,
            GeCmd::TexScaleV => 0x49,
            GeCmd::TexOffsetU => 0x4A,
            GeCmd::TexOffsetV => 0x4B,
            GeCmd::OffsetX => 0x4C,
            GeCmd::OffsetY => 0x4D,
            GeCmd::ShadeMode => 0x50,
            GeCmd::ReverseNormal => 0x51,
            GeCmd::MaterialUpdate => 0x53,
            GeCmd::MaterialEmissive => 0x54,
            GeCmd::MaterialAmbient => 0x55,
            GeCmd::MaterialDiffuse => 0x56,
            GeCmd::MaterialSpecular => 0x57,
            GeCmd::MaterialAlpha => 0x58,
            GeCmd::MaterialSpecularCoef => 0x5B,
            GeCmd::AmbientColor => 0x5C,
            GeCmd::AmbientAlpha => 0x5D,
            GeCmd::LightMode => 0x5E,
            GeCmd::LightType0 => 0x5F,
            GeCmd::LightType1 => 0x60,
            GeCmd::LightType2 => 0x61,
            GeCmd::LightType3 => 0x62,
            GeCmd::Light0X => 0x63,
            GeCmd::Light0Y => 0x64,
            GeCmd::Light0Z => 0x65,
            GeCmd::Light1X => 0x66,
            GeCmd::Light1Y => 0x67,
            GeCmd::Light1Z => 0x68,
            GeCmd::Light2X => 0x69,
            GeCmd::Light2Y => 0x6A,
            GeCmd::Light2Z => 0x6B,
            GeCmd::Light3X => 0x6C,
            GeCmd::Light3Y => 0x6D,
            GeCmd::Light3Z => 0x6E,
            GeCmd::Light0DirectionX => 0x6F,
            GeCmd::Light0DirectionY => 0x70,
            GeCmd::Light0DirectionZ => 0x71,
            GeCmd::Light1DirectionX => 0x72,
            GeCmd::Light1DirectionY => 0x73,
            GeCmd::Light1DirectionZ => 0x74,
            GeCmd::Light2DirectionX => 0x75,
            GeCmd::Light2DirectionY => 0x76,
            GeCmd::Light2DirectionZ => 0x77,
            GeCmd::Light3DirectionX => 0x78,
            GeCmd::Light3DirectionY => 0x79,
            GeCmd::Light3DirectionZ => 0x7A,
            GeCmd::Light0ConstantAtten => 0x7B,
            GeCmd::Light0LinearAtten => 0x7C,
            GeCmd::Light0QuadtraticAtten => 0x7D,
            GeCmd::Light1ConstantAtten => 0x7E,
            GeCmd::Light1LinearAtten => 0x7F,
            GeCmd::Light1QuadtraticAtten => 0x80,
            GeCmd::Light2ConstantAtten => 0x81,
            GeCmd::Light2LinearAtten => 0x82,
            GeCmd::Light2QuadtraticAtten => 0x83,
            GeCmd::Light3ConstantAtten => 0x84,
            GeCmd::Light3LinearAtten => 0x85,
            GeCmd::Light3QuadtraticAtten => 0x86,
            GeCmd::Light0ExponentAtten => 0x87,
            GeCmd::Light1ExponentAtten => 0x88,
            GeCmd::Light2ExponentAtten => 0x89,
            GeCmd::Light3ExponentAtten => 0x8A,
            GeCmd::Light0CutoffAtten => 0x8B,
            GeCmd::Light1CutoffAtten => 0x8C,
            GeCmd::Light2CutoffAtten => 0x8D,
            GeCmd::Light3CutoffAtten => 0x8E,
            GeCmd::Light0Ambient => 0x8F,
            GeCmd::Light0Diffuse => 0x90,
            GeCmd::Light0Specular => 0x91,
            GeCmd::Light1Ambient => 0x92,
            GeCmd::Light1Diffuse => 0x93,
            GeCmd::Light1Specular => 0x94,
            GeCmd::Light2Ambient => 0x95,
            GeCmd::Light2Diffuse => 0x96,
            GeCmd::Light2Specular => 0x97,
            GeCmd::Light3Ambient => 0x98,
            GeCmd::Light3Diffuse => 0x99,
            GeCmd::Light3Specular => 0x9A,
            GeCmd::Cull => 0x9B,
            GeCmd::FrameBufPtr => 0x9C,
            GeCmd::FrameBufWidth => 0x9D,
            GeCmd::ZBufPtr => 0x9E,
            GeCmd::ZBufWidth => 0x9F,
            GeCmd::TexAddr0 => 0xA0,
            GeCmd::TexAddr1 => 0xA1,
            GeCmd::TexAddr2 => 0xA2,
            GeCmd::TexAddr3 => 0xA3,
            GeCmd::TexAddr4 => 0xA4,
            GeCmd::TexAddr5 => 0xA5,
            GeCmd::TexAddr6 => 0xA6,
            GeCmd::TexAddr7 => 0xA7,
            GeCmd::TexBufWidth0 => 0xA8,
            GeCmd::TexBufWidth1 => 0xA9,
            GeCmd::TexBufWidth2 => 0xAA,
            GeCmd::TexBufWidth3 => 0xAB,
            GeCmd::TexBufWidth4 => 0xAC,
            GeCmd::TexBufWidth5 => 0xAD,
            GeCmd::TexBufWidth6 => 0xAE,
            GeCmd::TexBufWidth7 => 0xAF,
            GeCmd::ClutAddr => 0xB0,
            GeCmd::ClutAddrUpper => 0xB1,
            GeCmd::TransferSrc => 0xB2,
            GeCmd::TransferSrcWide => 0xB3,
            GeCmd::TransferDst => 0xB4,
            GeCmd::TransferDstWide => 0xB5,
            GeCmd::TexSize0 => 0xB8,
            GeCmd::TexSize1 => 0xB9,
            GeCmd::TexSize2 => 0xBA,
            GeCmd::TexSize3 => 0xBB,
            GeCmd::TexSize4 => 0xBC,
            GeCmd::TexSize5 => 0xBD,
            GeCmd::TexSize6 => 0xBE,
            GeCmd::TexSize7 => 0xBF,
            GeCmd::TexMapMode => 0xC0,
            GeCmd::TexShadeLs => 0xC1,
            GeCmd::TexMode => 0xC2,
            GeCmd::TexFormat => 0xC3,
            GeCmd::LoadClut => 0xC4,
            GeCmd::ClutFormat => 0xC5,
            GeCmd::TexFilter => 0xC6,
            GeCmd::TexWrap => 0xC7,
            GeCmd::TexLevel => 0xC8,
            GeCmd::TexFunc => 0xC9,
            GeCmd::TexEnvColor => 0xCA,
            GeCmd::TexFlush => 0xCB,
            GeCmd::TexSync => 0xCC,
            GeCmd::Fog1 => 0xCD,
            GeCmd::Fog2 => 0xCE,
            GeCmd::FogColor => 0xCF,
            GeCmd::TexLodSlope => 0xD0,
            GeCmd::FramebufPixFormat => 0xD2,
            GeCmd::ClearMode => 0xD3,
            GeCmd::Scissor1 => 0xD4,
            GeCmd::Scissor2 => 0xD5,
            GeCmd::MinZ => 0xD6,
            GeCmd::MaxZ => 0xD7,
            GeCmd::ColorTest => 0xD8,
            GeCmd::ColorRef => 0xD9,
            GeCmd::ColorTestmask => 0xDA,
            GeCmd::AlphaTest => 0xDB,
            GeCmd::StencilTest => 0xDC,
            GeCmd::StencilOp => 0xDD,
            GeCmd::ZTest => 0xDE,
            GeCmd::BlendMode => 0xDF,
            GeCmd::BlendFixedA => 0xE0,
            GeCmd::BlendFixedB => 0xE1,
            GeCmd::Dith0 => 0xE2,
            GeCmd::Dith1 => 0xE3,
            GeCmd::Dith2 => 0xE4,
            GeCmd::Dith3 => 0xE5,
            GeCmd::LogicOp => 0xE6,
            GeCmd::ZWriteDisable => 0xE7,
            GeCmd::MaskRgb => 0xE8,
            GeCmd::MaskAlpha => 0xE9,
            GeCmd::TransferStart => 0xEA,
            GeCmd::TransferSrcPos => 0xEB,
            GeCmd::TransferDstPos => 0xEC,
            GeCmd::TransferSize => 0xEE,
            GeCmd::VscX => 0xF0,
            GeCmd::VscY => 0xF1,
            GeCmd::VscZ => 0xF2,
            GeCmd::VtcS => 0xF3,
            GeCmd::VtcT => 0xF4,
            GeCmd::VtcQ => 0xF5,
            GeCmd::Vcv => 0xF6,
            GeCmd::Vap => 0xF7,
            GeCmd::Vfc => 0xF8,
            GeCmd::Vscv => 0xF9,
        }
    }

    /// The number that stands for the value in the system interface.
    pub fn as_raw(self) -> (r: u8)
        ensures
            r == self.spec_raw(),
    {
        match self {
            GeCmd::Nop => 0,
            GeCmd::Vaddr => 1,
            GeCmd::Iaddr => 2,
            GeCmd::Prim => 4,
            GeCmd::Bezier => 5,
            GeCmd::Spline => 6,
            GeCmd::BoundingBox => 7,
            GeCmd::Jump => 8,
            GeCmd::BJump => 9,
            GeCmd::Call => 0xA,
            GeCmd::Ret => 0xB,
            GeCmd::End => 0xC,
            GeCmd::Signal => 0xE,
            GeCmd::Finish => 0xF,
            GeCmd::Base => 0x10,
            GeCmd::VertexType => 0x12,
            GeCmd::OffsetAddr => 0x13,
            GeCmd::Origin => 0x14,
            GeCmd::Region1 => 0x15,
            GeCmd::Region2 => 0x16,
            GeCmd::LightingEnable => 0x17,
            GeCmd::LightEnable0 => 0x18,
            GeCmd::LightEnable1 => 0x19,
            GeCmd::LightEnable2 => 0x1A,
            GeCmd::LightEnable3 => 0x1B,
            GeCmd::DepthClampEnable => 0x1C,
            GeCmd::CullFaceEnable => 0x1D,
            GeCmd::TextureMapEnable => 0x1E,
            GeCmd::FogEnable => 0x1F,
            GeCmd::DitherEnable => 0x20,
            GeCmd::AlphaBlendEnable => 0x21,
            GeCmd::AlphaTestEnable => 0x22,
            GeCmd::ZTestEnable => 0x23,
            GeCmd::StencilTestEnable => 0x24,
            GeCmd::AntiAliasEnable => 0x25,
            GeCmd::PatchCullEnable => 0x26,
            GeCmd::ColorTestEnable => 0x27,
            GeCmd::LogicOpEnable => 0x28,
            GeCmd::BoneMatrixNumber => 0x2A,
            GeCmd::BoneMatrixData => 0x2B,
            GeCmd::MorphWeight0 => 0x2C,
            GeCmd::MorphWeight1 => 0x2D,
            GeCmd::MorphWeight2 => 0x2E,
            GeCmd::MorphWeight3 => 0x2F,
            GeCmd::MorphWeight4 => 0x30,
            GeCmd::MorphWeight5 => 0x31,
            GeCmd::MorphWeight6 => 0x32,
            GeCmd::MorphWeight7 => 0x33,
            GeCmd::PatchDivision => 0x36,
            GeCmd::PatchPrimitive => 0x37,
            GeCmd::PatchFacing => 0x38,
            GeCmd::WorldMatrixNumber => 0x3A,
            GeCmd::WorldMatrixData => 0x3B,
            GeCmd::ViewMatrixNumber => 0x3C,
            GeCmd::ViewMatrixData => 0x3D,
            GeCmd::ProjMatrixNumber => 0x3E,
            GeCmd::ProjMatrixData => 0x3F,
            GeCmd::TGenMatrixNumber => 0x40,
            GeCmd::TGenMatrixData => 0x41,
            GeCmd::ViewportXScale => 0x42,
            GeCmd::ViewportYScale => 0x43,
            GeCmd::ViewportZScale => 0x44,
            GeCmd::ViewportXCenter => 0x45,
            GeCmd::ViewportYCenter => 0x46,
            GeCmd::ViewportZCenter => 0x47,
            GeCmd::TexScaleU => 0x48,
            GeCmd::TexScaleV => 0x49,
            GeCmd::TexOffsetU => 0x4A,
            GeCmd::TexOffsetV => 0x4B,
            GeCmd::OffsetX => 0x4C,
            GeCmd::OffsetY => 0x4D,
            GeCmd::ShadeMode => 0x50,
            GeCmd::ReverseNormal => 0x51,
            GeCmd::MaterialUpdate => 0x53,
            GeCmd::MaterialEmissive => 0x54,
            GeCmd::MaterialAmbient => 0x55,
            GeCmd::MaterialDiffuse => 0x56,
            GeCmd::MaterialSpecular => 0x57,
            GeCmd::MaterialAlpha => 0x58,
            GeCmd::MaterialSpecularCoef => 0x5B,
            GeCmd::AmbientColor => 0x5C,
            GeCmd::AmbientAlpha => 0x5D,
            GeCmd::LightMode => 0x5E,
            GeCmd::LightType0 => 0x5F,
            GeCmd::LightType1 => 0x60,
            GeCmd::LightType2 => 0x61,
            GeCmd::LightType3 => 0x62,
            GeCmd::Light0X => 0x63,
            GeCmd::Light0Y => 0x64,
            GeCmd::Light0Z => 0x65,
            GeCmd::Light1X => 0x66,
            GeCmd::Light1Y => 0x67,
            GeCmd::Light1Z => 0x68,
            GeCmd::Light2X => 0x69,
            GeCmd::Light2Y => 0x6A,
            GeCmd::Light2Z => 0x6B,
            GeCmd::Light3X => 0x6C,
            GeCmd::Light3Y => 0x6D,
            GeCmd::Light3Z => 0x6E,
            GeCmd::Light0DirectionX => 0x6F,
            GeCmd::Light0DirectionY => 0x70,
            GeCmd::Light0DirectionZ => 0x71,
            GeCmd::Light1DirectionX => 0x72,
            GeCmd::Light1DirectionY => 0x73,
            GeCmd::Light1DirectionZ => 0x74,
            GeCmd::Light2DirectionX => 0x75,
            GeCmd::Light2DirectionY => 0x76,
            GeCmd::Light2DirectionZ => 0x77,
            GeCmd::Light3DirectionX => 0x78,
            GeCmd::Light3DirectionY => 0x79,
            GeCmd::Light3DirectionZ => 0x7A,
            GeCmd::Light0ConstantAtten => 0x7B,
            GeCmd::Light0LinearAtten => 0x7C,
            GeCmd::Light0QuadtraticAtten => 0x7D,
            GeCmd::Light1ConstantAtten => 0x7E,
            GeCmd::Light1LinearAtten => 0x7F,
            GeCmd::Light1QuadtraticAtten => 0x80,
            GeCmd::Light2ConstantAtten => 0x81,
            GeCmd::Light2LinearAtten => 0x82,
            GeCmd::Light2QuadtraticAtten => 0x83,
            GeCmd::Light3ConstantAtten => 0x84,
            GeCmd::Light3LinearAtten => 0x85,
            GeCmd::Light3QuadtraticAtten => 0x86,
            GeCmd::Light0ExponentAtten => 0x87,
            GeCmd::Light1ExponentAtten => 0x88,
            GeCmd::Light2ExponentAtten => 0x89,
            GeCmd::Light3ExponentAtten => 0x8A,
            GeCmd::Light0CutoffAtten => 0x8B,
            GeCmd::Light1CutoffAtten => 0x8C,
            GeCmd::Light2CutoffAtten => 0x8D,
            GeCmd::Light3CutoffAtten => 0x8E,
            GeCmd::Light0Ambient => 0x8F,
            GeCmd::Light0Diffuse => 0x90,
            GeCmd::Light0Specular => 0x91,
            GeCmd::Light1Ambient => 0x92,
            GeCmd::Light1Diffuse => 0x93,
            GeCmd::Light1Specular => 0x94,
            GeCmd::Light2Ambient => 0x95,
            GeCmd::Light2Diffuse => 0x96,
            GeCmd::Light2Specular => 0x97,
            GeCmd::Light3Ambient => 0x98,
            GeCmd::Light3Diffuse => 0x99,
            GeCmd::Light3Specular => 0x9A,
            GeCmd::Cull => 0x9B,
            GeCmd::FrameBufPtr => 0x9C,
            GeCmd::FrameBufWidth => 0x9D,
            GeCmd::ZBufPtr => 0x9E,
            GeCmd::ZBufWidth => 0x9F,
            GeCmd::TexAddr0 => 0xA0,
            GeCmd::TexAddr1 => 0xA1,
            GeCmd::TexAddr2 => 0xA2,
            GeCmd::TexAddr3 => 0xA3,
            GeCmd::TexAddr4 => 0xA4,
            GeCmd::TexAddr5 => 0xA5,
            GeCmd::TexAddr6 => 0xA6,
            GeCmd::TexAddr7 => 0xA7,
            GeCmd::TexBufWidth0 => 0xA8,
            GeCmd::TexBufWidth1 => 0xA9,
            GeCmd::TexBufWidth2 => 0xAA,
            GeCmd::TexBufWidth3 => 0xAB,
            GeCmd::TexBufWidth4 => 0xAC,
            GeCmd::TexBufWidth5 => 0xAD,
            GeCmd::TexBufWidth6 => 0xAE,
            GeCmd::TexBufWidth7 => 0xAF,
            GeCmd::ClutAddr => 0xB0,
            GeCmd::ClutAddrUpper => 0xB1,
            GeCmd::TransferSrc => 0xB2,
            GeCmd::TransferSrcWide => 0xB3,
            GeCmd::TransferDst => 0xB4,
            GeCmd::TransferDstWide => 0xB5,
            GeCmd::TexSize0 => 0xB8,
            GeCmd::TexSize1 => 0xB9,
            GeCmd::TexSize2 => 0xBA,
            GeCmd::TexSize3 => 0xBB,
            GeCmd::TexSize4 => 0xBC,
            GeCmd::TexSize5 => 0xBD,
            GeCmd::TexSize6 => 0xBE,
            GeCmd::TexSize7 => 0xBF,
            GeCmd::TexMapMode => 0xC0,
            GeCmd::TexShadeLs => 0xC1,
            GeCmd::TexMode => 0xC2,
            GeCmd::TexFormat => 0xC3,
            GeCmd::LoadClut => 0xC4,
            GeCmd::ClutFormat => 0xC5,
            GeCmd::TexFilter => 0xC6,
            GeCmd::TexWrap => 0xC7,
            GeCmd::TexLevel => 0xC8,
            GeCmd::TexFunc => 0xC9,
            GeCmd::TexEnvColor => 0xCA,
            GeCmd::TexFlush => 0xCB,
            GeCmd::TexSync => 0xCC,
            GeCmd::Fog1 => 0xCD,
            GeCmd::Fog2 => 0xCE,
            GeCmd::FogColor => 0xCF,
            GeCmd::TexLodSlope => 0xD0,
            GeCmd::FramebufPixFormat => 0xD2,
            GeCmd::ClearMode => 0xD3,
            GeCmd::Scissor1 => 0xD4,
            GeCmd::Scissor2 => 0xD5,
            GeCmd::MinZ => 0xD6,
            GeCmd::MaxZ => 0xD7,
            GeCmd::ColorTest => 0xD8,
            GeCmd::ColorRef => 0xD9,
            GeCmd::ColorTestmask => 0xDA,
            GeCmd::AlphaTest => 0xDB,
            GeCmd::StencilTest => 0xDC,
            GeCmd::StencilOp => 0xDD,
            GeCmd::ZTest => 0xDE,
            GeCmd::BlendMode => 0xDF,
            GeCmd::BlendFixedA => 0xE0,
            GeCmd::BlendFixedB => 0xE1,
            GeCmd::Dith0 => 0xE2,
            GeCmd::Dith1 => 0xE3,
            GeCmd::Dith2 => 0xE4,
            GeCmd::Dith3 => 0xE5,
            GeCmd::LogicOp => 0xE6,
            GeCmd::ZWriteDisable => 0xE7,
            GeCmd::MaskRgb => 0xE8,
            GeCmd::MaskAlpha => 0xE9,
            GeCmd::TransferStart => 0xEA,
            GeCmd::TransferSrcPos => 0xEB,
            GeCmd::TransferDstPos => 0xEC,
            GeCmd::TransferSize => 0xEE,
            GeCmd::VscX => 0xF0,
            GeCmd::VscY => 0xF1,
            GeCmd::VscZ => 0xF2,
            GeCmd::VtcS => 0xF3,
            GeCmd::VtcT => 0xF4,
            GeCmd::VtcQ => 0xF5,
            GeCmd::Vcv => 0xF6,
            GeCmd::Vap => 0xF7,
            GeCmd::Vfc => 0xF8,
            GeCmd::Vscv => 0xF9,
        }
    }
}

/// The registers of the Graphic Engine matrices.
#[derive(Debug, Clone, Copy, PartialEq, Eq, Structural, PartialOrd, Ord, Hash)]
pub enum MatrixRegister {
    /// Bone matrix 0.
    Bone0,
    /// Bone matrix 1.
    Bone1,
    /// Bone matrix 2.
    Bone2,
    /// Bone matrix 3.
    Bone3,
    /// Bone matrix 4.
    Bone4,
    /// Bone matrix 5.
    Bone5,
    /// Bone matrix 6.
    Bone6,
    /// Bone matrix 7.
    Bone7,
    /// World matrix
    World,
    /// View matrix
    View,
    /// Projection Matrix
    Projection,
    /// TexGen Matrix
    TexGen,
}

impl MatrixRegister {
    /// The number that stands for the value in the system interface.
    pub open spec fn spec_raw(self) -> u32 {
        match self {
            MatrixRegister::Bone0 => 0,
            MatrixRegister::Bone1 => 1,
            MatrixRegister::Bone2 => 2,
            MatrixRegister::Bone3 => 3,
            MatrixRegister::Bone4 => 4,
            MatrixRegister::Bone5 => 5,
            MatrixRegister::Bone6 => 6,
            MatrixRegister::Bone7 => 7,
            MatrixRegister::World => 8,
            MatrixRegister::View => 9,
            MatrixRegister::Projection => 0xA,
            MatrixRegister::TexGen => 0xB,
        }
    }

    /// The number that stands for the value in the system interface.
    pub fn as_raw(self) -> (r: u32)
        ensures
            r == self.spec_raw(),
    {
        match self {
            MatrixRegister::Bone0 => 0,
            MatrixRegister::Bone1 => 1,
            MatrixRegister::Bone2 => 2,
            MatrixRegister::Bone3 => 3,
            MatrixRegister::Bone4 => 4,
            MatrixRegister::Bone5 => 5,
            MatrixRegister::Bone6 => 6,
            MatrixRegister::Bone7 => 7,
            MatrixRegister::World => 8,
            MatrixRegister::View => 9,
            MatrixRegister::Projection => 0xA,
            MatrixRegister::TexGen => 0xB,
        }
    }
}

impl MatrixRegister {
    /// Get the Graphics Engine matrix size of the this kind of matrix register.
    ///
    /// This is the value that the GE matrix size should have to use `sceGeGetMtx` and
    /// `sceGeSetMtx` safely: the projection matrix has 16 elements, every other one 12.
    pub fn matrix_size(&self) -> (r: SceSize)
        ensures
            r == (if *self == MatrixRegister::Projection {
                0x10u32
            } else {
                0x0Cu32
            }),
    {
        match self {
            MatrixRegister::Projection => 0x10,
            _ => 0x0C,
        }
    }
}

/// Graphics Engine display list synchronization mode.
#[derive(Debug, Clone, Copy, PartialEq, Eq, Structural, PartialOrd, Ord, Hash)]
pub enum DisplayListSyncMode {
    /// Sync waits until the display list is completed.
    Wait,
    /// Sync checks the display list completion state and return immediately.
    Check,
}

impl DisplayListSyncMode {
    /// The number that stands for the value in the system interface.
    pub open spec fn spec_raw(self) -> u8 {
        match self {
            DisplayListSyncMode::Wait => 0,
            DisplayListSyncMode::Check => 1,
        }
    }

    /// The number that stands for the value in the system interface.
    pub fn as_raw(self) -> (r: u8)
        ensures
            r == self.spec_raw(),
    {
        match self {
            DisplayListSyncMode::Wait => 0,
            DisplayListSyncMode::Check => 1,
        }
    }
}

/// The state of a display list.
#[derive(Debug, Clone, Copy, PartialEq, Eq, Structural, PartialOrd, Ord, Hash)]
pub enum DisplayListState {
    /// The list has been completed.
    Completed,
    /// The list is queued but not executed yet.
    Queued,
    /// The list is currently being executed.
    Drawing,
    /// The list was stopped because it encountered stall address.
    Stalling,
    /// The list is paused because of a signal.
    Paused,
}

impl DisplayListState {
    /// The number that stands for the value in the system interface.
    pub open spec fn spec_raw(self) -> u8 {
        match self {
            DisplayListState::Completed => 0,
            DisplayListState::Queued => 1,
            DisplayListState::Drawing => 2,
            DisplayListState::Stalling => 3,
            DisplayListState::Paused => 4,
        }
    }

    /// The number that stands for the value in the system interface.
    pub fn as_raw(self) -> (r: u8)
        ensures
            r == self.spec_raw(),
    {
        match self {
            DisplayListState::Completed => 0,
            DisplayListState::Queued => 1,
            DisplayListState::Drawing => 2,
            DisplayListState::Stalling => 3,
            DisplayListState::Paused => 4,
        }
    }

    /// The value that the number `raw` stands for, if any.
    pub open spec fn spec_from_raw(raw: u32) -> Option<DisplayListState> {
        if raw == 0 {
            Some(DisplayListState::Completed)
        } else if raw == 1 {
            Some(DisplayListState::Queued)
        } else if raw == 2 {
            Some(DisplayListState::Drawing)
        } else if raw == 3 {
            Some(DisplayListState::Stalling)
        } else if raw == 4 {
            Some(DisplayListState::Paused)
        } else {
            None
        }
    }

    fn from_raw(raw: u32) -> (r: Option<DisplayListState>)
        ensures
            r == DisplayListState::spec_from_raw(raw),
    {
        match raw {
            0 => Some(DisplayListState::Completed),
            1 => Some(DisplayListState::Queued),
            2 => Some(DisplayListState::Drawing),
            3 => Some(DisplayListState::Stalling),
            4 => Some(DisplayListState::Paused),
            _ => None,
        }
    }
}

impl SceResultOk for DisplayListState {
    open spec fn ok_value_spec(ok_value: u32) -> Option<DisplayListState> {
        DisplayListState::spec_from_raw(ok_value)
    }

    open spec fn ok_value64_spec(ok_value: u64) -> Option<DisplayListState> {
        if ok_value <= SCE_OK_MAX as u64 {
            DisplayListState::spec_from_raw(ok_value as u32)
        } else {
            None
        }
    }

    fn handle_ok_value(ok_value: u32) -> (r: Option<DisplayListState>) {
        DisplayListState::from_raw(ok_value)
    }

    fn handle_ok_value64(ok_value: u64) -> (r: Option<DisplayListState>) {
        if ok_value <= SCE_OK_MAX as u64 {
            DisplayListState::from_raw(ok_value as u32)
        } else {
            None
        }
    }
}

impl SceIntoOkValue for DisplayListState {
    open spec fn into_ok_spec(self) -> u32 {
        self.spec_raw() as u32
    }

    fn into_ok_value(self) -> (r: u32) {
        self.as_raw() as u32
    }
}

impl SceOkRoundTrip for DisplayListState {
    proof fn lemma_ok_round_trip(v: DisplayListState) {
    }
}

/// The break mode to interrupt display list operation.
#[derive(Debug, Clone, Copy, PartialEq, Eq, Structural, PartialOrd, Ord, Hash)]
pub enum BreakMode {
    Current,
    AllQueue,
}

impl BreakMode {
    /// The number that stands for the value in the system interface.
    pub open spec fn spec_raw(self) -> u8 {
        match self {
            BreakMode::Current => 0,
            BreakMode::AllQueue => 1,
        }
    }

    /// The number that stands for the value in the system interface.
    pub fn as_raw(self) -> (r: u8)
        ensures
            r == self.spec_raw(),
    {
        match self {
            BreakMode::Current => 0,
            BreakMode::AllQueue => 1,
        }
    }
}

/// Break unused parameter.
#[derive(Debug, Clone, Copy, PartialEq, Eq, PartialOrd, Ord, Hash)]
pub struct BreakParam {
    pub buffer: [u32; 4],
}

/// The Graphics Engine callback options.
#[derive(Debug, Clone, Copy, PartialEq, Eq, PartialOrd, Ord, Hash)]
pub struct GeCallbackOptions {
    /// The callback for the signal interrupt.
    ///
    /// Held as the 32-bit address of the function on the PSP (0 for none).
    pub signal_func: u32,
    /// The callback argument for signal interrupt.
    ///
    /// Held as the 32-bit address it has on the PSP (0 for none).
    pub signal_arg: u32,
    /// The callback for the finish interrupt.
    ///
    /// Held as the 32-bit address of the function on the PSP (0 for none).
    pub finish_func: u32,
    /// The callback argument for finish interrupt.
    ///
    /// Held as the 32-bit address it has on the PSP (0 for none).
    pub finish_arg: u32,
}

/// Size mode for the EDRAM.
#[derive(Debug, Clone, Copy, PartialEq, Eq, Structural, PartialOrd, Ord, Hash)]
pub enum EdramSizeMode {
    /// The 01g model maximum size: `0x200000`.
    FatSize,
    /// The later models maximum size: `0x400000`.
    SlimSize,
}

impl EdramSizeMode {
    /// The number that stands for the value in the system interface.
    pub open spec fn spec_raw(self) -> u32 {
        match self {
            EdramSizeMode::FatSize => 0x0020_0000,
            EdramSizeMode::SlimSize => 0x0040_0000,
        }
    }

    /// The number that stands for the value in the system interface.
    pub fn as_raw(self) -> (r: u32)
        ensures
            r == self.spec_raw(),
    {
        match self {
            EdramSizeMode::FatSize => 0x0020_0000,
            EdramSizeMode::SlimSize => 0x0040_0000,
        }
    }
}

impl Default for EdramSizeMode {
    fn default() -> (r: EdramSizeMode)
        ensures
            r == EdramSizeMode::FatSize,
    {
        EdramSizeMode::FatSize
    }
}

/// A Graphics Engine breakpoint.
#[derive(Debug, Clone, Copy, PartialEq, Eq, PartialOrd, Ord, Hash)]
pub struct GeBreakpoint {
    /// The address of the command where to break.
    pub addr: SceSize,
    /// The number of times to break there.
    pub count: u32,
}

// ---------------------------------------------------------------------------------------------
// The numbers of the enumerations.
// ---------------------------------------------------------------------------------------------
/// The numbers that stand for the values of [`TranslationMemWidth`] in the system interface: `LinearMode` is 0, `Bytes512` is 0x200, `Bytes1024` is 0x400, `Bytes2048` is 0x800, `Bytes4096` is 0x1000.
/// A number is read as the value it stands for, and as nothing else.
/// A success word is decoded by the same numbers, whether it comes as 32 or 64 bits.
/// A value is encoded as its number.
pub proof fn lemma_translation_mem_width_codes()
    ensures
        TranslationMemWidth::LinearMode.spec_raw() == 0,
        TranslationMemWidth::Bytes512.spec_raw() == 0x200,
        TranslationMemWidth::Bytes1024.spec_raw() == 0x400,
        TranslationMemWidth::Bytes2048.spec_raw() == 0x800,
        TranslationMemWidth::Bytes4096.spec_raw() == 0x1000,
        forall|raw: u32| #[trigger] TranslationMemWidth::spec_from_raw(raw) matches Some(d) ==> d.spec_raw() == raw,
        forall|d: TranslationMemWidth| #[trigger] TranslationMemWidth::spec_from_raw(d.spec_raw() as u32) == Some(d),
        forall|raw: u32| #[trigger] <TranslationMemWidth as SceResultOk>::ok_value_spec(raw) matches Some(d) ==> d.spec_raw() == raw,
        forall|d: TranslationMemWidth| #[trigger] <TranslationMemWidth as SceResultOk>::ok_value_spec(d.spec_raw() as u32) == Some(d),
        forall|raw: u64| #[trigger] <TranslationMemWidth as SceResultOk>::ok_value64_spec(raw) matches Some(d) ==> d.spec_raw() == raw,
        forall|d: TranslationMemWidth| #[trigger] <TranslationMemWidth as SceResultOk>::ok_value64_spec(d.spec_raw() as u64) == Some(d),
        forall|d: TranslationMemWidth| #[trigger] d.into_ok_spec() == d.spec_raw(),
{
    assert forall|d: TranslationMemWidth| #![trigger d.spec_raw()] TranslationMemWidth::spec_from_raw(d.spec_raw() as u32) == Some(d) && <TranslationMemWidth as SceResultOk>::ok_value_spec(d.spec_raw() as u32) == Some(d) && <TranslationMemWidth as SceResultOk>::ok_value64_spec(d.spec_raw() as u64) == Some(d) && d.into_ok_spec() == d.spec_raw() by {
        match d {
            TranslationMemWidth::LinearMode => {},
            TranslationMemWidth::Bytes512 => {},
            TranslationMemWidth::Bytes1024 => {},
            TranslationMemWidth::Bytes2048 => {},
            TranslationMemWidth::Bytes4096 => {},
        }
    }
}

/// The numbers that stand for the values of [`GeCmd`] in the system interface: `Nop` is 0, `Vaddr` is 1, `Iaddr` is 2, `Prim` is 4, `Bezier` is 5, `Spline` is 6, `BoundingBox` is 7, `Jump` is 8, `BJump` is 9, `Call` is 0xA, `Ret` is 0xB, `End` is 0xC, `Signal` is 0xE, `Finish` is 0xF, `Base` is 0x10, `VertexType` is 0x12, `OffsetAddr` is 0x13, `Origin` is 0x14, `Region1` is 0x15, `Region2` is 0x16, `LightingEnable` is 0x17, `LightEnable0` is 0x18, `LightEnable1` is 0x19, `LightEnable2` is 0x1A, `LightEnable3` is 0x1B, `DepthClampEnable` is 0x1C, `CullFaceEnable` is 0x1D, `TextureMapEnable` is 0x1E, `FogEnable` is 0x1F, `DitherEnable` is 0x20, `AlphaBlendEnable` is 0x21, `AlphaTestEnable` is 0x22, `ZTestEnable` is 0x23, `StencilTestEnable` is 0x24, `AntiAliasEnable` is 0x25, `PatchCullEnable` is 0x26, `ColorTestEnable` is 0x27, `LogicOpEnable` is 0x28, `BoneMatrixNumber` is 0x2A, `BoneMatrixData` is 0x2B, `MorphWeight0` is 0x2C, `MorphWeight1` is 0x2D, `MorphWeight2` is 0x2E, `MorphWeight3` is 0x2F, `MorphWeight4` is 0x30, `MorphWeight5` is 0x31, `MorphWeight6` is 0x32, `MorphWeight7` is 0x33, `PatchDivision` is 0x36, `PatchPrimitive` is 0x37, `PatchFacing` is 0x38, `WorldMatrixNumber` is 0x3A, `WorldMatrixData` is 0x3B, `ViewMatrixNumber` is 0x3C, `ViewMatrixData` is 0x3D, `ProjMatrixNumber` is 0x3E, `ProjMatrixData` is 0x3F, `TGenMatrixNumber` is 0x40, `TGenMatrixData` is 0x41, `ViewportXScale` is 0x42, `ViewportYScale` is 0x43, `ViewportZScale` is 0x44, `ViewportXCenter` is 0x45, `ViewportYCenter` is 0x46, `ViewportZCenter` is 0x47, `TexScaleU` is 0x48, `TexScaleV` is 0x49, `TexOffsetU` is 0x4A, `TexOffsetV` is 0x4B, `OffsetX` is 0x4C, `OffsetY` is 0x4D, `ShadeMode` is 0x50, `ReverseNormal` is 0x51, `MaterialUpdate` is 0x53, `MaterialEmissive` is 0x54, `MaterialAmbient` is 0x55, `MaterialDiffuse` is 0x56, `MaterialSpecular` is 0x57, `MaterialAlpha` is 0x58, `MaterialSpecularCoef` is 0x5B, `AmbientColor` is 0x5C, `AmbientAlpha` is 0x5D, `LightMode` is 0x5E, `LightType0` is 0x5F, `LightType1` is 0x60, `LightType2` is 0x61, `LightType3` is 0x62, `Light0X` is 0x63, `Light0Y` is 0x64, `Light0Z` is 0x65, `Light1X` is 0x66, `Light1Y` is 0x67, `Light1Z` is 0x68, `Light2X` is 0x69, `Light2Y` is 0x6A, `Light2Z` is 0x6B, `Light3X` is 0x6C, `Light3Y` is 0x6D, `Light3Z` is 0x6E, `Light0DirectionX` is 0x6F, `Light0DirectionY` is 0x70, `Light0DirectionZ` is 0x71, `Light1DirectionX` is 0x72, `Light1DirectionY` is 0x73, `Light1DirectionZ` is 0x74, `Light2DirectionX` is 0x75, `Light2DirectionY` is 0x76, `Light2DirectionZ` is 0x77, `Light3DirectionX` is 0x78, `Light3DirectionY` is 0x79, `Light3DirectionZ` is 0x7A, `Light0ConstantAtten` is 0x7B, `Light0LinearAtten` is 0x7C, `Light0QuadtraticAtten` is 0x7D, `Light1ConstantAtten` is 0x7E, `Light1LinearAtten` is 0x7F, `Light1QuadtraticAtten` is 0x80, `Light2ConstantAtten` is 0x81, `Light2LinearAtten` is 0x82, `Light2QuadtraticAtten` is 0x83, `Light3ConstantAtten` is 0x84, `Light3LinearAtten` is 0x85, `Light3QuadtraticAtten` is 0x86, `Light0ExponentAtten` is 0x87, `Light1ExponentAtten` is 0x88, `Light2ExponentAtten` is 0x89, `Light3ExponentAtten` is 0x8A, `Light0CutoffAtten` is 0x8B, `Light1CutoffAtten` is 0x8C, `Light2CutoffAtten` is 0x8D, `Light3CutoffAtten` is 0x8E, `Light0Ambient` is 0x8F, `Light0Diffuse` is 0x90, `Light0Specular` is 0x91, `Light1Ambient` is 0x92, `Light1Diffuse` is 0x93, `Light1Specular` is 0x94, `Light2Ambient` is 0x95, `Light2Diffuse` is 0x96, `Light2Specular` is 0x97, `Light3Ambient` is 0x98, `Light3Diffuse` is 0x99, `Light3Specular` is 0x9A, `Cull` is 0x9B, `FrameBufPtr` is 0x9C, `FrameBufWidth` is 0x9D, `ZBufPtr` is 0x9E, `ZBufWidth` is 0x9F, `TexAddr0` is 0xA0, `TexAddr1` is 0xA1, `TexAddr2` is 0xA2, `TexAddr3` is 0xA3, `TexAddr4` is 0xA4, `TexAddr5` is 0xA5, `TexAddr6` is 0xA6, `TexAddr7` is 0xA7, `TexBufWidth0` is 0xA8, `TexBufWidth1` is 0xA9, `TexBufWidth2` is 0xAA, `TexBufWidth3` is 0xAB, `TexBufWidth4` is 0xAC, `TexBufWidth5` is 0xAD, `TexBufWidth6` is 0xAE, `TexBufWidth7` is 0xAF, `ClutAddr` is 0xB0, `ClutAddrUpper` is 0xB1, `TransferSrc` is 0xB2, `TransferSrcWide` is 0xB3, `TransferDst` is 0xB4, `TransferDstWide` is 0xB5, `TexSize0` is 0xB8, `TexSize1` is 0xB9, `TexSize2` is 0xBA, `TexSize3` is 0xBB, `TexSize4` is 0xBC, `TexSize5` is 0xBD, `TexSize6` is 0xBE, `TexSize7` is 0xBF, `TexMapMode` is 0xC0, `TexShadeLs` is 0xC1, `TexMode` is 0xC2, `TexFormat` is 0xC3, `LoadClut` is 0xC4, `ClutFormat` is 0xC5, `TexFilter` is 0xC6, `TexWrap` is 0xC7, `TexLevel` is 0xC8, `TexFunc` is 0xC9, `TexEnvColor` is 0xCA, `TexFlush` is 0xCB, `TexSync` is 0xCC, `Fog1` is 0xCD, `Fog2` is 0xCE, `FogColor` is 0xCF, `TexLodSlope` is 0xD0, `FramebufPixFormat` is 0xD2, `ClearMode` is 0xD3, `Scissor1` is 0xD4, `Scissor2` is 0xD5, `MinZ` is 0xD6, `MaxZ` is 0xD7, `ColorTest` is 0xD8, `ColorRef` is 0xD9, `ColorTestmask` is 0xDA, `AlphaTest` is 0xDB, `StencilTest` is 0xDC, `StencilOp` is 0xDD, `ZTest` is 0xDE, `BlendMode` is 0xDF, `BlendFixedA` is 0xE0, `BlendFixedB` is 0xE1, `Dith0` is 0xE2, `Dith1` is 0xE3, `Dith2` is 0xE4, `Dith3` is 0xE5, `LogicOp` is 0xE6, `ZWriteDisable` is 0xE7, `MaskRgb` is 0xE8, `MaskAlpha` is 0xE9, `TransferStart` is 0xEA, `TransferSrcPos` is 0xEB, `TransferDstPos` is 0xEC, `TransferSize` is 0xEE, `VscX` is 0xF0, `VscY` is 0xF1, `VscZ` is 0xF2, `VtcS` is 0xF3, `VtcT` is 0xF4, `VtcQ` is 0xF5, `Vcv` is 0xF6, `Vap` is 0xF7, `Vfc` is 0xF8, `Vscv` is 0xF9.
pub proof fn lemma_ge_cmd_codes()
    ensures
        GeCmd::Nop.spec_raw() == 0,
        GeCmd::Vaddr.spec_raw() == 1,
        GeCmd::Iaddr.spec_raw() == 2,
        GeCmd::Prim.spec_raw() == 4,
        GeCmd::Bezier.spec_raw() == 5,
        GeCmd::Spline.spec_raw() == 6,
        GeCmd::BoundingBox.spec_raw() == 7,
        GeCmd::Jump.spec_raw() == 8,
        GeCmd::BJump.spec_raw() == 9,
        GeCmd::Call.spec_raw() == 0xA,
        GeCmd::Ret.spec_raw() == 0xB,
        GeCmd::End.spec_raw() == 0xC,
        GeCmd::Signal.spec_raw() == 0xE,
        GeCmd::Finish.spec_raw() == 0xF,
        GeCmd::Base.spec_raw() == 0x10,
        GeCmd::VertexType.spec_raw() == 0x12,
        GeCmd::OffsetAddr.spec_raw() == 0x13,
        GeCmd::Origin.spec_raw() == 0x14,
        GeCmd::Region1.spec_raw() == 0x15,
        GeCmd::Region2.spec_raw() == 0x16,
        GeCmd::LightingEnable.spec_raw() == 0x17,
        GeCmd::LightEnable0.spec_raw() == 0x18,
        GeCmd::LightEnable1.spec_raw() == 0x19,
        GeCmd::LightEnable2.spec_raw() == 0x1A,
        GeCmd::LightEnable3.spec_raw() == 0x1B,
        GeCmd::DepthClampEnable.spec_raw() == 0x1C,
        GeCmd::CullFaceEnable.spec_raw() == 0x1D,
        GeCmd::TextureMapEnable.spec_raw() == 0x1E,
        GeCmd::FogEnable.spec_raw() == 0x1F,
        GeCmd::DitherEnable.spec_raw() == 0x20,
        GeCmd::AlphaBlendEnable.spec_raw() == 0x21,
        GeCmd::AlphaTestEnable.spec_raw() == 0x22,
        GeCmd::ZTestEnable.spec_raw() == 0x23,
        GeCmd::StencilTestEnable.spec_raw() == 0x24,
        GeCmd::AntiAliasEnable.spec_raw() == 0x25,
        GeCmd::PatchCullEnable.spec_raw() == 0x26,
        GeCmd::ColorTestEnable.spec_raw() == 0x27,
        GeCmd::LogicOpEnable.spec_raw() == 0x28,
        GeCmd::BoneMatrixNumber.spec_raw() == 0x2A,
        GeCmd::BoneMatrixData.spec_raw() == 0x2B,
        GeCmd::MorphWeight0.spec_raw() == 0x2C,
        GeCmd::MorphWeight1.spec_raw() == 0x2D,
        GeCmd::MorphWeight2.spec_raw() == 0x2E,
        GeCmd::MorphWeight3.spec_raw() == 0x2F,
        GeCmd::MorphWeight4.spec_raw() == 0x30,
        GeCmd::MorphWeight5.spec_raw() == 0x31,
        GeCmd::MorphWeight6.spec_raw() == 0x32,
        GeCmd::MorphWeight7.spec_raw() == 0x33,
        GeCmd::PatchDivision.spec_raw() == 0x36,
        GeCmd::PatchPrimitive.spec_raw() == 0x37,
        GeCmd::PatchFacing.spec_raw() == 0x38,
        GeCmd::WorldMatrixNumber.spec_raw() == 0x3A,
        GeCmd::WorldMatrixData.spec_raw() == 0x3B,
        GeCmd::ViewMatrixNumber.spec_raw() == 0x3C,
        GeCmd::ViewMatrixData.spec_raw() == 0x3D,
        GeCmd::ProjMatrixNumber.spec_raw() == 0x3E,
        GeCmd::ProjMatrixData.spec_raw() == 0x3F,
        GeCmd::TGenMatrixNumber.spec_raw() == 0x40,
        GeCmd::TGenMatrixData.spec_raw() == 0x41,
        GeCmd::ViewportXScale.spec_raw() == 0x42,
        GeCmd::ViewportYScale.spec_raw() == 0x43,
        GeCmd::ViewportZScale.spec_raw() == 0x44,
        GeCmd::ViewportXCenter.spec_raw() == 0x45,
        GeCmd::ViewportYCenter.spec_raw() == 0x46,
        GeCmd::ViewportZCenter.spec_raw() == 0x47,
        GeCmd::TexScaleU.spec_raw() == 0x48,
        GeCmd::TexScaleV.spec_raw() == 0x49,
        GeCmd::TexOffsetU.spec_raw() == 0x4A,
        GeCmd::TexOffsetV.spec_raw() == 0x4B,
        GeCmd::OffsetX.spec_raw() == 0x4C,
        GeCmd::OffsetY.spec_raw() == 0x4D,
        GeCmd::ShadeMode.spec_raw() == 0x50,
        GeCmd::ReverseNormal.spec_raw() == 0x51,
        GeCmd::MaterialUpdate.spec_raw() == 0x53,
        GeCmd::MaterialEmissive.spec_raw() == 0x54,
        GeCmd::MaterialAmbient.spec_raw() == 0x55,
        GeCmd::MaterialDiffuse.spec_raw() == 0x56,
        GeCmd::MaterialSpecular.spec_raw() == 0x57,
        GeCmd::MaterialAlpha.spec_raw() == 0x58,
        GeCmd::MaterialSpecularCoef.spec_raw() == 0x5B,
        GeCmd::AmbientColor.spec_raw() == 0x5C,
        GeCmd::AmbientAlpha.spec_raw() == 0x5D,
        GeCmd::LightMode.spec_raw() == 0x5E,
        GeCmd::LightType0.spec_raw() == 0x5F,
        GeCmd::LightType1.spec_raw() == 0x60,
        GeCmd::LightType2.spec_raw() == 0x61,
        GeCmd::LightType3.spec_raw() == 0x62,
        GeCmd::Light0X.spec_raw() == 0x63,
        GeCmd::Light0Y.spec_raw() == 0x64,
        GeCmd::Light0Z.spec_raw() == 0x65,
        GeCmd::Light1X.spec_raw() == 0x66,
        GeCmd::Light1Y.spec_raw() == 0x67,
        GeCmd::Light1Z.spec_raw() == 0x68,
        GeCmd::Light2X.spec_raw() == 0x69,
        GeCmd::Light2Y.spec_raw() == 0x6A,
        GeCmd::Light2Z.spec_raw() == 0x6B,
        GeCmd::Light3X.spec_raw() == 0x6C,
        GeCmd::Light3Y.spec_raw() == 0x6D,
        GeCmd::Light3Z.spec_raw() == 0x6E,
        GeCmd::Light0DirectionX.spec_raw() == 0x6F,
        GeCmd::Light0DirectionY.spec_raw() == 0x70,
        GeCmd::Light0DirectionZ.spec_raw() == 0x71,
        GeCmd::Light1DirectionX.spec_raw() == 0x72,
        GeCmd::Light1DirectionY.spec_raw() == 0x73,
        GeCmd::Light1DirectionZ.spec_raw() == 0x74,
        GeCmd::Light2DirectionX.spec_raw() == 0x75,
        GeCmd::Light2DirectionY.spec_raw() == 0x76,
        GeCmd::Light2DirectionZ.spec_raw() == 0x77,
        GeCmd::Light3DirectionX.spec_raw() == 0x78,
        GeCmd::Light3DirectionY.spec_raw() == 0x79,
        GeCmd::Light3DirectionZ.spec_raw() == 0x7A,
        GeCmd::Light0ConstantAtten.spec_raw() == 0x7B,
        GeCmd::Light0LinearAtten.spec_raw() == 0x7C,
        GeCmd::Light0QuadtraticAtten.spec_raw() == 0x7D,
        GeCmd::Light1ConstantAtten.spec_raw() == 0x7E,
        GeCmd::Light1LinearAtten.spec_raw() == 0x7F,
        GeCmd::Light1QuadtraticAtten.spec_raw() == 0x80,
        GeCmd::Light2ConstantAtten.spec_raw() == 0x81,
        GeCmd::Light2LinearAtten.spec_raw() == 0x82,
        GeCmd::Light2QuadtraticAtten.spec_raw() == 0x83,
        GeCmd::Light3ConstantAtten.spec_raw() == 0x84,
        GeCmd::Light3LinearAtten.spec_raw() == 0x85,
        GeCmd::Light3QuadtraticAtten.spec_raw() == 0x86,
        GeCmd::Light0ExponentAtten.spec_raw() == 0x87,
        GeCmd::Light1ExponentAtten.spec_raw() == 0x88,
        GeCmd::Light2ExponentAtten.spec_raw() == 0x89,
        GeCmd::Light3ExponentAtten.spec_raw() == 0x8A,
        GeCmd::Light0CutoffAtten.spec_raw() == 0x8B,
        GeCmd::Light1CutoffAtten.spec_raw() == 0x8C,
        GeCmd::Light2CutoffAtten.spec_raw() == 0x8D,
        GeCmd::Light3CutoffAtten.spec_raw() == 0x8E,
        GeCmd::Light0Ambient.spec_raw() == 0x8F,
        GeCmd::Light0Diffuse.spec_raw() == 0x90,
        GeCmd::Light0Specular.spec_raw() == 0x91,
        GeCmd::Light1Ambient.spec_raw() == 0x92,
        GeCmd::Light1Diffuse.spec_raw() == 0x93,
        GeCmd::Light1Specular.spec_raw() == 0x94,
        GeCmd::Light2Ambient.spec_raw() == 0x95,
        GeCmd::Light2Diffuse.spec_raw() == 0x96,
        GeCmd::Light2Specular.spec_raw() == 0x97,
        GeCmd::Light3Ambient.spec_raw() == 0x98,
        GeCmd::Light3Diffuse.spec_raw() == 0x99,
        GeCmd::Light3Specular.spec_raw() == 0x9A,
        GeCmd::Cull.spec_raw() == 0x9B,
        GeCmd::FrameBufPtr.spec_raw() == 0x9C,
        GeCmd::FrameBufWidth.spec_raw() == 0x9D,
        GeCmd::ZBufPtr.spec_raw() == 0x9E,
        GeCmd::ZBufWidth.spec_raw() == 0x9F,
        GeCmd::TexAddr0.spec_raw() == 0xA0,
        GeCmd::TexAddr1.spec_raw() == 0xA1,
        GeCmd::TexAddr2.spec_raw() == 0xA2,
        GeCmd::TexAddr3.spec_raw() == 0xA3,
        GeCmd::TexAddr4.spec_raw() == 0xA4,
        GeCmd::TexAddr5.spec_raw() == 0xA5,
        GeCmd::TexAddr6.spec_raw() == 0xA6,
        GeCmd::TexAddr7.spec_raw() == 0xA7,
        GeCmd::TexBufWidth0.spec_raw() == 0xA8,
        GeCmd::TexBufWidth1.spec_raw() == 0xA9,
        GeCmd::TexBufWidth2.spec_raw() == 0xAA,
        GeCmd::TexBufWidth3.spec_raw() == 0xAB,
        GeCmd::TexBufWidth4.spec_raw() == 0xAC,
        GeCmd::TexBufWidth5.spec_raw() == 0xAD,
        GeCmd::TexBufWidth6.spec_raw() == 0xAE,
        GeCmd::TexBufWidth7.spec_raw() == 0xAF,
        GeCmd::ClutAddr.spec_raw() == 0xB0,
        GeCmd::ClutAddrUpper.spec_raw() == 0xB1,
        GeCmd::TransferSrc.spec_raw() == 0xB2,
        GeCmd::TransferSrcWide.spec_raw() == 0xB3,
        GeCmd::TransferDst.spec_raw() == 0xB4,
        GeCmd::TransferDstWide.spec_raw() == 0xB5,
        GeCmd::TexSize0.spec_raw() == 0xB8,
        GeCmd::TexSize1.spec_raw() == 0xB9,
        GeCmd::TexSize2.spec_raw() == 0xBA,
        GeCmd::TexSize3.spec_raw() == 0xBB,
        GeCmd::TexSize4.spec_raw() == 0xBC,
        GeCmd::TexSize5.spec_raw() == 0xBD,
        GeCmd::TexSize6.spec_raw() == 0xBE,
        GeCmd::TexSize7.spec_raw() == 0xBF,
        GeCmd::TexMapMode.spec_raw() == 0xC0,
        GeCmd::TexShadeLs.spec_raw() == 0xC1,
        GeCmd::TexMode.spec_raw() == 0xC2,
        GeCmd::TexFormat.spec_raw() == 0xC3,
        GeCmd::LoadClut.spec_raw() == 0xC4,
        GeCmd::ClutFormat.spec_raw() == 0xC5,
        GeCmd::TexFilter.spec_raw() == 0xC6,
        GeCmd::TexWrap.spec_raw() == 0xC7,
        GeCmd::TexLevel.spec_raw() == 0xC8,
        GeCmd::TexFunc.spec_raw() == 0xC9,
        GeCmd::TexEnvColor.spec_raw() == 0xCA,
        GeCmd::TexFlush.spec_raw() == 0xCB,
        GeCmd::TexSync.spec_raw() == 0xCC,
        GeCmd::Fog1.spec_raw() == 0xCD,
        GeCmd::Fog2.spec_raw() == 0xCE,
        GeCmd::FogColor.spec_raw() == 0xCF,
        GeCmd::TexLodSlope.spec_raw() == 0xD0,
        GeCmd::FramebufPixFormat.spec_raw() == 0xD2,
        GeCmd::ClearMode.spec_raw() == 0xD3,
        GeCmd::Scissor1.spec_raw() == 0xD4,
        GeCmd::Scissor2.spec_raw() == 0xD5,
        GeCmd::MinZ.spec_raw() == 0xD6,
        GeCmd::MaxZ.spec_raw() == 0xD7,
        GeCmd::ColorTest.spec_raw() == 0xD8,
        GeCmd::ColorRef.spec_raw() == 0xD9,
        GeCmd::ColorTestmask.spec_raw() == 0xDA,
        GeCmd::AlphaTest.spec_raw() == 0xDB,
        GeCmd::StencilTest.spec_raw() == 0xDC,
        GeCmd::StencilOp.spec_raw() == 0xDD,
        GeCmd::ZTest.spec_raw() == 0xDE,
        GeCmd::BlendMode.spec_raw() == 0xDF,
        GeCmd::BlendFixedA.spec_raw() == 0xE0,
        GeCmd::BlendFixedB.spec_raw() == 0xE1,
        GeCmd::Dith0.spec_raw() == 0xE2,
        GeCmd::Dith1.spec_raw() == 0xE3,
        GeCmd::Dith2.spec_raw() == 0xE4,
        GeCmd::Dith3.spec_raw() == 0xE5,
        GeCmd::LogicOp.spec_raw() == 0xE6,
        GeCmd::ZWriteDisable.spec_raw() == 0xE7,
        GeCmd::MaskRgb.spec_raw() == 0xE8,
        GeCmd::MaskAlpha.spec_raw() == 0xE9,
        GeCmd::TransferStart.spec_raw() == 0xEA,
        GeCmd::TransferSrcPos.spec_raw() == 0xEB,
        GeCmd::TransferDstPos.spec_raw() == 0xEC,
        GeCmd::TransferSize.spec_raw() == 0xEE,
        GeCmd::VscX.spec_raw() == 0xF0,
        GeCmd::VscY.spec_raw() == 0xF1,
        GeCmd::VscZ.spec_raw() == 0xF2,
        GeCmd::VtcS.spec_raw() == 0xF3,
        GeCmd::VtcT.spec_raw() == 0xF4,
        GeCmd::VtcQ.spec_raw() == 0xF5,
        GeCmd::Vcv.spec_raw() == 0xF6,
        GeCmd::Vap.spec_raw() == 0xF7,
        GeCmd::Vfc.spec_raw() == 0xF8,
        GeCmd::Vscv.spec_raw() == 0xF9,
{
}

/// The numbers that stand for the values of [`MatrixRegister`] in the system interface: `Bone0` is 0, `Bone1` is 1, `Bone2` is 2, `Bone3` is 3, `Bone4` is 4, `Bone5` is 5, `Bone6` is 6, `Bone7` is 7, `World` is 8, `View` is 9, `Projection` is 0xA, `TexGen` is 0xB.
pub proof fn lemma_matrix_register_codes()
    ensures
        MatrixRegister::Bone0.spec_raw() == 0,
        MatrixRegister::Bone1.spec_raw() == 1,
        MatrixRegister::Bone2.spec_raw() == 2,
        MatrixRegister::Bone3.spec_raw() == 3,
        MatrixRegister::Bone4.spec_raw() == 4,
        MatrixRegister::Bone5.spec_raw() == 5,
        MatrixRegister::Bone6.spec_raw() == 6,
        MatrixRegister::Bone7.spec_raw() == 7,
        MatrixRegister::World.spec_raw() == 8,
        MatrixRegister::View.spec_raw() == 9,
        MatrixRegister::Projection.spec_raw() == 0xA,
        MatrixRegister::TexGen.spec_raw() == 0xB,
{
}

/// The numbers that stand for the values of [`DisplayListSyncMode`] in the system interface: `Wait` is 0, `Check` is 1.
pub proof fn lemma_display_list_sync_mode_codes()
    ensures
        DisplayListSyncMode::Wait.spec_raw() == 0,
        DisplayListSyncMode::Check.spec_raw() == 1,
{
}

/// The numbers that stand for the values of [`DisplayListState`] in the system interface: `Completed` is 0, `Queued` is 1, `Drawing` is 2, `Stalling` is 3, `Paused` is 4.
/// A number is read as the value it stands for, and as nothing else.
/// A success word is decoded by the same numbers, whether it comes as 32 or 64 bits.
/// A value is encoded as its number.
pub proof fn lemma_display_list_state_codes()
    ensures
        DisplayListState::Completed.spec_raw() == 0,
        DisplayListState::Queued.spec_raw() == 1,
        DisplayListState::Drawing.spec_raw() == 2,
        DisplayListState::Stalling.spec_raw() == 3,
        DisplayListState::Paused.spec_raw() == 4,
        forall|raw: u32| #[trigger] DisplayListState::spec_from_raw(raw) matches Some(d) ==> d.spec_raw() == raw,
        forall|d: DisplayListState| #[trigger] DisplayListState::spec_from_raw(d.spec_raw() as u32) == Some(d),
        forall|raw: u32| #[trigger] <DisplayListState as SceResultOk>::ok_value_spec(raw) matches Some(d) ==> d.spec_raw() == raw,
        forall|d: DisplayListState| #[trigger] <DisplayListState as SceResultOk>::ok_value_spec(d.spec_raw() as u32) == Some(d),
        forall|raw: u64| #[trigger] <DisplayListState as SceResultOk>::ok_value64_spec(raw) matches Some(d) ==> d.spec_raw() == raw,
        forall|d: DisplayListState| #[trigger] <DisplayListState as SceResultOk>::ok_value64_spec(d.spec_raw() as u64) == Some(d),
        forall|d: DisplayListState| #[trigger] d.into_ok_spec() == d.spec_raw(),
{
    assert forall|d: DisplayListState| #![trigger d.spec_raw()] DisplayListState::spec_from_raw(d.spec_raw() as u32) == Some(d) && <DisplayListState as SceResultOk>::ok_value_spec(d.spec_raw() as u32) == Some(d) && <DisplayListState as SceResultOk>::ok_value64_spec(d.spec_raw() as u64) == Some(d) && d.into_ok_spec() == d.spec_raw() by {
        match d {
            DisplayListState::Completed => {},
            DisplayListState::Queued => {},
            DisplayListState::Drawing => {},
            DisplayListState::Stalling => {},
            DisplayListState::Paused => {},
        }
    }
}

/// The numbers that stand for the values of [`BreakMode`] in the system interface: `Current` is 0, `AllQueue` is 1.
pub proof fn lemma_break_mode_codes()
    ensures
        BreakMode::Current.spec_raw() == 0,
        BreakMode::AllQueue.spec_raw() == 1,
{
}

/// The numbers that stand for the values of [`EdramSizeMode`] in the system interface: `FatSize` is 0x0020_0000, `SlimSize` is 0x0040_0000.
pub proof fn lemma_edram_size_mode_codes()
    ensures
        EdramSizeMode::FatSize.spec_raw() == 0x0020_0000,
        EdramSizeMode::SlimSize.spec_raw() == 0x0040_0000,
{
}

} // verus!
