//! Plain enumerations shared across the rendering interface: formats,
//! layouts, pipeline state values and resource classifications.

use vstd::prelude::*;

verus! {

#[derive(Clone, Copy, Debug, PartialEq, Eq, Structural)]
pub enum BackendType {
    Unknown,
    Vulkan,
    D3D12,
    Metal,
}

impl Default for BackendType {
    fn default() -> (r: Self)
        ensures
            r == BackendType::Unknown,
    {
        BackendType::Unknown
    }
}

#[derive(Clone, Copy, Debug, PartialEq, Eq, Structural)]
pub enum AdapterType {
    Other,
    IntegratedGPU,
    DiscreteGPU,
    VirtualGPU,
    CPU,
}

#[derive(Clone, Copy, Debug, PartialEq, Eq, Structural)]
pub enum QueueType {
    Graphics,
    Compute,
    Transfer,
    Present,
}

#[derive(Clone, Copy, Debug, PartialEq, Eq, Structural)]
pub enum ImageType {
    Texture1D,
    Texture2D,
    Texture3D,
}

impl Default for ImageType {
    fn default() -> (r: Self)
        ensures
            r == ImageType::Texture2D,
    {
        ImageType::Texture2D
    }
}

#[derive(Clone, Copy, Debug, PartialEq, Eq, Structural)]
pub enum TextureViewType {
    Texture1D,
    Texture2D,
    Texture3D,
    TextureCube,
    Texture1DArray,
    Texture2DArray,
    TextureCubeArray,
}

impl Default for TextureViewType {
    fn default() -> (r: Self)
        ensures
            r == TextureViewType::Texture2D,
    {
        TextureViewType::Texture2D
    }
}

#[derive(Clone, Copy, Debug, PartialEq, Eq, Structural)]
pub enum TextureViewAspectMask {
    Unknown,
    Color,
    Depth,
    Stencil,
}

impl Default for TextureViewAspectMask {
    fn default() -> (r: Self)
        ensures
            r == TextureViewAspectMask::Unknown,
    {
        TextureViewAspectMask::Unknown
    }
}

#[derive(Clone, Copy, Debug, PartialEq, Eq, Structural)]
pub enum TextureTiling {
    Optimal,
    Linear,
}

impl Default for TextureTiling {
    fn default() -> (r: Self)
        ensures
            r == TextureTiling::Optimal,
    {
        TextureTiling::Optimal
    }
}

#[derive(Clone, Copy, Debug, PartialEq, Eq, Structural)]
pub enum ImageTiling {
    Optimal,
    Linear,
}

impl Default for ImageTiling {
    fn default() -> (r: Self)
        ensures
            r == ImageTiling::Optimal,
    {
        ImageTiling::Optimal
    }
}

#[derive(Clone, Copy, Debug, PartialEq, Eq, Structural)]
pub enum TextureComponentSwizzle {
    Identity,
    Zero,
    One,
    R,
    G,
    B,
    A,
}

impl Default for TextureComponentSwizzle {
    fn default() -> (r: Self)
        ensures
            r == TextureComponentSwizzle::Identity,
    {
        TextureComponentSwizzle::Identity
    }
}

#[derive(Clone, Copy, Debug, PartialEq, Eq, Structural, Hash)]
#[allow(non_camel_case_types)]
pub enum Format {
    Unknown,
    B8G8R8A8_UNORM,
    B8G8R8A8_SRGB,
    R8G8B8A8_UNORM,
    R8G8B8A8_SRGB,
    B8G8R8_UNORM,
    B8G8R8_SRGB,
    R8G8B8_UNORM,
    R8G8B8_SRGB,
    R32_SFLOAT,
    R32G32_SFLOAT,
    R32G32B32_SFLOAT,
    R32G32B32A32_SFLOAT,
    D24_UNORM_S8_UINT,
    D32_SFLOAT,
    D32_SFLOAT_S8_UINT,
}

impl Default for Format {
    fn default() -> (r: Self)
        ensures
            r == Format::Unknown,
    {
        Format::Unknown
    }
}

#[derive(Clone, Copy, Debug, PartialEq, Eq, Structural, Hash)]
pub enum ImageLayout {
    Undefined,
    General,
    ColorAttachmentOptimal,
    DepthStencilAttachmentOptimal,
    DepthStencilReadOnlyOptimal,
    ShaderReadOnlyOptimal,
    TransferSrcOptimal,
    TransferDstOptimal,
    Preinitialized,
    PresentSrcKhr,
}

impl Default for ImageLayout {
    fn default() -> (r: Self)
        ensures
            r == ImageLayout::Undefined,
    {
        ImageLayout::Undefined
    }
}

#[derive(Clone, Copy, Debug, PartialEq, Eq, Structural)]
pub enum BlendFactor {
    Zero,
    One,
    SrcColor,
    OneMinusSrcColor,
    DstColor,
    OneMinusDstColor,
    SrcAlpha,
    OneMinusSrcAlpha,
    DstAlpha,
    OneMinusDstAlpha,
    ConstantColor,
    OneMinusConstantColor,
    ConstantAlpha,
    OneMinusConstantAlpha,
    SrcAlphaSaturate,
    Src1Color,
    OneMinusSrc1Color,
    Src1Alpha,
    OneMinusSrc1Alpha,
}

#[derive(Clone, Copy, Debug, PartialEq, Eq, Structural)]
pub enum BlendOp {
    Add,
    Subtract,
    ReverseSubtract,
    Min,
    Max,
}

#[derive(Clone, Copy, Debug, PartialEq, Eq, Structural)]
pub enum CompareOp {
    Never,
    Less,
    Equal,
    LessOrEqual,
    Greater,
    NotEqual,
    GreaterOrEqual,
    Always,
}

#[derive(Clone, Copy, Debug, PartialEq, Eq, Structural)]
pub enum StencilOp {
    Keep,
    Zero,
    Replace,
    IncrementAndClamp,
    DecrementAndClamp,
    Invert,
    IncrementAndWrap,
    DecrementAndWrap,
}

#[derive(Clone, Copy, Debug, PartialEq, Eq, Structural)]
pub enum CullMode {
    Disabled,
    Front,
    Back,
    FrontAndBack,
}

#[derive(Clone, Copy, Debug, PartialEq, Eq, Structural)]
pub enum FrontFace {
    CounterClockwise,
    Clockwise,
}

#[derive(Clone, Copy, Debug, PartialEq, Eq, Structural)]
pub enum PolygonMode {
    Line,
    Fill,
    Point,
}

#[derive(Clone, Copy, Debug, PartialEq, Eq, Structural, Hash)]
pub enum SampleCount {
    Sample1,
    Sample2,
    Sample4,
    Sample8,
    Sample16,
    Sample32,
    Sample64,
}

impl Default for SampleCount {
    fn default() -> (r: Self)
        ensures
            r == SampleCount::Sample1,
    {
        SampleCount::Sample1
    }
}

#[derive(Clone, Copy, Debug, PartialEq, Eq, Structural, Hash)]
pub enum RenderTargetLoadAction {
    Load,
    Clear,
    DontCare,
}

impl Default for RenderTargetLoadAction {
    fn default() -> (r: Self)
        ensures
            r == RenderTargetLoadAction::Load,
    {
        RenderTargetLoadAction::Load
    }
}

#[derive(Clone, Copy, Debug, PartialEq, Eq, Structural, Hash)]
pub enum RenderTargetStoreAction {
    Store,
    DontCare,
}

impl Default for RenderTargetStoreAction {
    fn default() -> (r: Self)
        ensures
            r == RenderTargetStoreAction::Store,
    {
        RenderTargetStoreAction::Store
    }
}

#[derive(Clone, Copy, Debug, PartialEq, Eq, Structural, Hash)]
pub enum CommandBufferLevel {
    Primary,
    Secondary,
}

impl Default for CommandBufferLevel {
    fn default() -> (r: Self)
        ensures
            r == CommandBufferLevel::Primary,
    {
        CommandBufferLevel::Primary
    }
}

#[derive(Clone, Copy, Debug, PartialEq, Eq, Structural)]
pub enum VertexInputRate {
    Vertex,
    Instance,
}

#[derive(Clone, Copy, Debug, PartialEq, Eq, Structural)]
pub enum MemoryLocation {
    Unknown,
    GpuOnly,
    CpuToGpu,
    GpuToCpu,
}

#[derive(Clone, Copy, Debug, PartialEq, Eq, Structural)]
pub enum IndexType {
    U16,
    U32,
}

#[derive(Clone, Copy, Debug, PartialEq, Eq, Structural)]
pub enum DescriptorType {
    Sampler,
    CombinedImageSampler,
    SampledImage,
    StorageImage,
    UniformTexelBuffer,
    StorageTexelBuffer,
    UniformBuffer,
    StorageBuffer,
    UniformBufferDynamic,
    StorageBufferDynamic,
    InputAttachment,
}

#[derive(Clone, Copy, Debug, PartialEq, Eq, Structural)]
pub enum PipelineBindPoint {
    Graphics,
    Compute,
}

#[derive(Clone, Copy, Debug, PartialEq, Eq, Structural)]
pub enum ImageAspectFlag {
    Color,
    Depth,
    Stencil,
}

#[derive(Clone, Copy, Debug, PartialEq, Eq, Structural)]
pub enum AccessFlag {
    IndirectCommandRead,
    IndexRead,
    VertexAttributeRead,
    UniformRead,
    InputAttachmentRead,
    ShaderRead,
    ShaderWrite,
    ColorAttachmentRead,
    ColorAttachmentWrite,
    DepthStencilAttachmentRead,
    DepthStencilAttachmentWrite,
    TransferRead,
    TransferWrite,
    HostRead,
    HostWrite,
    MemoryRead,
    MemoryWrite,
}

#[derive(Clone, Copy, Debug, PartialEq, Eq, Structural)]
pub enum SamplerAddressMode {
    Repeat,
    MirroredRepeat,
    ClampToEdge,
    ClampToBorder,
    MirrorClampToEdge,
}

#[derive(Clone, Copy, Debug, PartialEq, Eq, Structural)]
pub enum SamplerMipmapMode {
    Nearest,
    Linear,
}

#[derive(Clone, Copy, Debug, PartialEq, Eq, Structural)]
pub enum FilterType {
    Nearest,
    Linear,
}

} // verus!
