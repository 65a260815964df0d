//! Descriptor types of the rendering interface: plain-value descriptions of
//! the resources and operations a backend is asked to create or perform,
//! plus the phantom tag types that distinguish handle kinds.

use crate::enums::{
    AccessFlag, AdapterType, BlendFactor, BlendOp, CompareOp, CullMode, DescriptorType, Format, FrontFace,
    ImageLayout, ImageTiling, ImageType, MemoryLocation, PolygonMode, RenderTargetLoadAction,
    SampleCount, StencilOp, TextureComponentSwizzle, TextureViewType, VertexInputRate,
};
use crate::flag::{
    AccessFlags, BufferUsageFlags, ImageAspectFlags, ImageUsageFlags, PipelineStageFlags,
    ShaderStageFlags,
};
use crate::pool::Handle;
use vstd::prelude::*;

verus! {

pub const MAX_DESCRIPTORS_PER_SET: usize = 16;

pub const MAX_RENDER_TARGETS: usize = 8;

pub const MAX_SHADER_STAGES: usize = 5;

#[derive(Debug, Clone, Copy, PartialEq, Eq, Structural, Hash)]
pub struct Surface;

#[derive(Debug, Clone, Copy, PartialEq, Eq, Structural, Hash)]
pub struct Queue;

#[derive(Debug, Clone, Copy, PartialEq, Eq, Structural, Hash)]
pub struct Swapchain;

#[derive(Debug, Clone, Copy, PartialEq, Eq, Structural, Hash)]
pub struct Image;

#[derive(Debug, Clone, Copy, PartialEq, Eq, Structural, Hash)]
pub struct ImageView;

#[derive(Debug, Clone, Copy, PartialEq, Eq, Structural, Hash)]
pub struct Sampler;

#[derive(Debug, Clone, Copy, PartialEq, Eq, Structural, Hash)]
pub struct Shader;

#[derive(Debug, Clone, Copy, PartialEq, Eq, Structural, Hash)]
pub struct PipelineLayout;

#[derive(Debug, Clone, Copy, PartialEq, Eq, Structural, Hash)]
pub struct RasterPipeline;

#[derive(Debug, Clone, Copy, PartialEq, Eq, Structural, Hash)]
pub struct RenderPass;

#[derive(Debug, Clone, Copy, PartialEq, Eq, Structural, Hash)]
pub struct Framebuffer;

#[derive(Debug, Clone, Copy, PartialEq, Eq, Structural, Hash)]
pub struct CommandPool;

#[derive(Debug, Clone, Copy, PartialEq, Eq, Structural, Hash)]
pub struct CommandBuffer;

#[derive(Debug, Clone, Copy, PartialEq, Eq, Structural, Hash)]
pub struct Semaphore;

#[derive(Debug, Clone, Copy, PartialEq, Eq, Structural, Hash)]
pub struct Fence;

#[derive(Debug, Clone, Copy, PartialEq, Eq, Structural, Hash)]
pub struct Buffer;

#[derive(Debug, Clone, Copy, PartialEq, Eq, Structural, Hash)]
pub struct DescriptorSetLayout;

#[derive(Debug, Clone, Copy, PartialEq, Eq, Structural, Hash)]
pub struct DescriptorPool;

#[derive(Debug, Clone, Copy, PartialEq, Eq, Structural, Hash)]
pub struct DescriptorSet;

/// Description of a physical adapter, as reported by the backend.
#[derive(Clone)]
pub struct AdapterInfo {
    pub api_version: u32,
    pub driver_version: u32,
    pub vendor_id: u32,
    pub device_id: u32,
    pub device_type: AdapterType,
    pub device_name: String,
}

/// Parameters for creating or recreating a swapchain on a surface.
#[derive(Clone, Copy)]
pub struct SwapchainCreateDesc {
    pub width: u32,
    pub height: u32,
    pub surface: Handle<Surface>,
    pub vsync: bool,
    pub format: Format,
}

/// Parameters for creating an image.
pub struct ImageCreateDesc {
    pub name: String,
    pub format: Format,
    pub extent: [u32; 3],
    pub type_: ImageType,
    pub usage: ImageUsageFlags,
    pub tiling: ImageTiling,
    pub mip_levels: u32,
    pub array_layers: u32,
    pub samples: SampleCount,
    pub initial_layout: ImageLayout,
}

impl ImageCreateDesc {
    /// A sampled 2D texture of the given size, to be filled by transfer.
    pub fn new_2d(name: &str, format: Format, width: u32, height: u32) -> (r: Self)
        ensures
            r.name@ == name@,
            r.format == format,
            r.extent == [width, height, 1u32],
            r.type_ == ImageType::Texture2D,
            r.usage.bits == 0x6u32,
            r.tiling == ImageTiling::Optimal,
            r.mip_levels == 1u32,
            r.array_layers == 1u32,
            r.samples == SampleCount::Sample1,
            r.initial_layout == ImageLayout::Undefined,
    {
        proof {
            assert(0x4u32 | 0x2u32 == 0x6u32) by (bit_vector);
        }
        ImageCreateDesc {
            name: name.to_owned(),
            format,
            extent: [width, height, 1],
            type_: ImageType::Texture2D,
            usage: ImageUsageFlags::sampled().union(ImageUsageFlags::transfer_dst()),
            tiling: ImageTiling::Optimal,
            mip_levels: 1,
            array_layers: 1,
            samples: SampleCount::Sample1,
            initial_layout: ImageLayout::Undefined,
        }
    }

    /// A 2D depth-stencil attachment of the given size.
    pub fn new_depth(name: &str, format: Format, width: u32, height: u32) -> (r: Self)
        ensures
            r.name@ == name@,
            r.format == format,
            r.extent == [width, height, 1u32],
            r.type_ == ImageType::Texture2D,
            r.usage.bits == 0x20u32,
            r.tiling == ImageTiling::Optimal,
            r.mip_levels == 1u32,
            r.array_layers == 1u32,
            r.samples == SampleCount::Sample1,
            r.initial_layout == ImageLayout::Undefined,
    {
        ImageCreateDesc {
            name: name.to_owned(),
            format,
            extent: [width, height, 1],
            type_: ImageType::Texture2D,
            usage: ImageUsageFlags::depth_stencil_attachment(),
            tiling: ImageTiling::Optimal,
            mip_levels: 1,
            array_layers: 1,
            samples: SampleCount::Sample1,
            initial_layout: ImageLayout::Undefined,
        }
    }
}

/// Parameters for creating a view onto an image.
#[derive(Clone, Copy)]
pub struct ImageViewCreateDesc {
    pub format: Option<Format>,
    pub view_type: TextureViewType,
    pub base_mip_level: u8,
    pub level_count: u8,
    pub base_array_layer: u8,
    pub layer_count: u8,
    pub aspect_mask: ImageAspectFlags,
    pub component_r: TextureComponentSwizzle,
    pub component_g: TextureComponentSwizzle,
    pub component_b: TextureComponentSwizzle,
    pub component_a: TextureComponentSwizzle,
}

impl ImageViewCreateDesc {
    /// A one-level 2D view with identity swizzles over the given aspect.
    pub fn new_2d(override_format: Option<Format>, aspect_mask: ImageAspectFlags) -> (r:
        ImageViewCreateDesc)
        ensures
            r.format == override_format,
            r.view_type == TextureViewType::Texture2D,
            r.base_mip_level == 0u8,
            r.level_count == 1u8,
            r.base_array_layer == 0u8,
            r.layer_count == 1u8,
            r.aspect_mask == aspect_mask,
            r.component_r == TextureComponentSwizzle::Identity,
            r.component_g == TextureComponentSwizzle::Identity,
            r.component_b == TextureComponentSwizzle::Identity,
            r.component_a == TextureComponentSwizzle::Identity,
    {
        ImageViewCreateDesc {
            format: override_format,
            view_type: TextureViewType::Texture2D,
            base_mip_level: 0,
            level_count: 1,
            base_array_layer: 0,
            layer_count: 1,
            aspect_mask,
            component_r: TextureComponentSwizzle::Identity,
            component_g: TextureComponentSwizzle::Identity,
            component_b: TextureComponentSwizzle::Identity,
            component_a: TextureComponentSwizzle::Identity,
        }
    }
}

impl Default for ImageViewCreateDesc {
    /// A one-level 2D color view without a format override.
    fn default() -> (r: Self)
        ensures
            r.format is None,
            r.view_type == TextureViewType::Texture2D,
            r.base_mip_level == 0u8,
            r.level_count == 1u8,
            r.base_array_layer == 0u8,
            r.layer_count == 1u8,
            r.aspect_mask.bits == 0x1u32,
            r.component_r == TextureComponentSwizzle::Identity,
            r.component_g == TextureComponentSwizzle::Identity,
            r.component_b == TextureComponentSwizzle::Identity,
            r.component_a == TextureComponentSwizzle::Identity,
    {
        ImageViewCreateDesc {
            format: None,
            view_type: TextureViewType::Texture2D,
            base_mip_level: 0,
            level_count: 1,
            base_array_layer: 0,
            layer_count: 1,
            aspect_mask: ImageAspectFlags::color(),
            component_r: TextureComponentSwizzle::Identity,
            component_g: TextureComponentSwizzle::Identity,
            component_b: TextureComponentSwizzle::Identity,
            component_a: TextureComponentSwizzle::Identity,
        }
    }
}

/// Parameters for creating a shader module from compiled code.
pub struct ShaderModuleCreation {
    pub name: String,
    pub code: Vec<u32>,
    pub stage: ShaderStageFlags,
    pub entry: String,
}

/// Stencil operation state for one face.
#[derive(Clone, Copy)]
pub struct StencilOpState {
    pub fail_op: StencilOp,
    pub pass_op: StencilOp,
    pub depth_fail_op: StencilOp,
    pub compare_op: CompareOp,
    pub compare_mask: u8,
    pub write_mask: u8,
    pub reference: u8,
}

impl Default for StencilOpState {
    fn default() -> (r: Self)
        ensures
            r.fail_op == StencilOp::Keep,
            r.pass_op == StencilOp::Keep,
            r.depth_fail_op == StencilOp::Keep,
            r.compare_op == CompareOp::Always,
            r.compare_mask == 0u8,
            r.write_mask == 0u8,
            r.reference == 0u8,
    {
        StencilOpState {
            fail_op: StencilOp::Keep,
            pass_op: StencilOp::Keep,
            depth_fail_op: StencilOp::Keep,
            compare_op: CompareOp::Always,
            compare_mask: 0,
            write_mask: 0,
            reference: 0,
        }
    }
}

/// Depth and stencil test state of a raster pipeline.
pub struct DepthState {
    pub depth_test_enable: bool,
    pub depth_write_enable: bool,
    pub depth_compare_mode: CompareOp,
    pub stencil_test_enable: bool,
    pub stencil_read_mask: u8,
    pub stencil_write_mask: u8,
    pub stencil_front: StencilOpState,
    pub stencil_back: StencilOpState,
}

impl Default for DepthState {
    fn default() -> (r: Self)
        ensures
            r.depth_test_enable == true,
            r.depth_write_enable == true,
            r.depth_compare_mode == CompareOp::LessOrEqual,
            r.stencil_test_enable == false,
            r.stencil_read_mask == 0u8,
            r.stencil_write_mask == 0u8,
    {
        DepthState {
            depth_test_enable: true,
            depth_write_enable: true,
            depth_compare_mode: CompareOp::LessOrEqual,
            stencil_test_enable: false,
            stencil_read_mask: 0,
            stencil_write_mask: 0,
            stencil_front: StencilOpState::default(),
            stencil_back: StencilOpState::default(),
        }
    }
}

/// Blend state of one color attachment.
#[derive(Clone, Copy)]
pub struct BlendState {
    pub source_color: BlendFactor,
    pub destination_color: BlendFactor,
    pub color_op: BlendOp,
    pub source_alpha: BlendFactor,
    pub destination_alpha: BlendFactor,
    pub alpha_op: BlendOp,
    pub blend_enable: bool,
}

impl Default for BlendState {
    fn default() -> (r: Self)
        ensures
            r.source_color == BlendFactor::One,
            r.destination_color == BlendFactor::One,
            r.color_op == BlendOp::Add,
            r.source_alpha == BlendFactor::One,
            r.destination_alpha == BlendFactor::One,
            r.alpha_op == BlendOp::Add,
            r.blend_enable == false,
    {
        BlendState {
            source_color: BlendFactor::One,
            destination_color: BlendFactor::One,
            color_op: BlendOp::Add,
            source_alpha: BlendFactor::One,
            destination_alpha: BlendFactor::One,
            alpha_op: BlendOp::Add,
            blend_enable: false,
        }
    }
}

/// Rasterizer state of a raster pipeline.
pub struct RasterState {
    pub cull_mode: CullMode,
    pub front_face: FrontFace,
    pub fill_mode: PolygonMode,
}

impl Default for RasterState {
    fn default() -> (r: Self)
        ensures
            r.cull_mode == CullMode::Back,
            r.front_face == FrontFace::Clockwise,
            r.fill_mode == PolygonMode::Fill,
    {
        RasterState {
            cull_mode: CullMode::Back,
            front_face: FrontFace::Clockwise,
            fill_mode: PolygonMode::Fill,
        }
    }
}

/// Parameters for creating a pipeline layout.
pub struct PipelineLayoutCreateDesc {
    pub descriptor_set_layouts: Vec<Handle<DescriptorSetLayout>>,
}

/// Parameters for creating a raster pipeline.
pub struct RasterPipelineCreateDesc {
    pub vertex_input_bindings: Option<Vec<VertexInputBinding>>,
    pub raster_state: RasterState,
    pub depth_state: DepthState,
    pub blend_states: Vec<BlendState>,
    pub shader_stages: Vec<Handle<Shader>>,
    pub render_pass_output: RenderPassOutput,
    pub pipeline_layout: Handle<PipelineLayout>,
}

/// The shape of a render pass: attachment formats, final layouts, load
/// actions and sample counts.  Two outputs that are equal as values describe
/// the same pass, whatever call site built them.
pub struct RenderPassOutput {
    pub num_colors: u8,
    pub color_formats: Vec<Format>,
    pub color_final_layouts: Vec<ImageLayout>,
    pub color_loads: Vec<RenderTargetLoadAction>,
    pub color_samples: Vec<SampleCount>,
    pub depth_stencil_format: Format,
    pub depth_stencil_final_layout: ImageLayout,
    pub depth_load: RenderTargetLoadAction,
    pub stencil_load: RenderTargetLoadAction,
    pub depth_stencil_samples: SampleCount,
}

impl RenderPassOutput {
    /// One entry per color attachment, at most `MAX_RENDER_TARGETS` of them.
    pub open spec fn wf(&self) -> bool {
        &&& self.color_formats@.len() == self.num_colors as int
        &&& self.color_final_layouts@.len() == self.num_colors as int
        &&& self.color_loads@.len() == self.num_colors as int
        &&& self.color_samples@.len() == self.num_colors as int
        &&& self.num_colors as int <= MAX_RENDER_TARGETS as int
    }

    pub fn builder() -> (r: RenderPassOutputBuilder)
        ensures
            r.color_formats@.len() == 0,
            r.color_final_layouts@.len() == 0,
            r.color_loads@.len() == 0,
            r.color_samples@.len() == 0,
            r.depth_stencil_format == Format::Unknown,
            r.depth_stencil_final_layout == ImageLayout::Undefined,
            r.depth_load == RenderTargetLoadAction::DontCare,
            r.stencil_load == RenderTargetLoadAction::DontCare,
            r.depth_stencil_samples == SampleCount::Sample1,
    {
        RenderPassOutputBuilder {
            color_formats: Vec::new(),
            color_final_layouts: Vec::new(),
            color_loads: Vec::new(),
            color_samples: Vec::new(),
            depth_stencil_format: Format::Unknown,
            depth_stencil_final_layout: ImageLayout::Undefined,
            depth_load: RenderTargetLoadAction::DontCare,
            stencil_load: RenderTargetLoadAction::DontCare,
            depth_stencil_samples: SampleCount::Sample1,
        }
    }
}

impl Clone for RenderPassOutput {
    fn clone(&self) -> (r: Self)
        ensures
            r.num_colors == self.num_colors,
            r.color_formats@ == self.color_formats@,
            r.color_final_layouts@ == self.color_final_layouts@,
            r.color_loads@ == self.color_loads@,
            r.color_samples@ == self.color_samples@,
            r.depth_stencil_format == self.depth_stencil_format,
            r.depth_stencil_final_layout == self.depth_stencil_final_layout,
            r.depth_load == self.depth_load,
            r.stencil_load == self.stencil_load,
            r.depth_stencil_samples == self.depth_stencil_samples,
    {
        RenderPassOutput {
            num_colors: self.num_colors,
            color_formats: clone_formats(&self.color_formats),
            color_final_layouts: clone_layouts(&self.color_final_layouts),
            color_loads: clone_loads(&self.color_loads),
            color_samples: clone_samples(&self.color_samples),
            depth_stencil_format: self.depth_stencil_format,
            depth_stencil_final_layout: self.depth_stencil_final_layout,
            depth_load: self.depth_load,
            stencil_load: self.stencil_load,
            depth_stencil_samples: self.depth_stencil_samples,
        }
    }
}

/// Equality of render pass shapes is structural: every attachment list and
/// every scalar field must agree.
pub open spec fn output_eq(a: &RenderPassOutput, b: &RenderPassOutput) -> bool {
    &&& a.num_colors == b.num_colors
    &&& a.color_formats@ == b.color_formats@
    &&& a.color_final_layouts@ == b.color_final_layouts@
    &&& a.color_loads@ == b.color_loads@
    &&& a.color_samples@ == b.color_samples@
    &&& a.depth_stencil_format == b.depth_stencil_format
    &&& a.depth_stencil_final_layout == b.depth_stencil_final_layout
    &&& a.depth_load == b.depth_load
    &&& a.stencil_load == b.stencil_load
    &&& a.depth_stencil_samples == b.depth_stencil_samples
}

impl crate::cache::StructuralKey for RenderPassOutput {
    open spec fn key_eq(&self, other: &Self) -> bool {
        output_eq(self, other)
    }

    proof fn key_eq_reflexive(&self) {
    }

    proof fn key_eq_symmetric(&self, other: &Self) {
    }

    proof fn key_eq_transitive(&self, b: &Self, c: &Self) {
    }

    fn eq_key(&self, other: &Self) -> (r: bool) {
        self.num_colors == other.num_colors && formats_eq(&self.color_formats, &other.color_formats)
            && layouts_eq(&self.color_final_layouts, &other.color_final_layouts) && loads_eq(
            &self.color_loads,
            &other.color_loads,
        ) && samples_eq(&self.color_samples, &other.color_samples) && self.depth_stencil_format
            == other.depth_stencil_format && self.depth_stencil_final_layout
            == other.depth_stencil_final_layout && self.depth_load == other.depth_load
            && self.stencil_load == other.stencil_load && self.depth_stencil_samples
            == other.depth_stencil_samples
    }

    fn clone_key(&self) -> (r: Self) {
        self.clone()
    }
}

fn clone_formats(v: &Vec<Format>) -> (r: Vec<Format>)
    ensures
        r@ == v@,
{
    let mut r: Vec<Format> = Vec::new();
    let mut i: usize = 0;
    while i < v.len()
        invariant
            i <= v@.len(),
            r@ == v@.subrange(0, i as int),
        decreases v@.len() - i,
    {
        r.push(v[i]);
        i = i + 1;
    }
    proof {
        assert(r@ =~= v@);
    }
    r
}

fn clone_layouts(v: &Vec<ImageLayout>) -> (r: Vec<ImageLayout>)
    ensures
        r@ == v@,
{
    let mut r: Vec<ImageLayout> = Vec::new();
    let mut i: usize = 0;
    while i < v.len()
        invariant
            i <= v@.len(),
            r@ == v@.subrange(0, i as int),
        decreases v@.len() - i,
    {
        r.push(v[i]);
        i = i + 1;
    }
    proof {
        assert(r@ =~= v@);
    }
    r
}

fn clone_loads(v: &Vec<RenderTargetLoadAction>) -> (r: Vec<RenderTargetLoadAction>)
    ensures
        r@ == v@,
{
    let mut r: Vec<RenderTargetLoadAction> = Vec::new();
    let mut i: usize = 0;
    while i < v.len()
        invariant
            i <= v@.len(),
            r@ == v@.subrange(0, i as int),
        decreases v@.len() - i,
    {
        r.push(v[i]);
        i = i + 1;
    }
    proof {
        assert(r@ =~= v@);
    }
    r
}

fn clone_samples(v: &Vec<SampleCount>) -> (r: Vec<SampleCount>)
    ensures
        r@ == v@,
{
    let mut r: Vec<SampleCount> = Vec::new();
    let mut i: usize = 0;
    while i < v.len()
        invariant
            i <= v@.len(),
            r@ == v@.subrange(0, i as int),
        decreases v@.len() - i,
    {
        r.push(v[i]);
        i = i + 1;
    }
    proof {
        assert(r@ =~= v@);
    }
    r
}

fn formats_eq(a: &Vec<Format>, b: &Vec<Format>) -> (r: bool)
    ensures
        r == (a@ == b@),
{
    if a.len() != b.len() {
        proof {
            assert(a@.len() != b@.len());
        }
        return false;
    }
    let mut i: usize = 0;
    while i < a.len()
        invariant
            i <= a@.len(),
            a@.len() == b@.len(),
            forall|j: int| 0 <= j < i ==> a@[j] == b@[j],
        decreases a@.len() - i,
    {
        if a[i] != b[i] {
            return false;
        }
        i = i + 1;
    }
    proof {
        assert(a@ =~= b@);
    }
    true
}

fn layouts_eq(a: &Vec<ImageLayout>, b: &Vec<ImageLayout>) -> (r: bool)
    ensures
        r == (a@ == b@),
{
    if a.len() != b.len() {
        proof {
            assert(a@.len() != b@.len());
        }
        return false;
    }
    let mut i: usize = 0;
    while i < a.len()
        invariant
            i <= a@.len(),
            a@.len() == b@.len(),
            forall|j: int| 0 <= j < i ==> a@[j] == b@[j],
        decreases a@.len() - i,
    {
        if a[i] != b[i] {
            return false;
        }
        i = i + 1;
    }
    proof {
        assert(a@ =~= b@);
    }
    true
}

fn loads_eq(a: &Vec<RenderTargetLoadAction>, b: &Vec<RenderTargetLoadAction>) -> (r: bool)
    ensures
        r == (a@ == b@),
{
    if a.len() != b.len() {
        proof {
            assert(a@.len() != b@.len());
        }
        return false;
    }
    let mut i: usize = 0;
    while i < a.len()
        invariant
            i <= a@.len(),
            a@.len() == b@.len(),
            forall|j: int| 0 <= j < i ==> a@[j] == b@[j],
        decreases a@.len() - i,
    {
        if a[i] != b[i] {
            return false;
        }
        i = i + 1;
    }
    proof {
        assert(a@ =~= b@);
    }
    true
}

fn samples_eq(a: &Vec<SampleCount>, b: &Vec<SampleCount>) -> (r: bool)
    ensures
        r == (a@ == b@),
{
    if a.len() != b.len() {
        proof {
            assert(a@.len() != b@.len());
        }
        return false;
    }
    let mut i: usize = 0;
    while i < a.len()
        invariant
            i <= a@.len(),
            a@.len() == b@.len(),
            forall|j: int| 0 <= j < i ==> a@[j] == b@[j],
        decreases a@.len() - i,
    {
        if a[i] != b[i] {
            return false;
        }
        i = i + 1;
    }
    proof {
        assert(a@ =~= b@);
    }
    true
}

/// Accumulates color attachments and depth-stencil state, then builds a
/// [`RenderPassOutput`].
pub struct RenderPassOutputBuilder {
    pub color_formats: Vec<Format>,
    pub color_final_layouts: Vec<ImageLayout>,
    pub color_loads: Vec<RenderTargetLoadAction>,
    pub color_samples: Vec<SampleCount>,
    pub depth_stencil_format: Format,
    pub depth_stencil_final_layout: ImageLayout,
    pub depth_load: RenderTargetLoadAction,
    pub stencil_load: RenderTargetLoadAction,
    pub depth_stencil_samples: SampleCount,
}

impl RenderPassOutputBuilder {
    /// Clears all accumulated attachments and depth-stencil state.
    pub fn reset(self) -> (r: Self)
        ensures
            r.color_formats@.len() == 0,
            r.color_final_layouts@.len() == 0,
            r.color_loads@.len() == 0,
            r.color_samples@.len() == 0,
            r.depth_stencil_format == Format::Unknown,
            r.depth_stencil_final_layout == ImageLayout::Undefined,
            r.depth_load == RenderTargetLoadAction::DontCare,
            r.stencil_load == RenderTargetLoadAction::DontCare,
            r.depth_stencil_samples == SampleCount::Sample1,
    {
        let mut this = self;
        this.color_formats.clear();
        this.color_final_layouts.clear();
        this.color_loads.clear();
        this.color_samples.clear();
        this.depth_stencil_format = Format::Unknown;
        this.depth_stencil_final_layout = ImageLayout::Undefined;
        this.depth_load = RenderTargetLoadAction::DontCare;
        this.stencil_load = RenderTargetLoadAction::DontCare;
        this.depth_stencil_samples = SampleCount::Sample1;
        this
    }

    /// Appends one color attachment.
    pub fn add_color(
        self,
        color_format: Format,
        color_final_layout: ImageLayout,
        color_load: RenderTargetLoadAction,
        color_samples: SampleCount,
    ) -> (r: Self)
        ensures
            r.color_formats@ == self.color_formats@.push(color_format),
            r.color_final_layouts@ == self.color_final_layouts@.push(color_final_layout),
            r.color_loads@ == self.color_loads@.push(color_load),
            r.color_samples@ == self.color_samples@.push(color_samples),
            r.depth_stencil_format == self.depth_stencil_format,
            r.depth_stencil_final_layout == self.depth_stencil_final_layout,
            r.depth_load == self.depth_load,
            r.stencil_load == self.stencil_load,
            r.depth_stencil_samples == self.depth_stencil_samples,
    {
        let mut this = self;
        this.color_formats.push(color_format);
        this.color_final_layouts.push(color_final_layout);
        this.color_loads.push(color_load);
        this.color_samples.push(color_samples);
        this
    }

    /// Sets the depth-stencil attachment state.
    pub fn set_depth_stencil(
        self,
        depth_stencil_format: Format,
        depth_stencil_final_layout: ImageLayout,
        depth_load: RenderTargetLoadAction,
        stencil_load: RenderTargetLoadAction,
        depth_stencil_samples: SampleCount,
    ) -> (r: Self)
        ensures
            r.color_formats@ == self.color_formats@,
            r.color_final_layouts@ == self.color_final_layouts@,
            r.color_loads@ == self.color_loads@,
            r.color_samples@ == self.color_samples@,
            r.depth_stencil_format == depth_stencil_format,
            r.depth_stencil_final_layout == depth_stencil_final_layout,
            r.depth_load == depth_load,
            r.stencil_load == stencil_load,
            r.depth_stencil_samples == depth_stencil_samples,
    {
        let mut this = self;
        this.depth_stencil_format = depth_stencil_format;
        this.depth_stencil_final_layout = depth_stencil_final_layout;
        this.depth_load = depth_load;
        this.stencil_load = stencil_load;
        this.depth_stencil_samples = depth_stencil_samples;
        this
    }

    /// Builds the output.  The builder must describe consistent attachment
    /// lists of at most `MAX_RENDER_TARGETS` colors; the lists are taken
    /// over as they stand.
    pub fn build(self) -> (r: RenderPassOutput)
        requires
            self.color_formats@.len() <= MAX_RENDER_TARGETS as int,
            self.color_final_layouts@.len() == self.color_formats@.len(),
            self.color_loads@.len() == self.color_formats@.len(),
            self.color_samples@.len() == self.color_formats@.len(),
        ensures
            r.wf(),
            r.num_colors as int == self.color_formats@.len(),
            r.color_formats@ == self.color_formats@,
            r.color_final_layouts@ == self.color_final_layouts@,
            r.color_loads@ == self.color_loads@,
            r.color_samples@ == self.color_samples@,
            r.depth_stencil_format == self.depth_stencil_format,
            r.depth_stencil_final_layout == self.depth_stencil_final_layout,
            r.depth_load == self.depth_load,
            r.stencil_load == self.stencil_load,
            r.depth_stencil_samples == self.depth_stencil_samples,
    {
        let num_colors: u8 = self.color_formats.len() as u8;
        RenderPassOutput {
            num_colors,
            color_formats: self.color_formats,
            color_final_layouts: self.color_final_layouts,
            color_loads: self.color_loads,
            color_samples: self.color_samples,
            depth_stencil_format: self.depth_stencil_format,
            depth_stencil_final_layout: self.depth_stencil_final_layout,
            depth_load: self.depth_load,
            stencil_load: self.stencil_load,
            depth_stencil_samples: self.depth_stencil_samples,
        }
    }
}

/// Parameters for creating a framebuffer over a render pass.
#[derive(Clone)]
pub struct FramebufferCreateDesc {
    pub render_pass: Handle<RenderPass>,
    pub color_views: Vec<Handle<ImageView>>,
    pub depth_stencil_view: Option<Handle<ImageView>>,
}

/// Parameters of a queue submission.
pub struct QueueSubmitDesc {
    pub wait_semaphore: Option<Vec<Handle<Semaphore>>>,
    pub wait_stage: Option<Vec<PipelineStageFlags>>,
    pub command_buffer: Vec<Handle<CommandBuffer>>,
    pub finish_semaphore: Option<Vec<Handle<Semaphore>>>,
    pub fence: Option<Handle<Fence>>,
}

/// Parameters of a present request.
pub struct QueuePresentDesc {
    pub wait_semaphores: Vec<Handle<Semaphore>>,
    pub swapchain: Handle<Swapchain>,
    pub image_index: u32,
}

/// One vertex buffer binding and its attributes.
pub struct VertexInputBinding {
    pub stride: usize,
    pub attributes: Vec<VertexInputAttribute>,
    pub input_rate: VertexInputRate,
}

/// One vertex attribute within a binding.
pub struct VertexInputAttribute {
    pub offset: usize,
    pub format: Format,
}

/// Parameters for creating a buffer.
pub struct BufferCreateDesc {
    pub name: String,
    pub size: u64,
    pub usage: BufferUsageFlags,
    pub memory: MemoryLocation,
    pub initial_data: Option<Vec<u8>>,
}

/// One region of a buffer-to-buffer copy.
#[derive(Clone, Copy)]
pub struct BufferCopyRegion {
    pub src_offset: u64,
    pub dst_offset: u64,
    pub size: u64,
}

impl Default for BufferCopyRegion {
    fn default() -> (r: Self)
        ensures
            r.src_offset == 0u64,
            r.dst_offset == 0u64,
            r.size == 0u64,
    {
        BufferCopyRegion { src_offset: 0, dst_offset: 0, size: 0 }
    }
}

/// One region of a buffer-to-image copy.
#[derive(Clone, Copy)]
pub struct BufferImageCopyRegion {
    pub buffer_offset: u64,
    pub buffer_row_length: u32,
    pub buffer_image_height: u32,
    pub aspect_mask: ImageAspectFlags,
    pub mip_level: u32,
    pub base_array_layer: u32,
    pub layer_count: u32,
    pub image_offset: [i32; 3],
    pub image_extent: [u32; 3],
}

/// How many descriptors of one type a pool may serve.
pub struct DescriptorPoolSize {
    pub descriptor_type: DescriptorType,
    pub descriptor_count: u32,
}

/// Parameters for creating a descriptor pool.
pub struct DescriptorPoolCreateDesc {
    pub max_sets: u32,
    pub pool_sizes: Vec<DescriptorPoolSize>,
}

/// One binding of a descriptor set layout.
#[derive(Clone, Copy)]
pub struct DescriptorSetLayoutBinding {
    pub binding: u32,
    pub descriptor_type: DescriptorType,
    pub descriptor_count: u32,
    pub stage_flags: ShaderStageFlags,
}

/// Compact description of one layout binding.
#[derive(Clone, Copy)]
pub struct DescriptorBindingInfo {
    pub index: u16,
    pub type_: DescriptorType,
    pub count: u16,
    pub stage_flags: ShaderStageFlags,
}

/// The data bound at one descriptor binding.
#[derive(Clone, Copy)]
pub struct DescriptorBindingData {
    pub binding: u16,
    pub buffer: Option<Handle<Buffer>>,
    pub sampler: Option<Handle<Sampler>>,
    pub image_view: Option<Handle<ImageView>>,
}

/// A memory barrier between queue families.
pub struct MemoryBarrier {
    pub src_queue_family_index: u32,
    pub dst_queue_family_index: u32,
    pub src_access_mask: AccessFlag,
    pub dst_access_mask: AccessFlag,
}

/// A buffer memory barrier.
pub struct BufferMemoryBarrier {
    pub buffer: Handle<Buffer>,
    pub src_queue_family_index: u32,
    pub dst_queue_family_index: u32,
    pub src_access_mask: AccessFlag,
    pub dst_access_mask: AccessFlag,
}

/// An image memory barrier: a layout transition over an image subresource.
pub struct ImageMemoryBarrier {
    pub image: Handle<Image>,
    pub aspect_mask: ImageAspectFlags,
    pub base_mip_level: u32,
    pub level_count: u32,
    pub base_array_layer: u32,
    pub layer_count: u32,
    pub old_layout: ImageLayout,
    pub new_layout: ImageLayout,
    pub src_queue_family_index: Option<u32>,
    pub dst_queue_family_index: Option<u32>,
    pub src_access_mask: AccessFlags,
    pub dst_access_mask: AccessFlags,
}

/// How a command buffer recording begins.
#[derive(Clone, Copy)]
pub struct CommandBufferBeginDesc {
    pub one_time_submit: bool,
}

impl Default for CommandBufferBeginDesc {
    fn default() -> (r: Self)
        ensures
            r.one_time_submit == false,
    {
        CommandBufferBeginDesc { one_time_submit: false }
    }
}

} // verus!
