//! Bit-set flag types of the rendering interface, written out by hand: each
//! is a transparent wrapper over a `u32` bit mask with named constructors
//! for the individual bits and verified set operations.

use vstd::prelude::*;

verus! {

/// Usage bits of an image resource.
#[derive(Clone, Copy, Debug, PartialEq, Eq, Structural)]
pub struct ImageUsageFlags {
    pub bits: u32,
}

impl ImageUsageFlags {
    pub fn empty() -> (r: Self)
        ensures
            r.bits == 0u32,
    {
        ImageUsageFlags { bits: 0 }
    }

    pub fn transfer_src() -> (r: Self)
        ensures
            r.bits == 0x1u32,
    {
        ImageUsageFlags { bits: 0x1 }
    }

    pub fn transfer_dst() -> (r: Self)
        ensures
            r.bits == 0x2u32,
    {
        ImageUsageFlags { bits: 0x2 }
    }

    pub fn sampled() -> (r: Self)
        ensures
            r.bits == 0x4u32,
    {
        ImageUsageFlags { bits: 0x4 }
    }

    pub fn storage() -> (r: Self)
        ensures
            r.bits == 0x8u32,
    {
        ImageUsageFlags { bits: 0x8 }
    }

    pub fn color_attachment() -> (r: Self)
        ensures
            r.bits == 0x10u32,
    {
        ImageUsageFlags { bits: 0x10 }
    }

    pub fn depth_stencil_attachment() -> (r: Self)
        ensures
            r.bits == 0x20u32,
    {
        ImageUsageFlags { bits: 0x20 }
    }

    /// The union of two flag sets.
    pub fn union(self, other: Self) -> (r: Self)
        ensures
            r.bits == self.bits | other.bits,
    {
        ImageUsageFlags { bits: self.bits | other.bits }
    }

    /// True iff every bit of `other` is set in `self`.
    pub fn contains(self, other: Self) -> (r: bool)
        ensures
            r == (self.bits & other.bits == other.bits),
    {
        self.bits & other.bits == other.bits
    }
}

/// Usage bits of a buffer resource.
#[derive(Clone, Copy, Debug, PartialEq, Eq, Structural)]
pub struct BufferUsageFlags {
    pub bits: u32,
}

impl BufferUsageFlags {
    pub fn empty() -> (r: Self)
        ensures
            r.bits == 0u32,
    {
        BufferUsageFlags { bits: 0 }
    }

    pub fn transfer_src() -> (r: Self)
        ensures
            r.bits == 0x1u32,
    {
        BufferUsageFlags { bits: 0x1 }
    }

    pub fn transfer_dst() -> (r: Self)
        ensures
            r.bits == 0x2u32,
    {
        BufferUsageFlags { bits: 0x2 }
    }

    pub fn uniform_buffer() -> (r: Self)
        ensures
            r.bits == 0x10u32,
    {
        BufferUsageFlags { bits: 0x10 }
    }

    pub fn storage_buffer() -> (r: Self)
        ensures
            r.bits == 0x20u32,
    {
        BufferUsageFlags { bits: 0x20 }
    }

    pub fn index_buffer() -> (r: Self)
        ensures
            r.bits == 0x40u32,
    {
        BufferUsageFlags { bits: 0x40 }
    }

    pub fn vertex_buffer() -> (r: Self)
        ensures
            r.bits == 0x80u32,
    {
        BufferUsageFlags { bits: 0x80 }
    }

    pub fn union(self, other: Self) -> (r: Self)
        ensures
            r.bits == self.bits | other.bits,
    {
        BufferUsageFlags { bits: self.bits | other.bits }
    }

    pub fn contains(self, other: Self) -> (r: bool)
        ensures
            r == (self.bits & other.bits == other.bits),
    {
        self.bits & other.bits == other.bits
    }
}

/// Shader stage bits.
#[derive(Clone, Copy, Debug, PartialEq, Eq, Structural)]
pub struct ShaderStageFlags {
    pub bits: u32,
}

impl ShaderStageFlags {
    pub fn empty() -> (r: Self)
        ensures
            r.bits == 0u32,
    {
        ShaderStageFlags { bits: 0 }
    }

    pub fn vertex() -> (r: Self)
        ensures
            r.bits == 0x1u32,
    {
        ShaderStageFlags { bits: 0x1 }
    }

    pub fn fragment() -> (r: Self)
        ensures
            r.bits == 0x10u32,
    {
        ShaderStageFlags { bits: 0x10 }
    }

    pub fn compute() -> (r: Self)
        ensures
            r.bits == 0x20u32,
    {
        ShaderStageFlags { bits: 0x20 }
    }

    pub fn all_graphics() -> (r: Self)
        ensures
            r.bits == 0x1Fu32,
    {
        ShaderStageFlags { bits: 0x1F }
    }

    pub fn union(self, other: Self) -> (r: Self)
        ensures
            r.bits == self.bits | other.bits,
    {
        ShaderStageFlags { bits: self.bits | other.bits }
    }

    pub fn contains(self, other: Self) -> (r: bool)
        ensures
            r == (self.bits & other.bits == other.bits),
    {
        self.bits & other.bits == other.bits
    }
}

/// Pipeline stage bits, used in barrier source and destination masks.
#[derive(Clone, Copy, Debug, PartialEq, Eq, Structural)]
pub struct PipelineStageFlags {
    pub bits: u32,
}

impl PipelineStageFlags {
    pub fn empty() -> (r: Self)
        ensures
            r.bits == 0u32,
    {
        PipelineStageFlags { bits: 0 }
    }

    pub fn top_of_pipe() -> (r: Self)
        ensures
            r.bits == 0x1u32,
    {
        PipelineStageFlags { bits: 0x1 }
    }

    pub fn fragment_shader() -> (r: Self)
        ensures
            r.bits == 0x80u32,
    {
        PipelineStageFlags { bits: 0x80 }
    }

    pub fn early_fragment_tests() -> (r: Self)
        ensures
            r.bits == 0x100u32,
    {
        PipelineStageFlags { bits: 0x100 }
    }

    pub fn color_attachment_output() -> (r: Self)
        ensures
            r.bits == 0x400u32,
    {
        PipelineStageFlags { bits: 0x400 }
    }

    pub fn transfer() -> (r: Self)
        ensures
            r.bits == 0x1000u32,
    {
        PipelineStageFlags { bits: 0x1000 }
    }

    pub fn union(self, other: Self) -> (r: Self)
        ensures
            r.bits == self.bits | other.bits,
    {
        PipelineStageFlags { bits: self.bits | other.bits }
    }

    pub fn contains(self, other: Self) -> (r: bool)
        ensures
            r == (self.bits & other.bits == other.bits),
    {
        self.bits & other.bits == other.bits
    }
}

/// Aspect bits of an image: which planes a view or barrier addresses.
#[derive(Clone, Copy, Debug, PartialEq, Eq, Structural)]
pub struct ImageAspectFlags {
    pub bits: u32,
}

impl ImageAspectFlags {
    pub fn empty() -> (r: Self)
        ensures
            r.bits == 0u32,
    {
        ImageAspectFlags { bits: 0 }
    }

    pub fn color() -> (r: Self)
        ensures
            r.bits == 0x1u32,
    {
        ImageAspectFlags { bits: 0x1 }
    }

    pub fn depth() -> (r: Self)
        ensures
            r.bits == 0x2u32,
    {
        ImageAspectFlags { bits: 0x2 }
    }

    pub fn stencil() -> (r: Self)
        ensures
            r.bits == 0x4u32,
    {
        ImageAspectFlags { bits: 0x4 }
    }

    pub fn union(self, other: Self) -> (r: Self)
        ensures
            r.bits == self.bits | other.bits,
    {
        ImageAspectFlags { bits: self.bits | other.bits }
    }

    pub fn contains(self, other: Self) -> (r: bool)
        ensures
            r == (self.bits & other.bits == other.bits),
    {
        self.bits & other.bits == other.bits
    }
}

/// Memory access bits, used in barrier access masks.
#[derive(Clone, Copy, Debug, PartialEq, Eq, Structural)]
pub struct AccessFlags {
    pub bits: u32,
}

impl AccessFlags {
    pub fn empty() -> (r: Self)
        ensures
            r.bits == 0u32,
    {
        AccessFlags { bits: 0 }
    }

    pub fn shader_read() -> (r: Self)
        ensures
            r.bits == 0x20u32,
    {
        AccessFlags { bits: 0x20 }
    }

    pub fn depth_stencil_attachment_read() -> (r: Self)
        ensures
            r.bits == 0x200u32,
    {
        AccessFlags { bits: 0x200 }
    }

    pub fn depth_stencil_attachment_write() -> (r: Self)
        ensures
            r.bits == 0x400u32,
    {
        AccessFlags { bits: 0x400 }
    }

    pub fn transfer_read() -> (r: Self)
        ensures
            r.bits == 0x800u32,
    {
        AccessFlags { bits: 0x800 }
    }

    pub fn transfer_write() -> (r: Self)
        ensures
            r.bits == 0x1000u32,
    {
        AccessFlags { bits: 0x1000 }
    }

    pub fn union(self, other: Self) -> (r: Self)
        ensures
            r.bits == self.bits | other.bits,
    {
        AccessFlags { bits: self.bits | other.bits }
    }

    pub fn contains(self, other: Self) -> (r: bool)
        ensures
            r == (self.bits & other.bits == other.bits),
    {
        self.bits & other.bits == other.bits
    }
}

/// Feature bits a format can support under a given tiling.
#[derive(Clone, Copy, Debug, PartialEq, Eq, Structural)]
pub struct FormatFeatureFlags {
    pub bits: u32,
}

impl FormatFeatureFlags {
    pub fn empty() -> (r: Self)
        ensures
            r.bits == 0u32,
    {
        FormatFeatureFlags { bits: 0 }
    }

    pub fn sampled_image() -> (r: Self)
        ensures
            r.bits == 0x1u32,
    {
        FormatFeatureFlags { bits: 0x1 }
    }

    pub fn color_attachment() -> (r: Self)
        ensures
            r.bits == 0x80u32,
    {
        FormatFeatureFlags { bits: 0x80 }
    }

    pub fn depth_stencil_attachment() -> (r: Self)
        ensures
            r.bits == 0x200u32,
    {
        FormatFeatureFlags { bits: 0x200 }
    }

    pub fn union(self, other: Self) -> (r: Self)
        ensures
            r.bits == self.bits | other.bits,
    {
        FormatFeatureFlags { bits: self.bits | other.bits }
    }

    pub fn contains(self, other: Self) -> (r: bool)
        ensures
            r == (self.bits & other.bits == other.bits),
    {
        self.bits & other.bits == other.bits
    }
}

} // verus!
