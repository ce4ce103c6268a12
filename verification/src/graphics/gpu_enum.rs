//! The enumerations of the graphics layer, each with the name of every value
//! and, where values combine into masks, the bit of every value.

pub mod color_write_enabled;
pub mod cull_mode;
pub mod depth_write_mask;
pub mod fill_mode;
pub mod front_clockwise;
pub mod stencil_operation;
pub mod topology_type;
pub mod resource_usage_type;
pub mod index_type;
pub mod texture_type;
pub mod vertex_component_format;
pub mod vertex_input_rate;
pub mod logic_operation;
pub mod queue_type;
pub mod command_type;
pub mod texture_flags;
pub mod pipeline_stage;
pub mod render_pass_type;
pub mod resource_deletion_type;
pub mod present_mode;
pub mod render_pass_operation;

use vstd::prelude::*;

verus! {

#[derive(Debug, Copy, Clone, PartialEq, Eq, Structural)]
pub enum DeviceExtensions {
    DeviceExtensionsDebugCallback,
}

impl DeviceExtensions {
    /// The bit that the extension stands for.
    pub open spec fn spec_bits(self) -> u32 {
        match self {
            DeviceExtensions::DeviceExtensionsDebugCallback => 0x1,
        }
    }

    #[verifier::when_used_as_spec(spec_bits)]
    pub fn bits(self) -> (bits: u32)
        ensures
            bits == self.spec_bits(),
    {
        match self {
            DeviceExtensions::DeviceExtensionsDebugCallback => 0x1,
        }
    }
}

/// The uses a resource can be in. Most states are one bit; two are unions of
/// others: `RESOURCE_STATE_SHADER_RESOURCE` and `RESOURCE_STATE_GENERIC_READ`.
#[derive(Debug, Copy, Clone, PartialEq, Eq, Structural)]
#[allow(non_camel_case_types)]
pub enum ResourceState {
    RESOURCE_STATE_UNDEFINED,
    RESOURCE_STATE_VERTEX_AND_CONSTANT_BUFFER,
    RESOURCE_STATE_INDEX_BUFFER,
    RESOURCE_STATE_RENDER_TARGET,
    RESOURCE_STATE_UNORDERED_ACCESS,
    RESOURCE_STATE_DEPTH_WRITE,
    RESOURCE_STATE_DEPTH_READ,
    RESOURCE_STATE_NON_PIXEL_SHADER_RESOURCE,
    RESOURCE_STATE_PIXEL_SHADER_RESOURCE,
    RESOURCE_STATE_SHADER_RESOURCE,
    RESOURCE_STATE_STREAM_OUT,
    RESOURCE_STATE_INDIRECT_ARGUMENT,
    RESOURCE_STATE_COPY_DEST,
    RESOURCE_STATE_COPY_SOURCE,
    RESOURCE_STATE_GENERIC_READ,
    RESOURCE_STATE_PRESENT,
    RESOURCE_STATE_COMMON,
    RESOURCE_STATE_RAYTRACING_ACCELERATION_STRUCTURE,
    RESOURCE_STATE_SHADING_RATE_SOURCE,
}

impl ResourceState {
    /// The bits that the state stands for.
    pub open spec fn spec_bits(self) -> u32 {
        match self {
            ResourceState::RESOURCE_STATE_UNDEFINED => 0x0,
            ResourceState::RESOURCE_STATE_VERTEX_AND_CONSTANT_BUFFER => 0x1,
            ResourceState::RESOURCE_STATE_INDEX_BUFFER => 0x2,
            ResourceState::RESOURCE_STATE_RENDER_TARGET => 0x4,
            ResourceState::RESOURCE_STATE_UNORDERED_ACCESS => 0x8,
            ResourceState::RESOURCE_STATE_DEPTH_WRITE => 0x10,
            ResourceState::RESOURCE_STATE_DEPTH_READ => 0x20,
            ResourceState::RESOURCE_STATE_NON_PIXEL_SHADER_RESOURCE => 0x40,
            ResourceState::RESOURCE_STATE_PIXEL_SHADER_RESOURCE => 0x80,
            ResourceState::RESOURCE_STATE_SHADER_RESOURCE => 0xc0,
            ResourceState::RESOURCE_STATE_STREAM_OUT => 0x100,
            ResourceState::RESOURCE_STATE_INDIRECT_ARGUMENT => 0x200,
            ResourceState::RESOURCE_STATE_COPY_DEST => 0x400,
            ResourceState::RESOURCE_STATE_COPY_SOURCE => 0x800,
            ResourceState::RESOURCE_STATE_GENERIC_READ => 0xac3,
            ResourceState::RESOURCE_STATE_PRESENT => 0x1000,
            ResourceState::RESOURCE_STATE_COMMON => 0x2000,
            ResourceState::RESOURCE_STATE_RAYTRACING_ACCELERATION_STRUCTURE => 0x4000,
            ResourceState::RESOURCE_STATE_SHADING_RATE_SOURCE => 0x8000,
        }
    }

    #[verifier::when_used_as_spec(spec_bits)]
    pub fn bits(self) -> (bits: u32)
        ensures
            bits == self.spec_bits(),
    {
        match self {
            ResourceState::RESOURCE_STATE_UNDEFINED => 0x0,
            ResourceState::RESOURCE_STATE_VERTEX_AND_CONSTANT_BUFFER => 0x1,
            ResourceState::RESOURCE_STATE_INDEX_BUFFER => 0x2,
            ResourceState::RESOURCE_STATE_RENDER_TARGET => 0x4,
            ResourceState::RESOURCE_STATE_UNORDERED_ACCESS => 0x8,
            ResourceState::RESOURCE_STATE_DEPTH_WRITE => 0x10,
            ResourceState::RESOURCE_STATE_DEPTH_READ => 0x20,
            ResourceState::RESOURCE_STATE_NON_PIXEL_SHADER_RESOURCE => 0x40,
            ResourceState::RESOURCE_STATE_PIXEL_SHADER_RESOURCE => 0x80,
            ResourceState::RESOURCE_STATE_SHADER_RESOURCE => 0xc0,
            ResourceState::RESOURCE_STATE_STREAM_OUT => 0x100,
            ResourceState::RESOURCE_STATE_INDIRECT_ARGUMENT => 0x200,
            ResourceState::RESOURCE_STATE_COPY_DEST => 0x400,
            ResourceState::RESOURCE_STATE_COPY_SOURCE => 0x800,
            ResourceState::RESOURCE_STATE_GENERIC_READ => 0xac3,
            ResourceState::RESOURCE_STATE_PRESENT => 0x1000,
            ResourceState::RESOURCE_STATE_COMMON => 0x2000,
            ResourceState::RESOURCE_STATE_RAYTRACING_ACCELERATION_STRUCTURE => 0x4000,
            ResourceState::RESOURCE_STATE_SHADING_RATE_SOURCE => 0x8000,
        }
    }

    /// The state that stands for exactly `bits`; `RESOURCE_STATE_UNDEFINED`
    /// where there is none.
    pub open spec fn spec_from_bits(bits: u32) -> ResourceState {
        if bits == 0x1 {
            ResourceState::RESOURCE_STATE_VERTEX_AND_CONSTANT_BUFFER
        } else if bits == 0x2 {
            ResourceState::RESOURCE_STATE_INDEX_BUFFER
        } else if bits == 0x4 {
            ResourceState::RESOURCE_STATE_RENDER_TARGET
        } else if bits == 0x8 {
            ResourceState::RESOURCE_STATE_UNORDERED_ACCESS
        } else if bits == 0x10 {
            ResourceState::RESOURCE_STATE_DEPTH_WRITE
        } else if bits == 0x20 {
            ResourceState::RESOURCE_STATE_DEPTH_READ
        } else if bits == 0x40 {
            ResourceState::RESOURCE_STATE_NON_PIXEL_SHADER_RESOURCE
        } else if bits == 0x80 {
            ResourceState::RESOURCE_STATE_PIXEL_SHADER_RESOURCE
        } else if bits == 0xc0 {
            ResourceState::RESOURCE_STATE_SHADER_RESOURCE
        } else if bits == 0x100 {
            ResourceState::RESOURCE_STATE_STREAM_OUT
        } else if bits == 0x200 {
            ResourceState::RESOURCE_STATE_INDIRECT_ARGUMENT
        } else if bits == 0x400 {
            ResourceState::RESOURCE_STATE_COPY_DEST
        } else if bits == 0x800 {
            ResourceState::RESOURCE_STATE_COPY_SOURCE
        } else if bits == 0xac3 {
            ResourceState::RESOURCE_STATE_GENERIC_READ
        } else if bits == 0x1000 {
            ResourceState::RESOURCE_STATE_PRESENT
        } else if bits == 0x2000 {
            ResourceState::RESOURCE_STATE_COMMON
        } else if bits == 0x4000 {
            ResourceState::RESOURCE_STATE_RAYTRACING_ACCELERATION_STRUCTURE
        } else if bits == 0x8000 {
            ResourceState::RESOURCE_STATE_SHADING_RATE_SOURCE
        } else {
            ResourceState::RESOURCE_STATE_UNDEFINED
        }
    }

    /// Whether some state stands for exactly `bits`.
    pub open spec fn is_state(bits: u32) -> bool {
        exists|state: ResourceState| state.spec_bits() == bits
    }

    /// The state that stands for exactly `bits`; `RESOURCE_STATE_UNDEFINED`
    /// where there is none.
    #[verifier::when_used_as_spec(spec_from_bits)]
    pub fn from_bits(bits: u32) -> (state: ResourceState)
        ensures
            state == Self::spec_from_bits(bits),
            Self::is_state(bits) ==> state.spec_bits() == bits,
            !Self::is_state(bits) ==> state == ResourceState::RESOURCE_STATE_UNDEFINED,
    {
        let state = match bits {
            0 => ResourceState::RESOURCE_STATE_UNDEFINED,
            0x1 => ResourceState::RESOURCE_STATE_VERTEX_AND_CONSTANT_BUFFER,
            0x2 => ResourceState::RESOURCE_STATE_INDEX_BUFFER,
            0x4 => ResourceState::RESOURCE_STATE_RENDER_TARGET,
            0x8 => ResourceState::RESOURCE_STATE_UNORDERED_ACCESS,
            0x10 => ResourceState::RESOURCE_STATE_DEPTH_WRITE,
            0x20 => ResourceState::RESOURCE_STATE_DEPTH_READ,
            0x40 => ResourceState::RESOURCE_STATE_NON_PIXEL_SHADER_RESOURCE,
            0x80 => ResourceState::RESOURCE_STATE_PIXEL_SHADER_RESOURCE,
            0xc0 => ResourceState::RESOURCE_STATE_SHADER_RESOURCE,
            0x100 => ResourceState::RESOURCE_STATE_STREAM_OUT,
            0x200 => ResourceState::RESOURCE_STATE_INDIRECT_ARGUMENT,
            0x400 => ResourceState::RESOURCE_STATE_COPY_DEST,
            0x800 => ResourceState::RESOURCE_STATE_COPY_SOURCE,
            0xac3 => ResourceState::RESOURCE_STATE_GENERIC_READ,
            0x1000 => ResourceState::RESOURCE_STATE_PRESENT,
            0x2000 => ResourceState::RESOURCE_STATE_COMMON,
            0x4000 => ResourceState::RESOURCE_STATE_RAYTRACING_ACCELERATION_STRUCTURE,
            0x8000 => ResourceState::RESOURCE_STATE_SHADING_RATE_SOURCE,
            _ => ResourceState::RESOURCE_STATE_UNDEFINED,
        };
        proof {
            if state.spec_bits() != bits {
                assert forall|other: ResourceState| other.spec_bits() != bits by {}
            }
        }
        state
    }

    /// Whether every bit of `other` is set in this state.
    pub fn contains(&self, other: ResourceState) -> (contained: bool)
        ensures
            contained == (self.spec_bits() & other.spec_bits() == other.spec_bits()),
    {
        (self.bits() & other.bits()) == other.bits()
    }
}

/// No two states stand for the same bits.
pub proof fn lemma_bits_name_one_state(a: ResourceState, b: ResourceState)
    requires
        a.spec_bits() == b.spec_bits(),
    ensures
        a == b,
{
}

/// `from_bits` undoes `bits`.
pub proof fn lemma_from_bits_of_bits(state: ResourceState)
    ensures
        ResourceState::spec_from_bits(state.spec_bits()) == state,
{
    lemma_bits_name_one_state(state, ResourceState::spec_from_bits(state.spec_bits()));
}

/// Whether `bits` is one of the numbers that the states stand for.
pub open spec fn names_state(bits: u32) -> bool {
    bits == 0x0 || bits == 0x1 || bits == 0x2 || bits == 0x4 || bits == 0x8 || bits == 0x10 ||
        bits == 0x20 || bits == 0x40 || bits == 0x80 || bits == 0xc0 || bits == 0x100 ||
        bits == 0x200 || bits == 0x400 || bits == 0x800 || bits == 0xac3 || bits == 0x1000 ||
        bits == 0x2000 || bits == 0x4000 || bits == 0x8000
}

/// The bits that two of these numbers have in common are such a number again.
proof fn lemma_common_bits_name_state(a: u32, b: u32)
    by (bit_vector)
    requires
        names_state(a),
        names_state(b),
    ensures
        names_state(a & b),
{
}

/// The bits that two states have in common are the bits of a state, so `&`
/// loses nothing: the state it returns stands for exactly the common bits.
pub proof fn lemma_bitand_bits(a: ResourceState, b: ResourceState)
    ensures
        ResourceState::is_state(a.spec_bits() & b.spec_bits()),
        ResourceState::spec_from_bits(a.spec_bits() & b.spec_bits()).spec_bits() == a.spec_bits()
            & b.spec_bits(),
{
    lemma_common_bits_name_state(a.spec_bits(), b.spec_bits());
    let common = a.spec_bits() & b.spec_bits();
    lemma_state_of_bits(common);
}

/// Each of the numbers that the states stand for is the number of a state.
proof fn lemma_state_of_bits(bits: u32)
    requires
        names_state(bits),
    ensures
        ResourceState::is_state(bits),
{
    let state = ResourceState::spec_from_bits(bits);
    assert(state.spec_bits() == bits);
}

impl core::ops::BitOr for ResourceState {
    type Output = Self;

    /// The state that stands for the bits of both.
    fn bitor(self, rhs: Self) -> (union: Self) {
        ResourceState::from_bits(self.bits() | rhs.bits())
    }
}

impl vstd::std_specs::ops::BitOrSpecImpl for ResourceState {
    open spec fn obeys_bitor_spec() -> bool {
        true
    }

    /// The union must be a state itself.
    open spec fn bitor_req(self, rhs: Self) -> bool {
        ResourceState::is_state(self.spec_bits() | rhs.spec_bits())
    }

    open spec fn bitor_spec(self, rhs: Self) -> Self {
        ResourceState::spec_from_bits(self.spec_bits() | rhs.spec_bits())
    }
}

impl core::ops::BitAnd for ResourceState {
    type Output = Self;

    /// The state that stands for the bits the two have in common;
    /// `RESOURCE_STATE_UNDEFINED` where they have none.
    fn bitand(self, rhs: Self) -> (common: Self) {
        ResourceState::from_bits(self.bits() & rhs.bits())
    }
}

impl vstd::std_specs::ops::BitAndSpecImpl for ResourceState {
    open spec fn obeys_bitand_spec() -> bool {
        true
    }

    open spec fn bitand_req(self, rhs: Self) -> bool {
        true
    }

    open spec fn bitand_spec(self, rhs: Self) -> Self {
        ResourceState::spec_from_bits(self.spec_bits() & rhs.spec_bits())
    }
}

} // verus!
