//! What a command buffer knows of its own recording.

use super::gpu_enum::queue_type;
use super::gpu_resources::PipelineHandle;
use super::gpu_resources::RenderPassHandle;
use super::gpu_resources::ResourceHandle;
use vstd::prelude::*;

verus! {

/// The recording state of a command buffer. The device that the commands go
/// to is the caller's; what the buffer needs to know of it is handed in.
pub struct CommandBuffer {
    pub current_render_pass: Option<RenderPassHandle>,
    pub current_pipeline: Option<RenderPassHandle>,
    pub is_recording: bool,
    pub handle: u32,
    pub current_command: u32,
    pub resource_handle: ResourceHandle,
    pub type_: queue_type::Enum,
    pub buffer_size: u32,
    pub baked: bool,
}

impl CommandBuffer {
    /// A graphics command buffer that records nothing yet.
    pub fn new(handle: u32, buffer_size: u32, baked: bool) -> (buffer: Self)
        ensures
            buffer == (CommandBuffer {
                current_render_pass: None,
                current_pipeline: None,
                is_recording: false,
                handle,
                current_command: 0,
                resource_handle: 0,
                type_: queue_type::Enum::Graphics,
                buffer_size,
                baked,
            }),
    {
        CommandBuffer {
            current_render_pass: None,
            current_pipeline: None,
            is_recording: false,
            handle,
            current_command: 0,
            resource_handle: 0,
            type_: queue_type::Enum::Graphics,
            buffer_size,
            baked,
        }
    }

    /// Starts recording, and makes `handle` the current pass if the device
    /// has such a pass; otherwise the current pass stays.
    pub fn bind_pass(&mut self, handle: RenderPassHandle, pass_exists: bool)
        ensures
            *final(self) == (CommandBuffer {
                is_recording: true,
                current_render_pass: if pass_exists {
                    Some(handle)
                } else {
                    old(self).current_render_pass
                },
                ..*old(self)
            }),
    {
        self.is_recording = true;
        if pass_exists {
            self.current_render_pass = Some(handle);
        }
    }

    /// The pass whose output the commands draw into, if one is bound.
    pub fn get_current_render_pass(&self) -> (pass: Option<RenderPassHandle>)
        ensures
            pass == self.current_render_pass,
    {
        self.current_render_pass
    }

    /// Binding a pipeline leaves the recording state as it is.
    pub fn bind_pipeline(&mut self, _handle: PipelineHandle)
        ensures
            *final(self) == *old(self),
    {
    }

    /// Stops recording.
    pub fn terminate(&mut self)
        ensures
            *final(self) == (CommandBuffer { is_recording: false, ..*old(self) }),
    {
        self.is_recording = false;
    }
}

} // verus!
