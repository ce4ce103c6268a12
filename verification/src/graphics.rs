//! Descriptions of graphics resources and the handles that name them.

pub mod command_buffer;
pub mod gpu_enum;
pub mod gpu_resources;
pub mod resource_deletion_queue;
pub mod vk;
