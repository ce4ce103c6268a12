//! The commands a command buffer records.

use vstd::prelude::*;

verus! {

#[derive(Debug, Copy, Clone, PartialEq, Eq, Structural)]
pub enum Enum {
    BindPipeline,
    BindResourceTable,
    BindVertexBuffer,
    BindIndexBuffer,
    BindResourceSet,
    Draw,
    DrawIndexed,
    DrawInstanced,
    DrawIndexedInstanced,
    Dispatch,
    CopyResource,
    SetScissor,
    SetViewport,
    Clear,
    ClearDepth,
    ClearStencil,
    BeginPass,
    EndPass,
    Count,
}

/// The name of each value; `Count` is no value and has none.
pub open spec fn value_name(e: Enum) -> Seq<char> {
    match e {
        Enum::BindPipeline => "BindPipeline"@,
        Enum::BindResourceTable => "BindResourceTable"@,
        Enum::BindVertexBuffer => "BindVertexBuffer"@,
        Enum::BindIndexBuffer => "BindIndexBuffer"@,
        Enum::BindResourceSet => "BindResourceSet"@,
        Enum::Draw => "Draw"@,
        Enum::DrawIndexed => "DrawIndexed"@,
        Enum::DrawInstanced => "DrawInstanced"@,
        Enum::DrawIndexedInstanced => "DrawIndexedInstanced"@,
        Enum::Dispatch => "Dispatch"@,
        Enum::CopyResource => "CopyResource"@,
        Enum::SetScissor => "SetScissor"@,
        Enum::SetViewport => "SetViewport"@,
        Enum::Clear => "Clear"@,
        Enum::ClearDepth => "ClearDepth"@,
        Enum::ClearStencil => "ClearStencil"@,
        Enum::BeginPass => "BeginPass"@,
        Enum::EndPass => "EndPass"@,
        Enum::Count => "unsupported"@,
    }
}

pub fn to_string(e: Enum) -> (name: &'static str)
    ensures
        name@ == value_name(e),
{
    match e {
        Enum::BindPipeline => "BindPipeline",
        Enum::BindResourceTable => "BindResourceTable",
        Enum::BindVertexBuffer => "BindVertexBuffer",
        Enum::BindIndexBuffer => "BindIndexBuffer",
        Enum::BindResourceSet => "BindResourceSet",
        Enum::Draw => "Draw",
        Enum::DrawIndexed => "DrawIndexed",
        Enum::DrawInstanced => "DrawInstanced",
        Enum::DrawIndexedInstanced => "DrawIndexedInstanced",
        Enum::Dispatch => "Dispatch",
        Enum::CopyResource => "CopyResource",
        Enum::SetScissor => "SetScissor",
        Enum::SetViewport => "SetViewport",
        Enum::Clear => "Clear",
        Enum::ClearDepth => "ClearDepth",
        Enum::ClearStencil => "ClearStencil",
        Enum::BeginPass => "BeginPass",
        Enum::EndPass => "EndPass",
        Enum::Count => "unsupported",
    }
}

} // verus!
