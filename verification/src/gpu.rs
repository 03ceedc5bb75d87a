//! What the render side asks of the graphics backend and what the backend answers, as
//! plain values. The host turns a request into a call on its device or queue, and names
//! each buffer and binding set that it created by a number of its choice.

use crate::error::MaterialError;
use vstd::prelude::*;

verus! {

/// The host's name for a buffer.
#[derive(Clone, Copy, Debug, PartialEq, Eq, Structural, Hash)]
pub struct BufferId(pub u64);

/// The host's name for a binding set.
#[derive(Clone, Copy, Debug, PartialEq, Eq, Structural, Hash)]
pub struct BindGroupId(pub u64);

/// The resources of a resident material: its uniform buffer and the binding set that
/// refers to it.
#[derive(Clone, Copy, Debug, PartialEq, Eq, Structural)]
pub struct ShaderMaterialGpu {
    pub buffer: BufferId,
    pub bind_group: BindGroupId,
}

/// What a buffer may be used for.
#[derive(Clone, Copy, Debug, PartialEq, Eq, Structural)]
pub struct BufferUsage {
    /// Shaders may read it as a uniform block.
    pub uniform: bool,
    /// The queue may copy into it.
    pub copy_dst: bool,
}

/// The shader stages that may see a binding.
#[derive(Clone, Copy, Debug, PartialEq, Eq, Structural)]
pub struct StageVisibility {
    pub vertex: bool,
    pub fragment: bool,
    pub compute: bool,
}

/// The layout of the material's one binding, which the shader must match.
#[derive(Clone, Copy, Debug, PartialEq, Eq, Structural)]
pub struct BindingLayout {
    /// The slot of the binding.
    pub binding: u32,
    pub visibility: StageVisibility,
    /// Whether the binding is a uniform buffer, as opposed to a storage buffer.
    pub uniform: bool,
    pub has_dynamic_offset: bool,
    /// The least size of a buffer bound here, in bytes.
    pub min_binding_size: u64,
}

/// A binding of a range of a buffer to a slot.
#[derive(Clone, Copy, Debug, PartialEq, Eq, Structural)]
pub struct BufferBinding {
    /// The slot of the binding.
    pub binding: u32,
    pub buffer: BufferId,
    /// Where the bound range starts in the buffer.
    pub offset: u64,
    /// The size of the bound range; without one, the range reaches to the buffer's end.
    pub size: Option<u64>,
}

/// How the backend failed.
#[derive(Clone, Copy, Debug, PartialEq, Eq, Structural)]
pub enum BackendError {
    /// It had no memory left for the resource.
    OutOfMemory,
    /// It found the request invalid.
    Validation,
}

/// What happened to a material's preparation.
#[derive(Clone, Copy, Debug, PartialEq, Eq, Structural)]
pub enum PrepareEvent {
    /// The host asks the stage to see to the material's resources.
    Requested,
    /// The backend created the buffer that the stage asked for.
    BufferCreated(BufferId),
    /// The backend created the binding set that the stage asked for.
    BindGroupCreated(BindGroupId),
    /// The backend did not create what the stage asked for.
    Refused(BackendError),
}

/// Resources that are to be destroyed.
#[derive(Clone, Copy, Debug, PartialEq, Eq, Structural)]
pub struct Released {
    pub buffer: Option<BufferId>,
    pub bind_group: Option<BindGroupId>,
}

/// What the host is to do next for a material.
#[derive(Debug, PartialEq, Eq)]
pub enum GpuAction {
    /// Nothing.
    Nothing,
    /// Create a buffer of exactly the size of `contents`, filled with them.
    CreateBuffer { contents: Vec<u8>, usage: BufferUsage },
    /// Create a binding set with this one binding.
    CreateBindGroup(BufferBinding),
    /// Write `bytes` into `buffer` from `offset` on. `frame` is the frame counter that the
    /// bytes hold.
    WriteBuffer { buffer: BufferId, offset: u64, bytes: Vec<u8>, frame: u32 },
    /// Destroy the resources named.
    Release(Released),
}

/// A request to the backend, with the bytes that it carries as a sequence.
pub enum GpuRequest {
    Nothing,
    CreateBuffer { contents: Seq<u8>, usage: BufferUsage },
    CreateBindGroup(BufferBinding),
    WriteBuffer { buffer: BufferId, offset: u64, bytes: Seq<u8>, frame: u32 },
    Release(Released),
}

impl View for GpuAction {
    type V = GpuRequest;

    open spec fn view(&self) -> GpuRequest {
        match *self {
            GpuAction::Nothing => GpuRequest::Nothing,
            GpuAction::CreateBuffer { contents, usage } => GpuRequest::CreateBuffer {
                contents: contents@,
                usage,
            },
            GpuAction::CreateBindGroup(binding) => GpuRequest::CreateBindGroup(binding),
            GpuAction::WriteBuffer { buffer, offset, bytes, frame } => GpuRequest::WriteBuffer {
                buffer,
                offset,
                bytes: bytes@,
                frame,
            },
            GpuAction::Release(released) => GpuRequest::Release(released),
        }
    }
}

/// The failure that the stage reports for a failure of the backend.
pub open spec fn reported(error: BackendError) -> MaterialError {
    match error {
        BackendError::OutOfMemory => MaterialError::DeviceOutOfMemory,
        BackendError::Validation => MaterialError::InvalidLayout,
    }
}

/// Names a failure of the backend as the stage reports it.
pub fn report(error: BackendError) -> (failure: MaterialError)
    ensures
        failure == reported(error),
{
    match error {
        BackendError::OutOfMemory => MaterialError::DeviceOutOfMemory,
        BackendError::Validation => MaterialError::InvalidLayout,
    }
}

} // verus!
