//! Identities of devices, contexts, portable objects and GL objects.

use vstd::prelude::*;

verus! {

/// The identity of one portable device. Zero is not an identity.
#[derive(Clone, Copy, Debug, PartialEq, Eq, Structural)]
pub struct DeviceIdentity {
    pub value: u64,
}

impl DeviceIdentity {
    pub fn new(value: u64) -> (result: Option<Self>)
        ensures
            result == (if value == 0 {
                None
            } else {
                Some(DeviceIdentity { value })
            }),
    {
        if value == 0 {
            None
        } else {
            Some(DeviceIdentity { value })
        }
    }
}

/// Counts the contexts that one device has had, one after the other.
#[derive(Clone, Copy, Debug, PartialEq, Eq, Structural)]
pub struct ContextEpoch {
    pub value: u64,
}

impl ContextEpoch {
    /// The epoch of the first context of a device.
    pub fn initial() -> (result: Self)
        ensures
            result.value == 0,
    {
        ContextEpoch { value: 0 }
    }
}

/// The device and the context generation that an object belongs to.
#[derive(Clone, Copy, Debug, PartialEq, Eq, Structural)]
pub struct ContextStamp {
    pub device: DeviceIdentity,
    pub epoch: ContextEpoch,
}

impl ContextStamp {
    pub fn new(device: DeviceIdentity, epoch: ContextEpoch) -> (result: Self)
        ensures
            result == (ContextStamp { device, epoch }),
    {
        ContextStamp { device, epoch }
    }
}

/// The identity of one portable object, unique in its process.
#[derive(Clone, Copy, Debug, PartialEq, Eq, Structural)]
pub struct ObjectId {
    pub value: u64,
}

impl ObjectId {
    pub fn new(value: u64) -> (result: Self)
        ensures
            result.value == value,
    {
        ObjectId { value }
    }
}

/// The identity of one device instance that a host asked for.
#[derive(Clone, Copy, Debug, PartialEq, Eq, Structural)]
pub struct DeviceInstanceId {
    pub value: u64,
}

impl DeviceInstanceId {
    pub fn new(value: u64) -> (result: Self)
        ensures
            result.value == value,
    {
        DeviceInstanceId { value }
    }
}

/// The thread that owns a context.
#[derive(Clone, Copy, Debug, PartialEq, Eq, Structural)]
pub struct OwnerThreadIdentity {
    pub value: u64,
}

impl OwnerThreadIdentity {
    pub fn new(value: u64) -> (result: Self)
        ensures
            result.value == value,
    {
        OwnerThreadIdentity { value }
    }
}

/// The handle of one buffer object of one context generation.
#[derive(Clone, Copy, Debug, PartialEq, Eq, Structural)]
pub struct BufferId {
    pub stamp: ContextStamp,
    pub slot: u32,
    pub generation: u32,
}

impl BufferId {
    pub fn new(stamp: ContextStamp, slot: u32, generation: u32) -> (result: Self)
        ensures
            result == (BufferId { stamp, slot, generation }),
    {
        BufferId { stamp, slot, generation }
    }
}

/// The handle of one texture object of one context generation.
#[derive(Clone, Copy, Debug, PartialEq, Eq, Structural)]
pub struct TextureId {
    pub stamp: ContextStamp,
    pub slot: u32,
    pub generation: u32,
}

impl TextureId {
    pub fn new(stamp: ContextStamp, slot: u32, generation: u32) -> (result: Self)
        ensures
            result == (TextureId { stamp, slot, generation }),
    {
        TextureId { stamp, slot, generation }
    }
}

/// The handle of one renderbuffer object of one context generation.
#[derive(Clone, Copy, Debug, PartialEq, Eq, Structural)]
pub struct RenderbufferId {
    pub stamp: ContextStamp,
    pub slot: u32,
    pub generation: u32,
}

impl RenderbufferId {
    pub fn new(stamp: ContextStamp, slot: u32, generation: u32) -> (result: Self)
        ensures
            result == (RenderbufferId { stamp, slot, generation }),
    {
        RenderbufferId { stamp, slot, generation }
    }
}

/// The handle of one sampler object of one context generation.
#[derive(Clone, Copy, Debug, PartialEq, Eq, Structural)]
pub struct SamplerId {
    pub stamp: ContextStamp,
    pub slot: u32,
    pub generation: u32,
}

impl SamplerId {
    pub fn new(stamp: ContextStamp, slot: u32, generation: u32) -> (result: Self)
        ensures
            result == (SamplerId { stamp, slot, generation }),
    {
        SamplerId { stamp, slot, generation }
    }
}

/// The handle of one shader object of one context generation.
#[derive(Clone, Copy, Debug, PartialEq, Eq, Structural)]
pub struct ShaderId {
    pub stamp: ContextStamp,
    pub slot: u32,
    pub generation: u32,
}

impl ShaderId {
    pub fn new(stamp: ContextStamp, slot: u32, generation: u32) -> (result: Self)
        ensures
            result == (ShaderId { stamp, slot, generation }),
    {
        ShaderId { stamp, slot, generation }
    }
}

/// The handle of one linked program of one context generation.
#[derive(Clone, Copy, Debug, PartialEq, Eq, Structural)]
pub struct ProgramId {
    pub stamp: ContextStamp,
    pub slot: u32,
    pub generation: u32,
}

impl ProgramId {
    pub fn new(stamp: ContextStamp, slot: u32, generation: u32) -> (result: Self)
        ensures
            result == (ProgramId { stamp, slot, generation }),
    {
        ProgramId { stamp, slot, generation }
    }
}

/// The handle of one vertex array object of one context generation.
#[derive(Clone, Copy, Debug, PartialEq, Eq, Structural)]
pub struct VertexArrayId {
    pub stamp: ContextStamp,
    pub slot: u32,
    pub generation: u32,
}

impl VertexArrayId {
    pub fn new(stamp: ContextStamp, slot: u32, generation: u32) -> (result: Self)
        ensures
            result == (VertexArrayId { stamp, slot, generation }),
    {
        VertexArrayId { stamp, slot, generation }
    }
}

/// The handle of one framebuffer object of one context generation.
#[derive(Clone, Copy, Debug, PartialEq, Eq, Structural)]
pub struct FramebufferId {
    pub stamp: ContextStamp,
    pub slot: u32,
    pub generation: u32,
}

impl FramebufferId {
    pub fn new(stamp: ContextStamp, slot: u32, generation: u32) -> (result: Self)
        ensures
            result == (FramebufferId { stamp, slot, generation }),
    {
        FramebufferId { stamp, slot, generation }
    }
}

/// The handle of one query object of one context generation.
#[derive(Clone, Copy, Debug, PartialEq, Eq, Structural)]
pub struct QueryId {
    pub stamp: ContextStamp,
    pub slot: u32,
    pub generation: u32,
}

impl QueryId {
    pub fn new(stamp: ContextStamp, slot: u32, generation: u32) -> (result: Self)
        ensures
            result == (QueryId { stamp, slot, generation }),
    {
        QueryId { stamp, slot, generation }
    }
}

/// The handle of one fence of one context generation.
#[derive(Clone, Copy, Debug, PartialEq, Eq, Structural)]
pub struct SyncId {
    pub stamp: ContextStamp,
    pub slot: u32,
    pub generation: u32,
}

impl SyncId {
    pub fn new(stamp: ContextStamp, slot: u32, generation: u32) -> (result: Self)
        ensures
            result == (SyncId { stamp, slot, generation }),
    {
        SyncId { stamp, slot, generation }
    }
}

} // verus!
