//! The command pools of the three queue families.

use crate::command_buffer::HalaCommandBufferType;
use crate::device::{HalaDeviceCall, HalaObjectKind};
use vstd::prelude::*;

verus! {

/// The command pools: one pool for each of the three queue families.
#[derive(Clone, Copy, PartialEq, Eq, Structural, Debug)]
pub struct HalaCommandPools {
    pub graphics: u64,
    pub compute: u64,
    pub transfer: u64,
}

/// The raw flag of a command pool whose command buffers live shortly.
pub const COMMAND_POOL_TRANSIENT: u32 = 0x1;

/// The raw flag of a command pool whose command buffers are reset one by
/// one.
pub const COMMAND_POOL_RESET_COMMAND_BUFFER: u32 = 0x2;

impl HalaCommandPools {
    /// The pool that command buffers of a type are returned to, if the type
    /// is one of the three that exist.
    pub open spec fn spec_pool_for(self, buffer_type: HalaCommandBufferType) -> Option<u64> {
        if buffer_type.0 == HalaCommandBufferType::GRAPHICS {
            Some(self.graphics)
        } else if buffer_type.0 == HalaCommandBufferType::TRANSFER {
            Some(self.transfer)
        } else if buffer_type.0 == HalaCommandBufferType::COMPUTE {
            Some(self.compute)
        } else {
            None
        }
    }

    /// The record of the three pools that were created with the given
    /// handles.
    pub fn new(graphics: u64, compute: u64, transfer: u64) -> (pools: Self)
        ensures
            pools == (HalaCommandPools { graphics, compute, transfer }),
    {
        HalaCommandPools { graphics, compute, transfer }
    }

    /// The raw flags that the pools are created with: transient for pools
    /// of short-lived commands, resettable command buffers for the others.
    pub fn create_flags(is_short_time: bool) -> (flags: u32)
        ensures
            flags == if is_short_time {
                COMMAND_POOL_TRANSIENT
            } else {
                COMMAND_POOL_RESET_COMMAND_BUFFER
            },
    {
        if is_short_time {
            COMMAND_POOL_TRANSIENT
        } else {
            COMMAND_POOL_RESET_COMMAND_BUFFER
        }
    }

    /// The pool that command buffers of a type are returned to, if the type
    /// is one of the three that exist.
    pub fn pool_for(&self, buffer_type: HalaCommandBufferType) -> (pool: Option<u64>)
        ensures
            pool == self.spec_pool_for(buffer_type),
    {
        let raw: i32 = buffer_type.as_raw();
        if raw == HalaCommandBufferType::GRAPHICS {
            Some(self.graphics)
        } else if raw == HalaCommandBufferType::TRANSFER {
            Some(self.transfer)
        } else if raw == HalaCommandBufferType::COMPUTE {
            Some(self.compute)
        } else {
            None
        }
    }

    /// The pool that command buffers of a type are taken from: the pool of
    /// the type, the graphics pool standing in for an unknown type.
    pub fn allocation_pool(&self, buffer_type: HalaCommandBufferType) -> (pool: u64)
        ensures
            pool == match self.spec_pool_for(buffer_type) {
                Some(pool) => pool,
                None => self.graphics,
            },
    {
        match self.pool_for(buffer_type) {
            Some(pool) => pool,
            None => self.graphics,
        }
    }

    /// The calls that give the pools up: the graphics pool, the compute
    /// pool, the transfer pool.
    pub fn destroy(self) -> (calls: Vec<HalaDeviceCall>)
        ensures
            calls@ == seq![
                HalaDeviceCall::Destroy {
                    kind: HalaObjectKind::CommandPool,
                    handle: self.graphics,
                },
                HalaDeviceCall::Destroy { kind: HalaObjectKind::CommandPool, handle: self.compute },
                HalaDeviceCall::Destroy {
                    kind: HalaObjectKind::CommandPool,
                    handle: self.transfer,
                },
            ],
    {
        let mut calls: Vec<HalaDeviceCall> = Vec::new();
        calls.push(HalaDeviceCall::Destroy {
            kind: HalaObjectKind::CommandPool,
            handle: self.graphics,
        });
        calls.push(HalaDeviceCall::Destroy {
            kind: HalaObjectKind::CommandPool,
            handle: self.compute,
        });
        calls.push(HalaDeviceCall::Destroy {
            kind: HalaObjectKind::CommandPool,
            handle: self.transfer,
        });
        calls
    }
}

} // verus!
