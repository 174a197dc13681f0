//! A mathematical model of the device: the life cycle of command buffers and
//! the bytes of buffers.

use crate::device::{HalaCommand, HalaDeviceCall};
use vstd::prelude::*;

verus! {

/// The lifecycle of a command buffer.
pub enum HalaCommandBufferState {
    /// Never begun, or reset: nothing is recorded.
    Initial,
    /// Begun and not yet ended: commands are being recorded.
    Recording,
    /// Ended: ready to be submitted.
    Executable,
    /// Submitted and not yet known to have completed.
    Pending,
}

/// What the device holds of one command buffer.
pub struct HalaCommandBufferModel {
    pub state: HalaCommandBufferState,
    /// The commands recorded since the buffer was last begun.
    pub commands: Seq<HalaDeviceCall>,
    /// The fence that the pending submission signals; zero for none.
    pub fence: u64,
}

/// A mathematical model of the device as far as this layer's protocols
/// depend on it: the lifecycle of each command buffer and the bytes of each
/// buffer.
pub struct HalaDeviceModel {
    pub command_buffers: Map<u64, HalaCommandBufferModel>,
    pub buffers: Map<u64, Seq<u8>>,
}

/// A command buffer in which nothing is recorded.
pub open spec fn spec_initial_command_buffer() -> HalaCommandBufferModel {
    HalaCommandBufferModel {
        state: HalaCommandBufferState::Initial,
        commands: Seq::empty(),
        fence: 0,
    }
}

/// The bytes of `dst` after `size` bytes of `src` from `src_offset` on have
/// been written over it from `dst_offset` on.
pub open spec fn spec_copy_bytes(
    dst: Seq<u8>,
    dst_offset: int,
    src: Seq<u8>,
    src_offset: int,
    size: int,
) -> Seq<u8> {
    dst.subrange(0, dst_offset) + src.subrange(src_offset, src_offset + size) + dst.subrange(
        dst_offset + size,
        dst.len() as int,
    )
}

/// Whether a copy between two buffers stays inside both of them.
pub open spec fn spec_copy_in_range(
    buffers: Map<u64, Seq<u8>>,
    src_buffer: u64,
    dst_buffer: u64,
    src_offset: u64,
    dst_offset: u64,
    size: u64,
) -> bool {
    &&& buffers.dom().contains(src_buffer)
    &&& buffers.dom().contains(dst_buffer)
    &&& src_offset + size <= buffers[src_buffer].len()
    &&& dst_offset + size <= buffers[dst_buffer].len()
}

/// What one recorded command does to the bytes of the buffers when the
/// device executes it. A buffer copy that stays in range moves its bytes;
/// no other command touches the bytes of a buffer in this model.
pub open spec fn spec_execute_command(buffers: Map<u64, Seq<u8>>, call: HalaDeviceCall) -> Map<
    u64,
    Seq<u8>,
> {
    match call {
        HalaDeviceCall::Record {
            command: HalaCommand::CopyBuffer { src_buffer, dst_buffer, src_offset, dst_offset, size },
            ..
        } => {
            if spec_copy_in_range(buffers, src_buffer, dst_buffer, src_offset, dst_offset, size) {
                buffers.insert(
                    dst_buffer,
                    spec_copy_bytes(
                        buffers[dst_buffer],
                        dst_offset as int,
                        buffers[src_buffer],
                        src_offset as int,
                        size as int,
                    ),
                )
            } else {
                buffers
            }
        },
        _ => buffers,
    }
}

/// What a list of recorded commands does to the bytes of the buffers,
/// executed in order.
pub open spec fn spec_execute_commands(buffers: Map<u64, Seq<u8>>, commands: Seq<HalaDeviceCall>) -> Map<
    u64,
    Seq<u8>,
>
    decreases commands.len(),
{
    if commands.len() == 0 {
        buffers
    } else {
        spec_execute_command(
            spec_execute_commands(buffers, commands.drop_last()),
            commands.last(),
        )
    }
}

/// The command buffers after every pending submission that signals `fence`
/// has completed.
pub open spec fn spec_complete_fence(
    command_buffers: Map<u64, HalaCommandBufferModel>,
    fence: u64,
) -> Map<u64, HalaCommandBufferModel> {
    Map::new(
        |handle: u64| command_buffers.dom().contains(handle),
        |handle: u64|
            if command_buffers[handle].state is Pending && command_buffers[handle].fence == fence {
                HalaCommandBufferModel {
                    state: HalaCommandBufferState::Executable,
                    commands: command_buffers[handle].commands,
                    fence: 0,
                }
            } else {
                command_buffers[handle]
            },
    )
}

/// The command buffers after every pending submission has completed.
pub open spec fn spec_complete_all(command_buffers: Map<u64, HalaCommandBufferModel>) -> Map<
    u64,
    HalaCommandBufferModel,
> {
    Map::new(
        |handle: u64| command_buffers.dom().contains(handle),
        |handle: u64|
            if command_buffers[handle].state is Pending {
                HalaCommandBufferModel {
                    state: HalaCommandBufferState::Executable,
                    commands: command_buffers[handle].commands,
                    fence: 0,
                }
            } else {
                command_buffers[handle]
            },
    )
}

impl HalaDeviceModel {
    /// Every command buffer in the initial state holds no command.
    pub open spec fn wf(self) -> bool {
        forall|handle: u64| #[trigger]
            self.command_buffers.dom().contains(handle)
                && self.command_buffers[handle].state is Initial
                ==> self.command_buffers[handle] == spec_initial_command_buffer()
    }

    /// Whether the device knows the command buffer and holds it in `state`.
    pub open spec fn spec_in_state(self, command_buffer: u64, state: HalaCommandBufferState) -> bool {
        self.command_buffers.dom().contains(command_buffer)
            && self.command_buffers[command_buffer].state == state
    }

    /// Whether the device knows the command buffer and no submission of it
    /// is pending.
    pub open spec fn spec_not_in_flight(self, command_buffer: u64) -> bool {
        self.command_buffers.dom().contains(command_buffer)
            && !(self.command_buffers[command_buffer].state is Pending)
    }

    /// Whether the rules of the driver allow the call in this state of the
    /// device: a command buffer is begun or reset only while no submission
    /// of it is pending, recorded into and ended only while recording, and
    /// submitted only once it has been ended.
    pub open spec fn spec_allows(self, call: HalaDeviceCall) -> bool {
        match call {
            HalaDeviceCall::BeginCommandBuffer { command_buffer, .. } => {
                self.spec_not_in_flight(command_buffer) && !(
                self.command_buffers[command_buffer].state is Recording)
            },
            HalaDeviceCall::ResetCommandBuffer { command_buffer, .. } => self.spec_not_in_flight(
                command_buffer,
            ),
            HalaDeviceCall::EndCommandBuffer { command_buffer } => self.spec_in_state(
                command_buffer,
                HalaCommandBufferState::Recording,
            ),
            HalaDeviceCall::QueueSubmit { command_buffer, .. } => self.spec_in_state(
                command_buffer,
                HalaCommandBufferState::Executable,
            ),
            _ => if call.spec_is_command() {
                self.spec_in_state(call.spec_command_buffer(), HalaCommandBufferState::Recording)
            } else {
                true
            },
        }
    }

    /// The device after one call that its rules allow; a call that they do
    /// not allow leaves the model as it is.
    pub open spec fn spec_step(self, call: HalaDeviceCall) -> HalaDeviceModel {
        if !self.spec_allows(call) {
            self
        } else {
            match call {
                HalaDeviceCall::BeginCommandBuffer { command_buffer, .. } => HalaDeviceModel {
                    command_buffers: self.command_buffers.insert(
                        command_buffer,
                        HalaCommandBufferModel {
                            state: HalaCommandBufferState::Recording,
                            commands: Seq::empty(),
                            fence: 0,
                        },
                    ),
                    ..self
                },
                HalaDeviceCall::EndCommandBuffer { command_buffer } => HalaDeviceModel {
                    command_buffers: self.command_buffers.insert(
                        command_buffer,
                        HalaCommandBufferModel {
                            state: HalaCommandBufferState::Executable,
                            commands: self.command_buffers[command_buffer].commands,
                            fence: 0,
                        },
                    ),
                    ..self
                },
                HalaDeviceCall::ResetCommandBuffer { command_buffer, .. } => HalaDeviceModel {
                    command_buffers: self.command_buffers.insert(
                        command_buffer,
                        spec_initial_command_buffer(),
                    ),
                    ..self
                },
                HalaDeviceCall::QueueSubmit { command_buffer, fence, .. } => HalaDeviceModel {
                    command_buffers: self.command_buffers.insert(
                        command_buffer,
                        HalaCommandBufferModel {
                            state: HalaCommandBufferState::Pending,
                            commands: self.command_buffers[command_buffer].commands,
                            fence,
                        },
                    ),
                    buffers: spec_execute_commands(
                        self.buffers,
                        self.command_buffers[command_buffer].commands,
                    ),
                },
                HalaDeviceCall::QueueWaitIdle { .. } | HalaDeviceCall::DeviceWaitIdle => HalaDeviceModel {
                    command_buffers: spec_complete_all(self.command_buffers),
                    ..self
                },
                HalaDeviceCall::WaitForFence { fence, .. } => HalaDeviceModel {
                    command_buffers: spec_complete_fence(self.command_buffers, fence),
                    ..self
                },
                _ => if call.spec_is_command() {
                    let command_buffer = call.spec_command_buffer();
                    HalaDeviceModel {
                        command_buffers: self.command_buffers.insert(
                            command_buffer,
                            HalaCommandBufferModel {
                                state: HalaCommandBufferState::Recording,
                                commands: self.command_buffers[command_buffer].commands.push(call),
                                fence: 0,
                            },
                        ),
                        ..self
                    }
                } else {
                    self
                },
            }
        }
    }

    /// The device after a list of calls, made in order.
    pub open spec fn spec_run(self, calls: Seq<HalaDeviceCall>) -> HalaDeviceModel
        decreases calls.len(),
    {
        if calls.len() == 0 {
            self
        } else {
            self.spec_run(calls.drop_last()).spec_step(calls.last())
        }
    }

    /// Whether the rules of the driver allow each call of the list at the
    /// moment when it is made.
    pub open spec fn spec_allows_all(self, calls: Seq<HalaDeviceCall>) -> bool
        decreases calls.len(),
    {
        if calls.len() == 0 {
            true
        } else {
            self.spec_allows_all(calls.drop_last()) && self.spec_run(calls.drop_last()).spec_allows(
                calls.last(),
            )
        }
    }
}

/// Whether every call of the list records a command into `command_buffer`.
pub open spec fn spec_is_recording_for(commands: Seq<HalaDeviceCall>, command_buffer: u64) -> bool {
    forall|i: int|
        0 <= i < commands.len() ==> (#[trigger] commands[i]).spec_is_command()
            && commands[i].spec_command_buffer() == command_buffer
}

/// Making no call leaves the device as it is, and the rules allow it.
pub proof fn lemma_run_empty(device: HalaDeviceModel)
    ensures
        device.spec_run(Seq::empty()) == device,
        device.spec_allows_all(Seq::empty()),
{
}

/// One more call at the end of a list is one more step of the device.
pub proof fn lemma_run_push(device: HalaDeviceModel, calls: Seq<HalaDeviceCall>, call: HalaDeviceCall)
    ensures
        device.spec_run(calls.push(call)) == device.spec_run(calls).spec_step(call),
        device.spec_allows_all(calls.push(call)) == (device.spec_allows_all(calls)
            && device.spec_run(calls).spec_allows(call)),
{
    assert(calls.push(call).drop_last() =~= calls);
}

/// Resetting a command buffer that was never begun changes nothing.
pub proof fn lemma_reset_of_initial_is_noop(
    device: HalaDeviceModel,
    command_buffer: u64,
    release_resources: bool,
)
    requires
        device.wf(),
        device.spec_in_state(command_buffer, HalaCommandBufferState::Initial),
    ensures
        device.spec_step(HalaDeviceCall::ResetCommandBuffer { command_buffer, release_resources })
            == device,
{
    let call = HalaDeviceCall::ResetCommandBuffer { command_buffer, release_resources };
    assert(device.command_buffers.insert(command_buffer, spec_initial_command_buffer())
        =~= device.command_buffers);
}

/// Running two lists of calls one after the other is running their
/// concatenation.
pub proof fn lemma_run_concat(
    device: HalaDeviceModel,
    first: Seq<HalaDeviceCall>,
    second: Seq<HalaDeviceCall>,
)
    ensures
        device.spec_run(first + second) == device.spec_run(first).spec_run(second),
    decreases second.len(),
{
    if second.len() == 0 {
    } else {
        assert((first + second).drop_last() =~= first + second.drop_last());
        lemma_run_concat(device, first, second.drop_last());
    }
}

/// Executing two lists of commands one after the other is executing their
/// concatenation.
pub proof fn lemma_execute_concat(
    buffers: Map<u64, Seq<u8>>,
    first: Seq<HalaDeviceCall>,
    second: Seq<HalaDeviceCall>,
)
    ensures
        spec_execute_commands(buffers, first + second) == spec_execute_commands(
            spec_execute_commands(buffers, first),
            second,
        ),
    decreases second.len(),
{
    if second.len() == 0 {
    } else {
        assert((first + second).drop_last() =~= first + second.drop_last());
        lemma_execute_concat(buffers, first, second.drop_last());
    }
}

/// Recording a list of commands into a command buffer that is recording
/// appends the list to what the buffer holds and touches nothing else.
pub proof fn lemma_run_recording(
    device: HalaDeviceModel,
    command_buffer: u64,
    commands: Seq<HalaDeviceCall>,
)
    requires
        device.spec_in_state(command_buffer, HalaCommandBufferState::Recording),
        device.command_buffers[command_buffer].fence == 0,
        spec_is_recording_for(commands, command_buffer),
    ensures
        device.spec_allows_all(commands),
        device.spec_run(commands) == (HalaDeviceModel {
            command_buffers: device.command_buffers.insert(
                command_buffer,
                HalaCommandBufferModel {
                    state: HalaCommandBufferState::Recording,
                    commands: device.command_buffers[command_buffer].commands + commands,
                    fence: 0,
                },
            ),
            ..device
        }),
    decreases commands.len(),
{
    let held = device.command_buffers[command_buffer];
    if commands.len() == 0 {
        assert(device.command_buffers.insert(
            command_buffer,
            HalaCommandBufferModel {
                state: HalaCommandBufferState::Recording,
                commands: held.commands + commands,
                fence: 0,
            },
        ) =~= device.command_buffers);
    } else {
        let front = commands.drop_last();
        let last = commands.last();
        assert(spec_is_recording_for(front, command_buffer));
        lemma_run_recording(device, command_buffer, front);
        let middle = device.spec_run(front);
        assert((held.commands + front).push(last) =~= held.commands + commands);
        assert(middle.command_buffers.insert(
            command_buffer,
            HalaCommandBufferModel {
                state: HalaCommandBufferState::Recording,
                commands: middle.command_buffers[command_buffer].commands.push(last),
                fence: 0,
            },
        ) =~= device.command_buffers.insert(
            command_buffer,
            HalaCommandBufferModel {
                state: HalaCommandBufferState::Recording,
                commands: held.commands + commands,
                fence: 0,
            },
        ));
    }
}

} // verus!
