use vstd::prelude::*;

verus! {

/// `DQTYPE_THREAD_DEDICATED`: the queue runs on a thread of its own.
pub const DQTYPE_THREAD_DEDICATED: i32 = 1;

/// `DQTYPE_THREAD_CURRENT`: the queue runs on the calling thread.
pub const DQTYPE_THREAD_CURRENT: i32 = 2;

/// `DQTAT_COM_NONE`: COM is not initialized on the queue's thread.
pub const DQTAT_COM_NONE: i32 = 0;

/// `DQTAT_COM_ASTA`: an application single-threaded apartment.
pub const DQTAT_COM_ASTA: i32 = 1;

/// `DQTAT_COM_STA`: a single-threaded apartment.
pub const DQTAT_COM_STA: i32 = 2;

/// The byte size of `DispatcherQueueOptions`, a `#[repr(C)]` struct of
/// three 32-bit fields.
pub const DISPATCHER_QUEUE_OPTIONS_SIZE: u32 = 12;

/// The options a dispatcher queue controller is created with
/// (`DispatcherQueueOptions`).
#[derive(Clone, Copy, Debug, PartialEq, Eq, Structural)]
pub struct DispatcherQueueOptionsDesc {
    /// `dwSize`: the byte size of the options structure.
    pub size: u32,
    /// A `DISPATCHERQUEUE_THREAD_TYPE` value.
    pub thread_type: i32,
    /// A `DISPATCHERQUEUE_THREAD_APARTMENTTYPE` value.
    pub apartment_type: i32,
}

/// `std::mem::size_of::<DispatcherQueueOptions>()`: the struct is
/// `#[repr(C)]` with a `u32` and two `#[repr(transparent)]` `i32` fields, so
/// its size is 12 bytes, which fits in a `u32`.
#[verifier::external_body]
fn dispatcher_queue_options_size() -> (size: u32)
    ensures
        size == DISPATCHER_QUEUE_OPTIONS_SIZE,
{
    std::mem::size_of::<windows::Win32::System::WinRT::DispatcherQueueOptions>() as u32
}

/// The options for a controller of a queue on a thread of the given type
/// and apartment type; the size field holds the size of the structure.
pub fn dispatcher_queue_options(thread_type: i32, apartment_type: i32) -> (options:
    DispatcherQueueOptionsDesc)
    ensures
        options == (DispatcherQueueOptionsDesc {
            size: DISPATCHER_QUEUE_OPTIONS_SIZE,
            thread_type,
            apartment_type,
        }),
{
    DispatcherQueueOptionsDesc {
        size: dispatcher_queue_options_size(),
        thread_type,
        apartment_type,
    }
}

/// The options for a controller of a queue on the calling thread, without
/// COM initialization.
pub fn current_thread_dispatcher_queue_options() -> (options: DispatcherQueueOptionsDesc)
    ensures
        options == (DispatcherQueueOptionsDesc {
            size: DISPATCHER_QUEUE_OPTIONS_SIZE,
            thread_type: DQTYPE_THREAD_CURRENT,
            apartment_type: DQTAT_COM_NONE,
        }),
{
    dispatcher_queue_options(DQTYPE_THREAD_CURRENT, DQTAT_COM_NONE)
}

} // verus!
