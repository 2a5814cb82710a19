//! The tracer's registry of resource type codes.
//!
//! A code is an unsigned 32-bit number made of a resource class in the upper
//! sixteen bits and an index within that class in the lower sixteen. The
//! registry belongs to the tracer: the constants here repeat its codes and add
//! none.

use vstd::prelude::*;

verus! {

/// The class of resources that belong to no particular API.
pub const CLASS_GENERIC: u32 = 1;

/// The class of POSIX thread synchronization objects.
pub const CLASS_SYNC_PTHREAD: u32 = 3;

/// The class of GPU driver resources.
pub const CLASS_CUDA: u32 = 4;

/// The class of GPU runtime resources.
pub const CLASS_CUDART: u32 = 5;

/// No resource: the code of an identifier that was never set.
pub const UNKNOWN: u32 = 0;

/// A pointer to a generic resource.
pub const GENERIC_POINTER: u32 = 0x0001_0001;

/// A handle to a generic resource.
pub const GENERIC_HANDLE: u32 = 0x0001_0002;

/// A pthread mutex.
pub const PTHREAD_MUTEX: u32 = 0x0003_0001;

/// A pthread condition variable.
pub const PTHREAD_CONDITION: u32 = 0x0003_0002;

/// A pthread read/write lock.
pub const PTHREAD_RWLOCK: u32 = 0x0003_0003;

/// A pthread barrier.
pub const PTHREAD_BARRIER: u32 = 0x0003_0004;

/// A pthread spinlock.
pub const PTHREAD_SPINLOCK: u32 = 0x0003_0005;

/// A pthread one-time-initialization guard.
pub const PTHREAD_ONCE: u32 = 0x0003_0006;

/// A GPU driver context.
pub const CUDA_CONTEXT: u32 = 0x0004_0002;

/// A GPU driver stream.
pub const CUDA_STREAM: u32 = 0x0004_0003;

/// A GPU driver event.
pub const CUDA_EVENT: u32 = 0x0004_0004;

/// A GPU runtime device.
pub const CUDART_DEVICE: u32 = 0x0005_0000;

/// A GPU runtime stream.
pub const CUDART_STREAM: u32 = 0x0005_0001;

/// A GPU runtime event.
pub const CUDART_EVENT: u32 = 0x0005_0002;

/// The code that the registry forms from a class and an index within it.
pub open spec fn make_type(class: u32, index: int) -> int {
    class * 0x1_0000 + index
}

/// The resource codes whose payload is the integer field: a generic handle
/// and a runtime device are numbers.
pub open spec fn selects_integer(code: u32) -> bool {
    code == GENERIC_HANDLE || code == CUDART_DEVICE
}

/// The resource codes whose payload is the pointer field: the address of the
/// resource.
pub open spec fn selects_pointer(code: u32) -> bool {
    ||| code == GENERIC_POINTER
    ||| code == PTHREAD_MUTEX
    ||| code == PTHREAD_CONDITION
    ||| code == PTHREAD_RWLOCK
    ||| code == PTHREAD_BARRIER
    ||| code == PTHREAD_SPINLOCK
    ||| code == PTHREAD_ONCE
    ||| code == CUDA_CONTEXT
    ||| code == CUDA_STREAM
    ||| code == CUDA_EVENT
    ||| code == CUDART_STREAM
    ||| code == CUDART_EVENT
}

/// The codes that name a resource. `UNKNOWN` is none of them.
pub open spec fn is_resource_code(code: u32) -> bool {
    selects_integer(code) || selects_pointer(code)
}

/// Every code is the registry's combination of its class and its index,
/// `UNKNOWN` is the code of no resource, and no code selects both fields of
/// the payload.
pub proof fn lemma_codes_follow_registry()
    ensures
        UNKNOWN == 0,
        GENERIC_POINTER == make_type(CLASS_GENERIC, 1),
        GENERIC_HANDLE == make_type(CLASS_GENERIC, 2),
        PTHREAD_MUTEX == make_type(CLASS_SYNC_PTHREAD, 1),
        PTHREAD_CONDITION == make_type(CLASS_SYNC_PTHREAD, 2),
        PTHREAD_RWLOCK == make_type(CLASS_SYNC_PTHREAD, 3),
        PTHREAD_BARRIER == make_type(CLASS_SYNC_PTHREAD, 4),
        PTHREAD_SPINLOCK == make_type(CLASS_SYNC_PTHREAD, 5),
        PTHREAD_ONCE == make_type(CLASS_SYNC_PTHREAD, 6),
        CUDA_CONTEXT == make_type(CLASS_CUDA, 2),
        CUDA_STREAM == make_type(CLASS_CUDA, 3),
        CUDA_EVENT == make_type(CLASS_CUDA, 4),
        CUDART_DEVICE == make_type(CLASS_CUDART, 0),
        CUDART_STREAM == make_type(CLASS_CUDART, 1),
        CUDART_EVENT == make_type(CLASS_CUDART, 2),
        !is_resource_code(UNKNOWN),
        forall|code: u32| !(#[trigger] selects_integer(code) && selects_pointer(code)),
{
}

} // verus!
