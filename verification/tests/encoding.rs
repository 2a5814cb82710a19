use resource_identifier::resource_type;
use resource_identifier::{
    CudaIdentifier, CudaRuntimeIdentifier, GenericIdentifier, Identifier, PThreadIdentifier,
    ResourceValue, TypeValueEncodable,
};

#[test]
fn generic_handle_encodes_to_its_number() {
    let id = GenericIdentifier::Handle(42);
    assert_eq!(
        id.encode(),
        (resource_type::GENERIC_HANDLE, ResourceValue::Integer(42))
    );
    assert_eq!(
        Identifier::from(id).encode(),
        (0x0001_0002, ResourceValue::Integer(42))
    );
}

#[test]
fn generic_handle_keeps_all_64_bits() {
    assert_eq!(
        GenericIdentifier::Handle(u64::MAX).encode(),
        (resource_type::GENERIC_HANDLE, ResourceValue::Integer(u64::MAX))
    );
    assert_eq!(
        GenericIdentifier::Handle(0).encode(),
        (resource_type::GENERIC_HANDLE, ResourceValue::Integer(0))
    );
}

#[test]
fn generic_pointer_encodes_to_its_address() {
    let address: usize = 0x7ffd_4000;
    assert_eq!(
        GenericIdentifier::Pointer(address).encode(),
        (resource_type::GENERIC_POINTER, ResourceValue::Pointer(address))
    );
    assert_eq!(
        Identifier::Generic(GenericIdentifier::Pointer(0x10)).encode(),
        (0x0001_0001, ResourceValue::Pointer(0x10))
    );
}

#[test]
fn mutex_encodes_to_its_address() {
    let id = PThreadIdentifier::Mutex(0xAB00);
    assert_eq!(
        id.encode(),
        (resource_type::PTHREAD_MUTEX, ResourceValue::Pointer(0xAB00))
    );
    assert_eq!(
        Identifier::from(id).encode(),
        (0x0003_0001, ResourceValue::Pointer(0xAB00))
    );
}

#[test]
fn each_pthread_kind_has_its_own_code() {
    let a: usize = 0x7f00_1000;
    assert_eq!(
        PThreadIdentifier::Mutex(a).encode(),
        (0x0003_0001, ResourceValue::Pointer(a))
    );
    assert_eq!(
        PThreadIdentifier::Condition(a).encode(),
        (0x0003_0002, ResourceValue::Pointer(a))
    );
    assert_eq!(
        PThreadIdentifier::RWLock(a).encode(),
        (0x0003_0003, ResourceValue::Pointer(a))
    );
    assert_eq!(
        PThreadIdentifier::Barrier(a).encode(),
        (0x0003_0004, ResourceValue::Pointer(a))
    );
    assert_eq!(
        PThreadIdentifier::Spinlock(a).encode(),
        (0x0003_0005, ResourceValue::Pointer(a))
    );
    assert_eq!(
        PThreadIdentifier::Once(a).encode(),
        (0x0003_0006, ResourceValue::Pointer(a))
    );
}

#[test]
fn each_gpu_driver_kind_has_its_own_code() {
    assert_eq!(
        CudaIdentifier::Context(0x1000).encode(),
        (0x0004_0002, ResourceValue::Pointer(0x1000))
    );
    assert_eq!(
        CudaIdentifier::Stream(0x2000).encode(),
        (0x0004_0003, ResourceValue::Pointer(0x2000))
    );
    assert_eq!(
        CudaIdentifier::Event(0x3000).encode(),
        (0x0004_0004, ResourceValue::Pointer(0x3000))
    );
}

#[test]
fn each_gpu_runtime_kind_has_its_own_code() {
    assert_eq!(
        CudaRuntimeIdentifier::Device(3).encode(),
        (0x0005_0000, ResourceValue::Integer(3))
    );
    assert_eq!(
        CudaRuntimeIdentifier::Stream(0x2000).encode(),
        (0x0005_0001, ResourceValue::Pointer(0x2000))
    );
    assert_eq!(
        CudaRuntimeIdentifier::Event(0x3000).encode(),
        (0x0005_0002, ResourceValue::Pointer(0x3000))
    );
}

#[test]
fn device_ordinal_fills_the_integer_field() {
    assert_eq!(
        CudaRuntimeIdentifier::Device(0).encode(),
        (resource_type::CUDART_DEVICE, ResourceValue::Integer(0))
    );
    assert_eq!(
        CudaRuntimeIdentifier::Device(i32::MAX).encode(),
        (resource_type::CUDART_DEVICE, ResourceValue::Integer(0x7fff_ffff))
    );
    assert_eq!(
        CudaRuntimeIdentifier::Device(-1).encode(),
        (resource_type::CUDART_DEVICE, ResourceValue::Integer(u64::MAX))
    );
    assert_eq!(
        CudaRuntimeIdentifier::Device(i32::MIN).encode(),
        (
            resource_type::CUDART_DEVICE,
            ResourceValue::Integer(0xffff_ffff_8000_0000)
        )
    );
}

#[test]
fn default_encoding_is_unknown_and_zero() {
    let unset = (resource_type::UNKNOWN, ResourceValue::Integer(0));
    assert_eq!(resource_type::UNKNOWN, 0);
    assert_eq!(Identifier::default_encoding(), unset);
    assert_eq!(GenericIdentifier::default_encoding(), unset);
    assert_eq!(PThreadIdentifier::default_encoding(), unset);
    assert_eq!(CudaIdentifier::default_encoding(), unset);
    assert_eq!(CudaRuntimeIdentifier::default_encoding(), unset);
    assert_eq!(resource_identifier::identifier::unset(), unset);
}

#[test]
fn default_encoding_is_no_identifier_s_encoding() {
    let unset = Identifier::default_encoding();
    assert_ne!(Identifier::from(GenericIdentifier::Handle(0)).encode(), unset);
    assert_ne!(Identifier::from(GenericIdentifier::Pointer(0)).encode(), unset);
    assert_ne!(Identifier::from(PThreadIdentifier::Mutex(0)).encode(), unset);
    assert_ne!(Identifier::from(CudaIdentifier::Context(0)).encode(), unset);
    assert_ne!(
        Identifier::from(CudaRuntimeIdentifier::Device(0)).encode(),
        unset
    );
}

#[test]
fn wrapping_does_not_change_the_encoding() {
    let generic = [GenericIdentifier::Pointer(0xdead_0000), GenericIdentifier::Handle(9)];
    for g in generic {
        assert_eq!(Identifier::from(g).encode(), g.encode());
        assert_eq!(Identifier::Generic(g).encode(), g.encode());
    }
    let pthread = [
        PThreadIdentifier::Mutex(0x100),
        PThreadIdentifier::Condition(0x200),
        PThreadIdentifier::RWLock(0x300),
        PThreadIdentifier::Barrier(0x400),
        PThreadIdentifier::Spinlock(0x500),
        PThreadIdentifier::Once(0x600),
    ];
    for p in pthread {
        assert_eq!(Identifier::from(p).encode(), p.encode());
        assert_eq!(Identifier::PThread(p).encode(), p.encode());
    }
    let cuda = [
        CudaIdentifier::Context(0x700),
        CudaIdentifier::Stream(0x800),
        CudaIdentifier::Event(0x900),
    ];
    for c in cuda {
        assert_eq!(Identifier::from(c).encode(), c.encode());
        assert_eq!(Identifier::Cuda(c).encode(), c.encode());
    }
    let runtime = [
        CudaRuntimeIdentifier::Device(1),
        CudaRuntimeIdentifier::Stream(0xa00),
        CudaRuntimeIdentifier::Event(0xb00),
    ];
    for c in runtime {
        assert_eq!(Identifier::from(c).encode(), c.encode());
        assert_eq!(Identifier::CudaRuntime(c).encode(), c.encode());
    }
}

#[test]
fn wrapping_keeps_the_value() {
    let p = PThreadIdentifier::Barrier(0x44);
    assert_eq!(Identifier::from(p), Identifier::PThread(p));
    let id: Identifier = GenericIdentifier::Handle(5).into();
    assert_eq!(id, Identifier::Generic(GenericIdentifier::Handle(5)));
    let id: Identifier = CudaIdentifier::Event(6).into();
    assert_eq!(id, Identifier::Cuda(CudaIdentifier::Event(6)));
    let id: Identifier = CudaRuntimeIdentifier::Device(7).into();
    assert_eq!(id, Identifier::CudaRuntime(CudaRuntimeIdentifier::Device(7)));
}

#[test]
fn two_mutexes_share_the_code_and_differ_in_the_payload() {
    let a = PThreadIdentifier::Mutex(0xAB00);
    let b = PThreadIdentifier::Mutex(0xAB40);
    let (code_a, payload_a) = a.encode();
    let (code_b, payload_b) = b.encode();
    assert_eq!(code_a, resource_type::PTHREAD_MUTEX);
    assert_eq!(code_a, code_b);
    assert_eq!(payload_a, ResourceValue::Pointer(0xAB00));
    assert_eq!(payload_b, ResourceValue::Pointer(0xAB40));
    assert_ne!(payload_a, payload_b);
}

#[test]
fn one_reference_encodes_the_same_each_time() {
    let id = PThreadIdentifier::Mutex(0xAB00);
    let wrapped = Identifier::from(id);
    assert_eq!(id.encode(), id.encode());
    assert_eq!(wrapped.encode(), wrapped.encode());
    assert_eq!(wrapped.encode(), id.encode());
}

#[test]
fn one_address_under_two_kinds_differs_in_the_code() {
    let (mutex_code, mutex_payload) = PThreadIdentifier::Mutex(0x5000).encode();
    let (once_code, once_payload) = PThreadIdentifier::Once(0x5000).encode();
    assert_ne!(mutex_code, once_code);
    assert_eq!(mutex_payload, once_payload);
    assert_ne!(
        Identifier::from(GenericIdentifier::Pointer(0x5000)).encode(),
        Identifier::from(PThreadIdentifier::Mutex(0x5000)).encode()
    );
    assert_ne!(
        Identifier::from(CudaIdentifier::Stream(0x5000)).encode(),
        Identifier::from(CudaRuntimeIdentifier::Stream(0x5000)).encode()
    );
}

#[test]
fn codes_combine_class_and_index() {
    let code = |class: u32, index: u32| (class << 16) | index;
    assert_eq!(resource_type::CLASS_GENERIC, 1);
    assert_eq!(resource_type::CLASS_SYNC_PTHREAD, 3);
    assert_eq!(resource_type::CLASS_CUDA, 4);
    assert_eq!(resource_type::CLASS_CUDART, 5);
    assert_eq!(resource_type::GENERIC_POINTER, code(1, 1));
    assert_eq!(resource_type::GENERIC_HANDLE, code(1, 2));
    assert_eq!(resource_type::PTHREAD_MUTEX, code(3, 1));
    assert_eq!(resource_type::PTHREAD_CONDITION, code(3, 2));
    assert_eq!(resource_type::PTHREAD_RWLOCK, code(3, 3));
    assert_eq!(resource_type::PTHREAD_BARRIER, code(3, 4));
    assert_eq!(resource_type::PTHREAD_SPINLOCK, code(3, 5));
    assert_eq!(resource_type::PTHREAD_ONCE, code(3, 6));
    assert_eq!(resource_type::CUDA_CONTEXT, code(4, 2));
    assert_eq!(resource_type::CUDA_STREAM, code(4, 3));
    assert_eq!(resource_type::CUDA_EVENT, code(4, 4));
    assert_eq!(resource_type::CUDART_DEVICE, code(5, 0));
    assert_eq!(resource_type::CUDART_STREAM, code(5, 1));
    assert_eq!(resource_type::CUDART_EVENT, code(5, 2));
}

#[test]
fn identifiers_are_plain_values() {
    let id = Identifier::from(PThreadIdentifier::Spinlock(0x77));
    let copy = id;
    assert_eq!(id, copy);
    assert_eq!(id.clone().encode(), copy.encode());
    assert_ne!(id, Identifier::from(PThreadIdentifier::Spinlock(0x78)));
}
