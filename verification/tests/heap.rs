use redirect::comptr::{ComPtr, HeapObject};
use redirect::error::{AllocationError, WinError, E_OUTOFMEMORY};
use redirect::resource::heap::description::{
    HeapAlignment, HeapDesc, HeapFlags, HeapProperties, HeapType, MemoryPoolPreference,
    PageProperty,
};
use redirect::resource::heap::traits::{AcceptMsTexture, Heap as HeapOfClass};
use redirect::resource::heap::{DefaultHeap, Heap, MsaaHeap, ReadbackHeap, UploadHeap};

fn native(addr: usize) -> Result<ComPtr<HeapObject>, WinError> {
    Ok(ComPtr::new(addr))
}

#[test]
fn heap_reports_the_size_and_alignment_it_was_made_with() {
    let cases: [(u64, HeapAlignment); 6] = [
        (0, HeapAlignment::Default),
        (65536, HeapAlignment::Default),
        (3 * 65536, HeapAlignment::DefaultResourcePlacement),
        (4096, HeapAlignment::FourKb),
        (4194304, HeapAlignment::DefaultMsaaResourcePlacement),
        (8 * 4194304, HeapAlignment::DefaultMsaaResourcePlacement),
    ];
    for (size, alignment) in cases {
        let desc = HeapDesc::with_alignment(
            size,
            HeapProperties::new(HeapType::Default),
            alignment,
            HeapFlags { bits: HeapFlags::NONE },
        )
        .unwrap();
        let request = redirect::resource::heap::HeapRequest::new(desc).unwrap();
        assert_eq!(request.desc(), desc);
        let heap = request.complete(native(0x1000)).unwrap();
        assert_eq!(heap.size(), size);
        assert_eq!(heap.alignment(), alignment);
        assert_eq!(heap.get_desc(), desc);
        assert_eq!(heap.as_comptr().as_ptr(), 0x1000);
    }
}

#[test]
fn heap_size_must_be_a_multiple_of_the_alignment() {
    let properties = HeapProperties::new(HeapType::Default);
    let flags = HeapFlags { bits: HeapFlags::NONE };
    assert_eq!(
        HeapDesc::with_alignment(65537, properties, HeapAlignment::Default, flags),
        Err(AllocationError::InvalidSize)
    );
    assert_eq!(
        HeapDesc::with_alignment(65536, properties, HeapAlignment::DefaultMsaaResourcePlacement, flags),
        Err(AllocationError::InvalidSize)
    );
    assert_eq!(
        HeapDesc::with_alignment(4096, properties, HeapAlignment::FourKb, flags).map(|d| d.size),
        Ok(4096)
    );
    assert!(matches!(Heap::create(properties, 100, flags), Err(AllocationError::InvalidSize)));
    assert!(Heap::create(properties, 2 * 65536, flags).is_ok());
}

#[test]
fn heap_desc_new_takes_the_default_alignment() {
    let properties = HeapProperties::new(HeapType::Upload);
    let desc = HeapDesc::new(100, properties, HeapFlags { bits: HeapFlags::SHARED });
    assert_eq!(
        desc,
        HeapDesc {
            size: 100,
            properties,
            alignment: HeapAlignment::Default,
            flags: HeapFlags { bits: 0x1 },
        }
    );
    assert_eq!(desc.validate(), Err(AllocationError::InvalidSize));
    assert!(!desc.accepts_msaa());
}

#[test]
fn heap_properties_new_leaves_the_rest_at_default() {
    assert_eq!(
        HeapProperties::new(HeapType::Readback),
        HeapProperties {
            heap_type: HeapType::Readback,
            page: PageProperty::Unknown,
            pool_preference: MemoryPoolPreference::Unknown,
            creation_node_mask: 0,
            visible_node_mask: 0,
        }
    );
    assert_eq!(HeapProperties::default(), HeapProperties::new(HeapType::Default));
}

#[test]
fn native_failure_of_heap_creation_is_handed_on() {
    let request =
        Heap::create(HeapProperties::new(HeapType::Default), 65536, HeapFlags { bits: 0 }).unwrap();
    let failed = request.complete(Err(WinError { hr: E_OUTOFMEMORY }));
    match failed {
        Err(AllocationError::Native(e)) => {
            assert_eq!(e.hr, E_OUTOFMEMORY);
            assert!(e.is_out_of_memory());
        }
        _ => panic!("the native failure was lost"),
    }
}

#[test]
fn alignments_have_their_byte_values() {
    assert_eq!(HeapAlignment::Default.byte_value(), 65536);
    assert_eq!(HeapAlignment::FourKb.byte_value(), 4096);
    assert_eq!(HeapAlignment::DefaultResourcePlacement.byte_value(), 65536);
    assert_eq!(HeapAlignment::DefaultMsaaResourcePlacement.byte_value(), 4194304);
    assert_eq!(HeapAlignment::Default.bits(), 0);
    assert_eq!(HeapAlignment::from_bits(4194304), Some(HeapAlignment::DefaultMsaaResourcePlacement));
    assert_eq!(HeapAlignment::from_bits(5), None);
}

#[test]
fn heap_types_have_their_native_numbers() {
    assert_eq!(HeapType::Default.bits(), 1);
    assert_eq!(HeapType::Upload.bits(), 2);
    assert_eq!(HeapType::Readback.bits(), 3);
    assert_eq!(HeapType::Custom.bits(), 4);
    assert_eq!(HeapType::from_bits(3), Some(HeapType::Readback));
    assert_eq!(HeapType::from_bits(0), None);
    assert_eq!(HeapType::default(), HeapType::Default);
}

#[test]
fn heap_flags_combine() {
    let only_buffers = HeapFlags { bits: HeapFlags::ALLOW_ONLY_BUFFERS };
    assert!(only_buffers.contains(HeapFlags { bits: HeapFlags::DENY_RT_DS_TEXTURES }));
    assert!(only_buffers.contains(HeapFlags { bits: HeapFlags::DENY_NON_RT_DS_TEXTURES }));
    assert!(only_buffers.accepts_buffers());
    assert!(!HeapFlags { bits: HeapFlags::ALLOW_ONLY_RT_DS_TEXTURES }.accepts_buffers());
    assert_eq!(
        HeapFlags { bits: 0x1 }.union(HeapFlags { bits: 0x8 }),
        HeapFlags { bits: 0x9 }
    );
    assert_eq!(HeapFlags { bits: 0x9 }.intersection(HeapFlags { bits: 0x8 }).bits(), 0x8);
    assert_eq!(HeapFlags { bits: 0x9 }.difference(HeapFlags { bits: 0x8 }).bits(), 0x1);
    assert_eq!(HeapFlags::from_bits(0x2), None);
    assert_eq!(HeapFlags::from_bits(0x3ed), Some(HeapFlags { bits: 0x3ed }));
    assert_eq!(HeapFlags::from_bits_truncate(0xffff_ffff).bits(), 0x3ed);
    assert!(HeapFlags::empty().is_empty());
    assert_eq!(HeapFlags::default().bits(), 0);
}

#[test]
fn typed_heaps_take_only_heaps_of_their_class() {
    let upload = UploadHeap::new(65536).unwrap().complete(native(0x20)).unwrap();
    assert_eq!(upload.get_desc().properties.heap_type, HeapType::Upload);
    let as_default = DefaultHeap::from_raw(upload.clone());
    assert!(as_default.is_none());
    let as_upload = UploadHeap::from_raw(upload).unwrap();
    assert_eq!(as_upload.size(), 65536);
    assert_eq!(as_upload.alignment(), HeapAlignment::Default);
    assert_eq!(as_upload.as_raw().as_comptr().as_ptr(), 0x20);

    let readback = ReadbackHeap::new(131072).unwrap().complete(native(0x30)).unwrap();
    assert!(UploadHeap::from_raw(readback.clone()).is_none());
    let readback = ReadbackHeap::from_raw(readback).unwrap();
    assert_eq!(readback.get().size(), 131072);

    let default = DefaultHeap::new(65536).unwrap().complete(native(0x40)).unwrap();
    assert!(DefaultHeap::from_raw(default).is_some());
    assert!(matches!(DefaultHeap::new(1), Err(AllocationError::InvalidSize)));
}

#[test]
fn heaps_for_multisampled_textures_are_aligned_to_four_mebibytes() {
    assert!(matches!(MsaaHeap::new(65536), Err(AllocationError::InvalidSize)));
    let request = MsaaHeap::new(2 * 4194304).unwrap();
    assert_eq!(request.desc().alignment, HeapAlignment::DefaultMsaaResourcePlacement);
    assert!(request.desc().accepts_msaa());
    let heap = request.complete(native(0x50)).unwrap();
    assert!(DefaultHeap::from_raw(heap.clone()).is_some());
    let msaa = MsaaHeap::from_raw(heap).unwrap();
    assert_eq!(msaa.as_msaa_raw().alignment().byte_value(), 4194304);
    assert_eq!(msaa.size(), 8388608);
    let plain = DefaultHeap::new(4194304).unwrap().complete(native(0x51)).unwrap();
    assert!(MsaaHeap::from_raw(plain).is_none());
}
