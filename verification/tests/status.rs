use redirect::error::{
    WinError, DXGI_ERROR_DEVICE_HUNG, DXGI_ERROR_DEVICE_REMOVED, DXGI_ERROR_DEVICE_RESET,
    DXGI_ERROR_DRIVER_INTERNAL_ERROR, DXGI_ERROR_INVALID_CALL, E_INVALIDARG, E_OUTOFMEMORY, S_OK,
};
use redirect::event::{from_wait, AccessRight, Flag, INFINITE};
use redirect::factory::{memory_segment_group, AdapterDesc, AdapterFlags, EnumCursor, Luid, RotationMode};
use redirect::format::{from_wchar_slice, Bool, FALSE, TRUE};
use redirect::resource::state::ResourceStates;
use redirect::resource::usage::Usage;

#[test]
fn status_codes_have_their_native_values() {
    assert_eq!(E_OUTOFMEMORY as u32, 0x8007_000e);
    assert_eq!(E_INVALIDARG as u32, 0x8007_0057);
    assert_eq!(DXGI_ERROR_INVALID_CALL as u32, 0x887a_0001);
    assert_eq!(DXGI_ERROR_DEVICE_HUNG as u32, 0x887a_0006);
    assert_eq!(DXGI_ERROR_DEVICE_REMOVED as u32, 0x887a_0005);
    assert_eq!(DXGI_ERROR_DEVICE_RESET as u32, 0x887a_0007);
    assert_eq!(DXGI_ERROR_DRIVER_INTERNAL_ERROR as u32, 0x887a_0020);
}

#[test]
fn failures_are_described_by_name() {
    assert_eq!(WinError { hr: E_OUTOFMEMORY }.description(), "E_OUYOFMEMORY");
    assert_eq!(WinError { hr: DXGI_ERROR_INVALID_CALL }.description(), "DXGI_ERROR_INVALID_CALL");
    assert_eq!(WinError { hr: DXGI_ERROR_DEVICE_HUNG }.description(), "DXGI_ERROR_DEVICE_HUNG");
    assert_eq!(WinError { hr: DXGI_ERROR_DEVICE_REMOVED }.description(), "DXGI_ERROR_DEVICE_REMOVED");
    assert_eq!(WinError { hr: DXGI_ERROR_DEVICE_RESET }.description(), "DXGI_ERROR_DEVICE_RESET");
    assert_eq!(
        WinError { hr: DXGI_ERROR_DRIVER_INTERNAL_ERROR }.description(),
        "DXGI_ERROR_DRIVER_INTERNAL_ERROR"
    );
    assert_eq!(WinError { hr: E_INVALIDARG }.description(), "Other unknown errors");
    assert_eq!(WinError { hr: -1 }.description(), "Other unknown errors");
}

#[test]
fn negative_status_codes_are_failures() {
    assert_eq!(WinError::from_hresult(S_OK), Ok(()));
    assert_eq!(WinError::from_hresult(1), Ok(()));
    assert_eq!(WinError::from_hresult(i32::MAX), Ok(()));
    assert_eq!(WinError::from_hresult(-1), Err(WinError { hr: -1 }));
    assert_eq!(WinError::from_hresult(i32::MIN), Err(WinError { hr: i32::MIN }));
    assert_eq!(WinError::from_hresult(E_OUTOFMEMORY), Err(WinError { hr: E_OUTOFMEMORY }));
}

#[test]
fn the_value_is_only_built_on_success() {
    let mut calls = 0;
    let ok = WinError::from_hresult_or_ok(0, || {
        calls += 1;
        42
    });
    assert_eq!(ok, Ok(42));
    assert_eq!(calls, 1);
    let mut calls = 0;
    let failed = WinError::from_hresult_or_ok(E_INVALIDARG, || {
        calls += 1;
        42
    });
    assert_eq!(failed, Err(WinError { hr: E_INVALIDARG }));
    assert_eq!(calls, 0);
}

#[test]
fn resource_states_combine() {
    let reads = [0x1u32, 0x2, 0x40, 0x80, 0x200, 0x800];
    let mut all = ResourceStates::common();
    for bits in reads {
        all = all.union(ResourceStates { bits });
    }
    assert_eq!(all, ResourceStates::generic_read());
    assert_eq!(all.bits(), 0xac3);
    assert_eq!(ResourceStates::default(), ResourceStates::generic_read());
    assert!(all.contains(ResourceStates { bits: ResourceStates::COPY_SOURCE }));
    assert!(!all.contains(ResourceStates::copy_dest()));
    assert!(all.contains(ResourceStates::common()));
    assert!(!all.intersects(ResourceStates::copy_dest()));
    assert!(all.intersects(ResourceStates { bits: 0x401 }));
    assert_eq!(all.intersection(ResourceStates { bits: 0x403 }).bits(), 0x3);
    assert_eq!(all.difference(ResourceStates { bits: 0x403 }).bits(), 0xac0);
    assert!(ResourceStates::common().is_empty());
    assert_eq!(ResourceStates::all().bits(), 0x3fff);
    assert_eq!(ResourceStates::depth_write().bits(), 0x10);
    assert_eq!(ResourceStates::from_bits(0x4000), None);
    assert_eq!(ResourceStates::from_bits(0x2400), Some(ResourceStates { bits: 0x2400 }));
    assert_eq!(ResourceStates::from_bits_truncate(0xffff_ffff).bits(), 0x3fff);
    assert_eq!(ResourceStates::PRESENT, ResourceStates::COMMON);
    assert_eq!(ResourceStates::PREDICATION, ResourceStates::INDIRECT_ARGUMENT);
}

#[test]
fn usage_flags_have_their_bits() {
    assert_eq!(Usage::SHADER_INPUT, 1 << 4);
    assert_eq!(Usage::RENDER_TARGET_OUTPUT, 1 << 5);
    assert_eq!(Usage::BACK_BUFFER, 1 << 6);
    assert_eq!(Usage::SHARED, 1 << 7);
    assert_eq!(Usage::READ_ONLY, 1 << 8);
    assert_eq!(Usage::DISCARD_ON_PRESENT, 1 << 9);
    assert_eq!(Usage::UNORDERED_ACCESS, 1 << 10);
    assert_eq!(Usage::from_bits(0x8), None);
    assert_eq!(Usage::from_bits_truncate(0xfff).bits, 0x7f3);
    assert!(Usage { bits: 0x30 }.contains(Usage { bits: Usage::SHADER_INPUT }));
}

#[test]
fn native_booleans_are_one_and_zero() {
    assert_eq!(Bool::new(true).to_win_bool(), TRUE);
    assert_eq!(Bool::new(false).to_win_bool(), FALSE);
    assert_eq!(Bool::from(true), Bool::new(true));
    assert_eq!(Bool::from(false), Bool::from_win_bool(0));
    assert!(Bool::from_win_bool(1).is_true());
    assert!(!Bool::from_win_bool(0).is_true());
    let b: Bool = true.into();
    assert!(b.is_true());
}

#[test]
fn text_ends_at_the_first_zero_unit() {
    let hello: Vec<u16> = "hello".encode_utf16().collect();
    let mut buffer = hello.clone();
    buffer.extend_from_slice(&[0, 0x41, 0, 0x42]);
    assert_eq!(from_wchar_slice(&buffer), &hello[..]);
    assert_eq!(from_wchar_slice(&hello), &hello[..]);
    assert_eq!(from_wchar_slice(&[0, 1, 2]), &[] as &[u16]);
    assert_eq!(from_wchar_slice(&[]), &[] as &[u16]);
    assert_eq!(from_wchar_slice(&[7, 8, 9, 0]), &[7, 8, 9]);
}

#[test]
fn adapter_name_is_cut_at_the_zero_unit() {
    let mut description = [0u16; 128];
    for (i, unit) in "GPU 0".encode_utf16().enumerate() {
        description[i] = unit;
    }
    description[20] = 0x58;
    let desc = AdapterDesc {
        description,
        vendor_id: 1,
        device_id: 2,
        revision: 3,
        dedicated_vmem: 4,
        dedicated_smem: 5,
        shared_smem: 6,
        luid: Luid { low_part: 7, high_part: -8 },
        flags: AdapterFlags { bits: AdapterFlags::SOFTWARE },
    };
    assert_eq!(String::from_utf16_lossy(desc.name()), "GPU 0");
    let full = AdapterDesc { description: [0x41; 128], ..desc };
    assert_eq!(full.name().len(), 128);
    assert_eq!(RotationMode::Rotate270.bits(), 4);
    assert_eq!(memory_segment_group(true), 0);
    assert_eq!(memory_segment_group(false), 1);
}

#[test]
fn cursor_moves_on_only_when_an_item_is_handed_out() {
    let mut cursor = EnumCursor::new();
    assert_eq!(cursor.index(), 0);
    assert!(cursor.advance(0));
    assert!(cursor.advance(1));
    assert_eq!(cursor.index(), 2);
    assert!(!cursor.advance(DXGI_ERROR_INVALID_CALL));
    assert_eq!(cursor.index(), 2);
    assert!(!cursor.advance(-1));
    assert!(cursor.advance(0));
    assert_eq!(cursor.index(), 3);
}

#[test]
fn a_wait_is_over_when_the_answer_is_zero() {
    assert_eq!(from_wait(0), Ok(()));
    assert_eq!(from_wait(0x102), Err(0x102));
    assert_eq!(from_wait(0xffff_ffff), Err(0xffff_ffff));
    assert_eq!(INFINITE, u32::MAX);
    assert_eq!(AccessRight::default().bits, 0x1f_0003);
    assert_eq!(Flag::default().bits, 0);
    assert_eq!(Flag::MANUAL_RESET | Flag::INITIAL_SET, 3);
}
