//! Error types.

use vstd::prelude::*;

verus! {

/// A native status code. Negative values report failure.
pub type HResult = i32;

/// The status code of a completed call.
pub const S_OK: i32 = 0;

/// The allocator ran out of memory or address space.
pub const E_OUTOFMEMORY: i32 = -2147024882;

/// An argument was rejected by the native layer.
pub const E_INVALIDARG: i32 = -2147024809;

/// The call was invalid in the current state.
pub const DXGI_ERROR_INVALID_CALL: i32 = -2005270527;

/// The device stopped responding.
pub const DXGI_ERROR_DEVICE_HUNG: i32 = -2005270522;

/// The device was removed.
pub const DXGI_ERROR_DEVICE_REMOVED: i32 = -2005270523;

/// The device was reset.
pub const DXGI_ERROR_DEVICE_RESET: i32 = -2005270521;

/// The driver met an internal error.
pub const DXGI_ERROR_DRIVER_INTERNAL_ERROR: i32 = -2005270496;

/// Whether a status code reports success.
pub open spec fn succeeded(hr: i32) -> bool {
    hr >= 0
}

/// The name under which a failure status is reported.
pub open spec fn description_of(hr: i32) -> Seq<char> {
    if hr == E_OUTOFMEMORY {
        "E_OUYOFMEMORY"@
    } else if hr == DXGI_ERROR_INVALID_CALL {
        "DXGI_ERROR_INVALID_CALL"@
    } else if hr == DXGI_ERROR_DEVICE_HUNG {
        "DXGI_ERROR_DEVICE_HUNG"@
    } else if hr == DXGI_ERROR_DEVICE_REMOVED {
        "DXGI_ERROR_DEVICE_REMOVED"@
    } else if hr == DXGI_ERROR_DEVICE_RESET {
        "DXGI_ERROR_DEVICE_RESET"@
    } else if hr == DXGI_ERROR_DRIVER_INTERNAL_ERROR {
        "DXGI_ERROR_DRIVER_INTERNAL_ERROR"@
    } else {
        "Other unknown errors"@
    }
}

/// A failure reported by the native layer, with its status code.
#[derive(Copy, Clone, Debug, PartialEq, Eq, Structural)]
pub struct WinError {
    pub hr: i32,
}

impl WinError {
    /// A short name for the status code.
    pub fn description(&self) -> (r: &'static str)
        ensures
            r@ == description_of(self.hr),
    {
        if self.hr == E_OUTOFMEMORY {
            "E_OUYOFMEMORY"
        } else if self.hr == DXGI_ERROR_INVALID_CALL {
            "DXGI_ERROR_INVALID_CALL"
        } else if self.hr == DXGI_ERROR_DEVICE_HUNG {
            "DXGI_ERROR_DEVICE_HUNG"
        } else if self.hr == DXGI_ERROR_DEVICE_REMOVED {
            "DXGI_ERROR_DEVICE_REMOVED"
        } else if self.hr == DXGI_ERROR_DEVICE_RESET {
            "DXGI_ERROR_DEVICE_RESET"
        } else if self.hr == DXGI_ERROR_DRIVER_INTERNAL_ERROR {
            "DXGI_ERROR_DRIVER_INTERNAL_ERROR"
        } else {
            "Other unknown errors"
        }
    }

    /// Turns a status code into a result: `Ok` exactly for the codes that
    /// report success, and otherwise an error that carries the code.
    pub fn from_hresult(hr: i32) -> (r: Result<(), WinError>)
        ensures
            r == (if succeeded(hr) {
                Ok::<(), WinError>(())
            } else {
                Err::<(), WinError>(WinError { hr })
            }),
    {
        if hr >= 0 {
            Ok(())
        } else {
            Err(WinError { hr })
        }
    }

    /// Turns a status code into a result. On success the value is built by
    /// `f`, which is not called on failure.
    pub fn from_hresult_or_ok<F, T>(hr: i32, f: F) -> (r: Result<T, WinError>) where
        F: FnOnce() -> T,

        requires
            succeeded(hr) ==> f.requires(()),
        ensures
            succeeded(hr) ==> r is Ok && f.ensures((), r->Ok_0),
            !succeeded(hr) ==> r == Err::<T, WinError>(WinError { hr }),
    {
        if hr >= 0 {
            Ok(f())
        } else {
            Err(WinError { hr })
        }
    }

    /// Whether the native layer reported that memory ran out.
    pub fn is_out_of_memory(&self) -> (r: bool)
        ensures
            r == (self.hr == E_OUTOFMEMORY),
    {
        self.hr == E_OUTOFMEMORY
    }
}

/// Why a placement was refused before any native call was made.
#[derive(Copy, Clone, Debug, PartialEq, Eq, Structural)]
pub enum PlacementViolation {
    /// The offset is not a multiple of the alignment that the resource needs.
    Misaligned,
    /// The resource would reach past the end of the heap.
    OutOfBounds,
}

/// What sets two placed resources apart that were to alias each other.
#[derive(Copy, Clone, Debug, PartialEq, Eq, Structural)]
pub enum AliasingMismatch {
    /// They lie on different heaps.
    Heap,
    /// They lie at different offsets.
    Offset,
    /// They take up different sizes or need different alignments.
    AllocInfo,
}

/// Why a heap could not be allocated.
#[derive(Copy, Clone, Debug, PartialEq, Eq, Structural)]
pub enum AllocationError {
    /// The size does not fit the alignment of the heap.
    InvalidSize,
    /// The native allocator refused the request.
    Native(WinError),
}

/// Why a resource could not be created.
#[derive(Copy, Clone, Debug, PartialEq, Eq, Structural)]
pub enum CreationError {
    /// The placement was refused locally; the native layer was not asked.
    Placement(PlacementViolation),
    /// The native layer failed, with its status code.
    Native(WinError),
}

} // verus!
