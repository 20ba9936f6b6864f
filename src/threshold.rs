use vstd::prelude::*;
use crate::text::{decimal, push_decimal};

verus! {

/// Which acoustic threshold a raw call reads or writes.
#[derive(Clone, Copy, Debug, PartialEq, Eq, Structural)]
pub enum ThresholdKind {
    Current,
    Minimum,
    Maximum,
}

/// The status code of a successful raw call.
pub const RAW_SUCCESS: u32 = 0;

/// The vendor library file names, in the order they are tried.
pub fn library_candidates() -> (r: Vec<&'static str>)
    ensures
        r@.len() == 2,
        r@[0]@ == "libnvidia-ml.so.1"@,
        r@[1]@ == "libnvidia-ml.so"@,
{
    let mut v: Vec<&'static str> = Vec::new();
    v.push("libnvidia-ml.so.1");
    v.push("libnvidia-ml.so");
    v
}

/// The result of a raw threshold read: `code` is `None` when no candidate
/// library could be loaded, else the status the call returned with `value`.
/// Failures degrade to an unavailable reading.
pub fn read_outcome(code: Option<u32>, value: u32) -> (r: Option<u32>)
    ensures
        r == (if code == Some(RAW_SUCCESS) { Some(value) } else { None::<u32> }),
{
    match code {
        Some(c) => if c == RAW_SUCCESS {
            Some(value)
        } else {
            None
        },
        None => None,
    }
}

/// The message when no candidate library loads.
pub open spec fn unavailable_text() -> Seq<char> {
    "Failed to load NVML library"@
}

/// The message for a raw call that returned `code`.
pub open spec fn raw_error_text(code: u32) -> Seq<char> {
    "NVML error code: "@ + decimal(code as nat)
}

/// The result of a raw threshold write: `code` is `None` when no candidate
/// library could be loaded, else the status the call returned.
pub fn write_outcome(code: Option<u32>) -> (r: Result<(), String>)
    ensures
        code == Some(RAW_SUCCESS) <==> r is Ok,
        code is None ==> r is Err && r->Err_0@ == unavailable_text(),
        code is Some && code != Some(RAW_SUCCESS) ==> r is Err && r->Err_0@ == raw_error_text(
            code->Some_0,
        ),
{
    match code {
        None => Err(String::from_str("Failed to load NVML library")),
        Some(c) => if c == RAW_SUCCESS {
            Ok(())
        } else {
            let mut s = String::from_str("NVML error code: ");
            push_decimal(&mut s, c as u64);
            Err(s)
        },
    }
}

/// The signed form of a target temperature that the raw write takes: the
/// same bits read as a two's complement integer.
pub fn raw_target(celsius: u32) -> (r: i32)
    ensures
        r == celsius as i32,
{
    celsius as i32
}

} // verus!
