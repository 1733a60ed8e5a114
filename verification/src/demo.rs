//! A worked example: a file is looked for and not found, the fallback is
//! refused, and the failure that comes out names both return paths.

use crate::errors::{BarError, FileNotFound, PermissionDenied};
use crate::location::{Location, LocationView};
use crate::result::{Trace, TraceView};
use vstd::prelude::*;

verus! {

/// Where `bang1` raises its error.
pub const BANG1_LINE: u32 = 175;

pub const BANG1_COLUMN: u32 = 5;

/// Where `bang2` raises its error.
pub const BANG2_LINE: u32 = 186;

pub const BANG2_COLUMN: u32 = 5;

/// Where `baz` hands on the failure of `bang1`.
pub const BAZ_LINE: u32 = 142;

pub const BAZ_COLUMN: u32 = 15;

/// Where `quux` hands on the failure of `bang2`.
pub const QUUX_LINE: u32 = 152;

pub const QUUX_COLUMN: u32 = 15;

/// Where `hello` hands on the failure of `bang2`.
pub const HELLO_LINE: u32 = 162;

pub const HELLO_COLUMN: u32 = 15;

/// Where `bar` hands on the failure of `quux`.
pub const BAR_QUUX_LINE: u32 = 127;

pub const BAR_QUUX_COLUMN: u32 = 13;

/// Where `bar` hands on the failure of `hello`.
pub const BAR_HELLO_LINE: u32 = 131;

pub const BAR_HELLO_COLUMN: u32 = 17;

/// Where `foo` hands on the failure of `bar`.
pub const FOO_BAR_LINE: u32 = 108;

pub const FOO_BAR_COLUMN: u32 = 9;

/// Where `foo` hands on the failure of `bang2`.
pub const FOO_BANG2_LINE: u32 = 110;

pub const FOO_BANG2_COLUMN: u32 = 19;

/// The location `line:column` of this file, as a value.
pub open spec fn site(line: u32, column: u32) -> LocationView {
    LocationView { file: "src/demo.rs"@, line, column }
}

/// The location `line:column` of this file.
fn here(line: u32, column: u32) -> (out: Location)
    ensures
        out@ == site(line, column),
{
    Location::new("src/demo.rs", line, column)
}

/// The return path of the failure of `baz`.
pub open spec fn baz_trace() -> Seq<LocationView> {
    seq![site(BANG1_LINE, BANG1_COLUMN), site(BAZ_LINE, BAZ_COLUMN)]
}

/// The return path of the failure of `hello`.
pub open spec fn hello_trace() -> Seq<LocationView> {
    seq![site(BANG2_LINE, BANG2_COLUMN), site(HELLO_LINE, HELLO_COLUMN)]
}

/// The return path of the failure of `quux`.
pub open spec fn quux_trace() -> Seq<LocationView> {
    seq![site(BANG2_LINE, BANG2_COLUMN), site(QUUX_LINE, QUUX_COLUMN)]
}

/// The return path of the failure of `bar`: that of its cause, the failure
/// of `baz`, then that of the fallback `hello`, then the step out of `bar`.
pub open spec fn bar_trace() -> Seq<LocationView> {
    (baz_trace() + hello_trace()).push(site(BAR_HELLO_LINE, BAR_HELLO_COLUMN))
}

/// The return path of the failure of `foo(x)`.
pub open spec fn foo_trace(x: i32) -> Seq<LocationView> {
    if x >= 5 {
        bar_trace().push(site(FOO_BAR_LINE, FOO_BAR_COLUMN))
    } else {
        seq![site(BANG2_LINE, BANG2_COLUMN), site(FOO_BANG2_LINE, FOO_BANG2_COLUMN)]
    }
}

/// Fails: through `bar` where `x` is at least 5, else at once.
pub fn foo(x: i32) -> (out: Trace<(), BarError>)
    ensures
        out@ == TraceView::<(), BarError>::Failure(
            BarError::PermissionDenied(PermissionDenied),
            foo_trace(x),
        ),
{
    if x >= 5 {
        bar().propagate(here(FOO_BAR_LINE, FOO_BAR_COLUMN))
    } else {
        let out = bang2().propagate_into(here(FOO_BANG2_LINE, FOO_BANG2_COLUMN));
        assert(out@.entries() =~= foo_trace(x));
        out
    }
}

/// Tries `baz`; when the file is not found, falls back on `hello` and
/// records the first failure as the cause of the second.
pub fn bar() -> (out: Trace<(), BarError>)
    ensures
        out@ == TraceView::<(), BarError>::Failure(
            BarError::PermissionDenied(PermissionDenied),
            bar_trace(),
        ),
{
    match baz() {
        Trace::Success(()) => {
            quux().propagate_into(here(BAR_QUUX_LINE, BAR_QUUX_COLUMN))
        },
        Trace::Failure(e, t) => match e {
            FileNotFound => {
                hello().caused_by(t).propagate_into(here(BAR_HELLO_LINE, BAR_HELLO_COLUMN))
            },
        },
    }
}

/// Looks for the file, which is not there.
pub fn baz() -> (out: Trace<(), FileNotFound>)
    ensures
        out@ == TraceView::<(), FileNotFound>::Failure(FileNotFound, baz_trace()),
{
    let out = bang1().propagate(here(BAZ_LINE, BAZ_COLUMN));
    assert(out@.entries() =~= baz_trace());
    out
}

/// Does what the caller may not do.
pub fn quux() -> (out: Trace<(), PermissionDenied>)
    ensures
        out@ == TraceView::<(), PermissionDenied>::Failure(PermissionDenied, quux_trace()),
{
    let out = bang2().propagate(here(QUUX_LINE, QUUX_COLUMN));
    assert(out@.entries() =~= quux_trace());
    out
}

/// The fallback, which the caller may not do either.
pub fn hello() -> (out: Trace<(), PermissionDenied>)
    ensures
        out@ == TraceView::<(), PermissionDenied>::Failure(PermissionDenied, hello_trace()),
{
    let out = bang2().propagate(here(HELLO_LINE, HELLO_COLUMN));
    assert(out@.entries() =~= hello_trace());
    out
}

/// Raises `FileNotFound`, recording where.
pub fn bang1() -> (out: Trace<(), FileNotFound>)
    ensures
        out@ == TraceView::<(), FileNotFound>::Failure(
            FileNotFound,
            seq![site(BANG1_LINE, BANG1_COLUMN)],
        ),
{
    Trace::err_here(FileNotFound, here(BANG1_LINE, BANG1_COLUMN))
}

/// Raises `PermissionDenied`, recording where.
pub fn bang2() -> (out: Trace<(), PermissionDenied>)
    ensures
        out@ == TraceView::<(), PermissionDenied>::Failure(
            PermissionDenied,
            seq![site(BANG2_LINE, BANG2_COLUMN)],
        ),
{
    Trace::err_here(PermissionDenied, here(BANG2_LINE, BANG2_COLUMN))
}

} // verus!
