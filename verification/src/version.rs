//! The interface version and the rule by which a caller decides whether an
//! implementation of it can be used.

use vstd::prelude::*;
use crate::address::Env;

verus! {

/// Major version of the interface. A change of it breaks existing callers.
pub const INTERFACE_VERSION_MAJOR: u32 = 1;

/// Minor version of the interface. It grows when capability is added.
pub const INTERFACE_VERSION_MINOR: u32 = 0;

/// Patch version of the interface. It carries no compatibility weight.
pub const INTERFACE_VERSION_PATCH: u32 = 0;

/// Whether a caller built for `major.minor` can use an interface at
/// `interface_major.interface_minor`: the majors are equal and the caller asks
/// for no more than the interface's minor.
pub open spec fn compatible(
    major: int,
    minor: int,
    interface_major: int,
    interface_minor: int,
) -> bool {
    major == interface_major && minor <= interface_minor
}

/// Whether a caller built for `major.minor` can use this interface.
pub open spec fn interface_compatible(major: int, minor: int) -> bool {
    compatible(major, minor, INTERFACE_VERSION_MAJOR as int, INTERFACE_VERSION_MINOR as int)
}

/// Why an expected version cannot be served.
#[derive(Clone, Copy, Debug, PartialEq, Eq, Structural)]
pub enum VersionMismatch {
    /// The expected major version differs from the interface's.
    MajorMismatch,
    /// The majors agree, but the expected minor version is above the interface's.
    MinorTooNew,
}

/// Decides whether a caller built for `major.minor.patch` can use an
/// interface at `interface.0 . interface.1 . interface.2`.
///
/// The patch numbers are not looked at.
pub fn check_version(major: u32, minor: u32, patch: u32, interface: (u32, u32, u32)) -> (r: Result<
    (),
    VersionMismatch,
>)
    ensures
        r is Ok <==> compatible(major as int, minor as int, interface.0 as int, interface.1 as int),
        r == Err::<(), VersionMismatch>(VersionMismatch::MajorMismatch) <==> major != interface.0,
        r == Err::<(), VersionMismatch>(VersionMismatch::MinorTooNew) <==> major == interface.0
            && minor > interface.1,
{
    if major != interface.0 {
        Err(VersionMismatch::MajorMismatch)
    } else if minor > interface.1 {
        Err(VersionMismatch::MinorTooNew)
    } else {
        Ok(())
    }
}

/// Decides whether a caller built for `major.minor.patch` can use this
/// interface. A caller runs this before it activates a link to an
/// implementation, and does not activate it on `Err`.
pub fn check_interface_version(major: u32, minor: u32, patch: u32) -> (r: Result<
    (),
    VersionMismatch,
>)
    ensures
        r is Ok <==> interface_compatible(major as int, minor as int),
        r == Err::<(), VersionMismatch>(VersionMismatch::MajorMismatch) <==> major
            != INTERFACE_VERSION_MAJOR,
        r == Err::<(), VersionMismatch>(VersionMismatch::MinorTooNew) <==> major
            == INTERFACE_VERSION_MAJOR && minor > INTERFACE_VERSION_MINOR,
{
    check_version(
        major,
        minor,
        patch,
        (INTERFACE_VERSION_MAJOR, INTERFACE_VERSION_MINOR, INTERFACE_VERSION_PATCH),
    )
}

/// States, where it is called, that the code around it was written for
/// `major.minor.patch`. In code that Verus checks, verification fails unless
/// that version is compatible with this interface, so such a caller is
/// never built against an interface it cannot use. Code that Verus does not
/// check gets nothing from this function, which does nothing at run time: it
/// calls `check_interface_version` and acts on the result.
pub fn assert_interface_version(major: u32, minor: u32, patch: u32)
    requires
        interface_compatible(major as int, minor as int),
{
}

/// An interface that grows in its minor version keeps every caller it had,
/// and one that changes its major version keeps none.
pub proof fn lemma_minor_growth_keeps_callers(
    major: int,
    minor: int,
    interface_major: int,
    interface_minor: int,
    later_major: int,
    later_minor: int,
)
    requires
        compatible(major, minor, interface_major, interface_minor),
    ensures
        later_minor >= interface_minor ==> compatible(major, minor, interface_major, later_minor),
        later_major != interface_major ==> !compatible(major, minor, later_major, later_minor),
{
}

/// A contract that reports its own version and the interface's.
pub trait Versioned {
    /// The implementation's own version. Its meaning is the implementation's;
    /// it is independent of the interface version.
    fn get_version(&self, env: Env) -> (v: u32);

    /// The version of the interface that the implementation was built
    /// against.
    fn get_interface_version(&self, _env: Env) -> (v: (u32, u32, u32))
        ensures
            v == (INTERFACE_VERSION_MAJOR, INTERFACE_VERSION_MINOR, INTERFACE_VERSION_PATCH),
    {
        (INTERFACE_VERSION_MAJOR, INTERFACE_VERSION_MINOR, INTERFACE_VERSION_PATCH)
    }
}

} // verus!
