//! The window that a web view is made for.

use crate::attributes::Platform;
use crate::error::Error;
use raw_window_handle::{HandleError, RawWindowHandle};
use vstd::prelude::*;

verus! {

/// [`raw_window_handle::RawWindowHandle`], carried as an opaque value; [`system_of`] names its
/// variant.
#[verifier::external_type_specification]
#[verifier::external_body]
pub struct ExRawWindowHandle(raw_window_handle::RawWindowHandle);

/// A window system, as far as it matters here.
#[derive(Debug, Clone, Copy, PartialEq, Eq, Structural)]
pub enum WindowSystem {
    AppKit,
    UiKit,
    Other,
}

/// The window system that a handle belongs to: that of the handle's variant.
pub uninterp spec fn system_of(handle: RawWindowHandle) -> WindowSystem;

/// Tells the variants `RawWindowHandle::AppKit` and `RawWindowHandle::UiKit` from each other and
/// from all others. Claims that the result is what [`system_of`] names.
#[verifier::external_body]
fn window_system(handle: &RawWindowHandle) -> (r: WindowSystem)
    ensures
        r == system_of(*handle),
{
    match handle {
        RawWindowHandle::AppKit(_) => WindowSystem::AppKit,
        RawWindowHandle::UiKit(_) => WindowSystem::UiKit,
        _ => WindowSystem::Other,
    }
}

/// Whether a platform can put a web view into a window of a window system.
pub open spec fn can_host(platform: Platform, system: WindowSystem) -> bool {
    match platform {
        Platform::MacOs => system is AppKit,
        Platform::Ios => system is UiKit,
    }
}

/// Checks that a platform can put a web view into a window of a window system.
pub fn check_window_system(platform: Platform, system: WindowSystem) -> (r: Result<(), Error>)
    ensures
        r == if can_host(platform, system) {
            Ok::<(), Error>(())
        } else {
            Err(Error::UnsupportedWindowHandle)
        },
        r is Ok <==> (platform is MacOs && system is AppKit) || (platform is Ios && system is UiKit),
{
    match (platform, system) {
        (Platform::MacOs, WindowSystem::AppKit) => Ok(()),
        (Platform::Ios, WindowSystem::UiKit) => Ok(()),
        _ => Err(Error::UnsupportedWindowHandle),
    }
}

/// The handle of the window that hosts a web view, if there is one that can.
pub open spec fn host_of(
    platform: Platform,
    window: Result<RawWindowHandle, HandleError>,
) -> Result<RawWindowHandle, Error> {
    match window {
        Ok(handle) => if can_host(platform, system_of(handle)) {
            Ok(handle)
        } else {
            Err(Error::UnsupportedWindowHandle)
        },
        Err(error) => Err(Error::WindowHandleError(error)),
    }
}

/// Finds the handle of the window that hosts a web view.
pub fn host(platform: Platform, window: Result<RawWindowHandle, HandleError>) -> (r: Result<
    RawWindowHandle,
    Error,
>)
    ensures
        r == host_of(platform, window),
        r is Ok <==> (window matches Ok(handle) && ((platform is MacOs && system_of(
            handle,
        ) is AppKit) || (platform is Ios && system_of(handle) is UiKit))),
        r matches Ok(handle) ==> window == Ok::<RawWindowHandle, HandleError>(handle),
        window matches Err(error) ==> r == Err::<RawWindowHandle, Error>(
            Error::WindowHandleError(error),
        ),
        window is Ok && r is Err ==> r == Err::<RawWindowHandle, Error>(
            Error::UnsupportedWindowHandle,
        ),
{
    match window {
        Ok(handle) => match check_window_system(platform, window_system(&handle)) {
            Ok(()) => Ok(handle),
            Err(error) => Err(error),
        },
        Err(error) => Err(Error::WindowHandleError(error)),
    }
}

} // verus!
