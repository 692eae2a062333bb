//! What can go wrong with a web view.

use vstd::prelude::*;

verus! {

/// [`raw_window_handle::HandleError`], carried as an opaque value: why a window gave no handle.
#[verifier::external_type_specification]
#[verifier::external_body]
pub struct ExHandleError(raw_window_handle::HandleError);

/// [`std::str::Utf8Error`], carried as an opaque value: where bytes stop being UTF-8.
#[verifier::external_type_specification]
#[verifier::external_body]
pub struct ExUtf8Error(std::str::Utf8Error);

/// The errors of this library.
#[derive(Debug)]
pub enum Error {
    /// The window gave no handle.
    WindowHandleError(raw_window_handle::HandleError),
    /// The window belongs to a window system that cannot host this web view.
    UnsupportedWindowHandle,
    /// A web view can be made on the main thread only.
    NotMainThread,
    /// The platform refused a custom protocol; the error holds its name.
    UrlSchemeRegisterError(String),
    /// Text from the platform was not UTF-8.
    Utf8Error(std::str::Utf8Error),
}

} // verus!
