//! The operations of the operating system's registration subsystem, as the
//! library calls them.

use vstd::prelude::*;

verus! {

/// The native service-registration object that an [`AppService`](crate::AppService) owns, with
/// the operations of the operating system's registration subsystem.
///
/// Nothing is assumed of an implementation: every answer it gives is
/// decoded, whatever it is.
pub trait NativeService: Sized {
    /// The native object for the main application.
    fn main_app_service() -> Self;

    /// The native object for the launch agent with this property list.
    fn agent_service_with_plist_name(plist_name: &str) -> Self;

    /// The native object for the launch daemon with this property list.
    fn daemon_service_with_plist_name(plist_name: &str) -> Self;

    /// The native object for the login item with this bundle identifier.
    fn login_item_service_with_identifier(identifier: &str) -> Self;

    /// Asks the system to register the service. A failure carries the code
    /// of the native error.
    fn register_and_return_error(&self) -> Result<(), isize>;

    /// Asks the system to unregister the service. A failure carries the code
    /// of the native error.
    fn unregister_and_return_error(&self) -> Result<(), isize>;

    /// Asks the system for the status code of the service.
    fn status(&self) -> isize;

    /// Asks the system to show the login items in System Settings.
    fn open_system_settings_login_items();
}

} // verus!
