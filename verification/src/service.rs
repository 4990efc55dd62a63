//! The service handle: which native object stands behind it, and how the
//! answers of the native calls reach the caller.

use vstd::prelude::*;
use crate::error::low_word;
use crate::error::ServiceManagementError;
use crate::native::NativeService;
use crate::status::ServiceStatus;

verus! {

/// The kinds of service that can be registered with the framework.
#[derive(Debug, Clone, Copy)]
pub enum ServiceType<'a> {
    /// The main application, as a login item.
    MainApp,
    /// A launch agent. The property list must lie in the calling app's
    /// `Contents/Library/LaunchAgents` directory.
    Agent {
        /// Name of the property list file.
        plist_name: &'a str,
    },
    /// A launch daemon. The property list must lie in the calling app's
    /// `Contents/Library/LaunchDaemons` directory.
    Daemon {
        /// Name of the property list file.
        plist_name: &'a str,
    },
    /// A login item. The bundle must lie in the calling app's
    /// `Contents/Library/LoginItems` directory.
    LoginItem {
        /// Bundle identifier of the helper application.
        identifier: &'a str,
    },
}

/// What a registration or unregistration reports for the outcome of the
/// native call: success stays success, and a failure carries what the
/// native error code is decoded to.
pub open spec fn spec_registration_result(outcome: Result<(), isize>) -> Result<
    (),
    ServiceManagementError,
> {
    match outcome {
        Ok(()) => Ok(()),
        Err(code) => Err(ServiceManagementError::decode_native(code as int)),
    }
}

/// Turns the outcome of a native registration or unregistration call into
/// the result that the caller gets.
pub fn registration_result(outcome: Result<(), isize>) -> (result: Result<
    (),
    ServiceManagementError,
>)
    ensures
        result == spec_registration_result(outcome),
{
    match outcome {
        Ok(()) => Ok(()),
        Err(code) => Err(ServiceManagementError::from_native_code(code)),
    }
}

/// A registration or unregistration succeeds exactly when the native call
/// did. A failure reports a named error only where the native code is the
/// code of that error, and `Unknown` for every other code: with the code
/// itself where it lies from 0 to 2^32 - 1, and with its low word where it
/// does not.
pub proof fn lemma_registration_result(outcome: Result<(), isize>)
    ensures
        spec_registration_result(outcome) is Ok <==> outcome is Ok,
        outcome matches Err(code) ==> (spec_registration_result(outcome) matches Err(error) && {
            &&& !(error is Unknown) <==> 2 <= code <= 12
            &&& error.code() == low_word(code as int)
            &&& 0 <= code <= u32::MAX ==> error.code() == code && error.is_canonical()
        }),
{
}

/// A handle on one service of the application.
///
/// The handle owns a native object and nothing else: whether the service is
/// registered is the system's knowledge, and dropping the handle changes
/// nothing about it.
pub struct AppService<N: NativeService> {
    service: N,
}

impl<N: NativeService> AppService<N> {
    /// The native object that this handle owns.
    pub closed spec fn native(&self) -> N {
        self.service
    }

    /// Whether `native` can be the answer of the native constructor that
    /// belongs to `service_type`, called with the name that it carries.
    pub open spec fn constructed(service_type: ServiceType<'_>, native: N) -> bool {
        match service_type {
            ServiceType::MainApp => call_ensures(N::main_app_service, (), native),
            ServiceType::Agent { plist_name } => call_ensures(
                N::agent_service_with_plist_name,
                (plist_name,),
                native,
            ),
            ServiceType::Daemon { plist_name } => call_ensures(
                N::daemon_service_with_plist_name,
                (plist_name,),
                native,
            ),
            ServiceType::LoginItem { identifier } => call_ensures(
                N::login_item_service_with_identifier,
                (identifier,),
                native,
            ),
        }
    }

    /// Creates the handle for a service of the given kind. The service is
    /// not registered by this.
    pub fn new(service_type: ServiceType<'_>) -> (handle: Self)
        ensures
            Self::constructed(service_type, handle.native()),
    {
        let service = match service_type {
            ServiceType::MainApp => N::main_app_service(),
            ServiceType::Agent { plist_name } => N::agent_service_with_plist_name(plist_name),
            ServiceType::Daemon { plist_name } => N::daemon_service_with_plist_name(plist_name),
            ServiceType::LoginItem { identifier } => N::login_item_service_with_identifier(
                identifier,
            ),
        };
        AppService { service }
    }

    /// Registers the service, so that the system may launch it.
    ///
    /// Every failure that the system reports is returned; nothing is tried
    /// again.
    pub fn register(&self) -> (result: Result<(), ServiceManagementError>)
        ensures
            exists|outcome: Result<(), isize>|
                call_ensures(N::register_and_return_error, (&self.native(),), outcome)
                    && result == spec_registration_result(outcome),
    {
        registration_result(self.service.register_and_return_error())
    }

    /// Unregisters the service, so that the system launches it no longer.
    pub fn unregister(&self) -> (result: Result<(), ServiceManagementError>)
        ensures
            exists|outcome: Result<(), isize>|
                call_ensures(N::unregister_and_return_error, (&self.native(),), outcome)
                    && result == spec_registration_result(outcome),
    {
        registration_result(self.service.unregister_and_return_error())
    }

    /// Shows the login items in System Settings.
    pub fn open_system_settings_login_items()
        ensures
            call_ensures(N::open_system_settings_login_items, (), ()),
    {
        N::open_system_settings_login_items()
    }

    /// Asks the system for the registration status of the service. The
    /// query never fails: a code that names no status is reported as
    /// `NotFound`.
    pub fn status(&self) -> (status: ServiceStatus)
        ensures
            exists|code: isize|
                call_ensures(N::status, (&self.native(),), code)
                    && status == ServiceStatus::decode_or_not_found(code as int),
    {
        ServiceStatus::from_code(self.service.status())
    }
}

} // verus!
