//! Typed registration of login items, launch agents and launch daemons with
//! the macOS service-management subsystem.
//!
//! An [`AppService`] is a handle on one service of the application. It is
//! made from a [`ServiceType`], and it registers the service, unregisters it
//! and asks for its [`ServiceStatus`]. The operating system does the work,
//! behind [`NativeService`]; the library chooses the native object, and
//! decodes the numeric codes that come back into [`ServiceStatus`] and
//! [`ServiceManagementError`].

pub mod error;
pub mod native;
pub mod service;
pub mod status;

pub use error::ServiceManagementError;
pub use native::NativeService;
pub use service::AppService;
pub use service::ServiceType;
pub use status::ServiceStatus;
