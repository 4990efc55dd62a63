use std::cell::Cell;

use smappservice_rs::{
    AppService, NativeService, ServiceManagementError, ServiceStatus, ServiceType,
};

/// A registration subsystem in memory. A service starts out unknown to it,
/// registration enables it (a daemon waits for approval), and
/// unregistration leaves it not registered.
struct Simulated {
    daemon: bool,
    status: Cell<isize>,
}

impl Simulated {
    fn fresh(daemon: bool) -> Self {
        Simulated {
            daemon,
            status: Cell::new(3),
        }
    }

    fn registered(&self) -> bool {
        self.status.get() == 1 || self.status.get() == 2
    }
}

impl NativeService for Simulated {
    fn main_app_service() -> Self {
        Simulated::fresh(false)
    }

    fn agent_service_with_plist_name(_plist_name: &str) -> Self {
        Simulated::fresh(false)
    }

    fn daemon_service_with_plist_name(_plist_name: &str) -> Self {
        Simulated::fresh(true)
    }

    fn login_item_service_with_identifier(_identifier: &str) -> Self {
        Simulated::fresh(false)
    }

    fn register_and_return_error(&self) -> Result<(), isize> {
        if self.registered() {
            return Err(12);
        }
        self.status.set(if self.daemon { 2 } else { 1 });
        Ok(())
    }

    fn unregister_and_return_error(&self) -> Result<(), isize> {
        if !self.registered() {
            return Err(6);
        }
        self.status.set(0);
        Ok(())
    }

    fn status(&self) -> isize {
        self.status.get()
    }

    fn open_system_settings_login_items() {}
}

/// A native object that tells by its status code which constructor made it,
/// and with which name.
struct Echo {
    code: isize,
}

impl NativeService for Echo {
    fn main_app_service() -> Self {
        Echo { code: 0 }
    }

    fn agent_service_with_plist_name(plist_name: &str) -> Self {
        Echo {
            code: if plist_name == "agent.plist" { 1 } else { 101 },
        }
    }

    fn daemon_service_with_plist_name(plist_name: &str) -> Self {
        Echo {
            code: if plist_name == "daemon.plist" { 2 } else { 102 },
        }
    }

    fn login_item_service_with_identifier(identifier: &str) -> Self {
        Echo {
            code: if identifier == "com.example.helper" { 3 } else { 103 },
        }
    }

    fn register_and_return_error(&self) -> Result<(), isize> {
        Err(self.code)
    }

    fn unregister_and_return_error(&self) -> Result<(), isize> {
        Err(self.code + 1000)
    }

    fn status(&self) -> isize {
        self.code
    }

    fn open_system_settings_login_items() {}
}

/// A native object that answers every call with the same codes.
struct Fixed<const STATUS: isize, const ERROR: isize>;

impl<const STATUS: isize, const ERROR: isize> NativeService for Fixed<STATUS, ERROR> {
    fn main_app_service() -> Self {
        Fixed
    }

    fn agent_service_with_plist_name(_plist_name: &str) -> Self {
        Fixed
    }

    fn daemon_service_with_plist_name(_plist_name: &str) -> Self {
        Fixed
    }

    fn login_item_service_with_identifier(_identifier: &str) -> Self {
        Fixed
    }

    fn register_and_return_error(&self) -> Result<(), isize> {
        Err(ERROR)
    }

    fn unregister_and_return_error(&self) -> Result<(), isize> {
        Err(ERROR)
    }

    fn status(&self) -> isize {
        STATUS
    }

    fn open_system_settings_login_items() {}
}

/// A native object whose failures carry codes beyond 32 bits: 2^32 + 12 on
/// register, 12 - 2^32 on unregister.
struct Wide;

impl NativeService for Wide {
    fn main_app_service() -> Self {
        Wide
    }

    fn agent_service_with_plist_name(_plist_name: &str) -> Self {
        Wide
    }

    fn daemon_service_with_plist_name(_plist_name: &str) -> Self {
        Wide
    }

    fn login_item_service_with_identifier(_identifier: &str) -> Self {
        Wide
    }

    fn register_and_return_error(&self) -> Result<(), isize> {
        Err(4294967308i64 as isize)
    }

    fn unregister_and_return_error(&self) -> Result<(), isize> {
        Err((12i64 - 4294967296i64) as isize)
    }

    fn status(&self) -> isize {
        4294967297i64 as isize
    }

    fn open_system_settings_login_items() {}
}

fn all_service_types() -> [ServiceType<'static>; 4] {
    [
        ServiceType::MainApp,
        ServiceType::Agent {
            plist_name: "com.example.smappservice-test-app.plist",
        },
        ServiceType::Daemon {
            plist_name: "com.example.smappservice-test-app.plist",
        },
        ServiceType::LoginItem {
            identifier: "com.example.loginitem",
        },
    ]
}

#[test]
fn test_new_status() {
    let service_types: [ServiceType; 4] = [
        ServiceType::MainApp,
        ServiceType::Agent {
            plist_name: "com.example.smappservice-test-app.plist",
        },
        ServiceType::Daemon {
            plist_name: "com.example.smappservice-test-app.plist",
        },
        ServiceType::LoginItem {
            identifier: "com.example.loginitem",
        },
    ];
    for service_type in service_types {
        let service = AppService::<Simulated>::new(service_type);
        let status = service.status();
        assert!(
            status == ServiceStatus::NotFound,
            "Service status should be NotFound"
        );
    }
}

#[test]
fn new_calls_the_constructor_of_the_kind() {
    let main_app = AppService::<Echo>::new(ServiceType::MainApp);
    assert_eq!(main_app.status(), ServiceStatus::NotRegistered);
    let agent = AppService::<Echo>::new(ServiceType::Agent {
        plist_name: "agent.plist",
    });
    assert_eq!(agent.status(), ServiceStatus::Enabled);
    let daemon = AppService::<Echo>::new(ServiceType::Daemon {
        plist_name: "daemon.plist",
    });
    assert_eq!(daemon.status(), ServiceStatus::RequiresApproval);
    let login_item = AppService::<Echo>::new(ServiceType::LoginItem {
        identifier: "com.example.helper",
    });
    assert_eq!(login_item.status(), ServiceStatus::NotFound);
}

#[test]
fn new_hands_the_name_to_the_constructor() {
    let agent = AppService::<Echo>::new(ServiceType::Agent {
        plist_name: "other.plist",
    });
    assert_eq!(
        agent.register(),
        Err(ServiceManagementError::Unknown(101))
    );
    let daemon = AppService::<Echo>::new(ServiceType::Daemon {
        plist_name: "agent.plist",
    });
    assert_eq!(
        daemon.register(),
        Err(ServiceManagementError::Unknown(102))
    );
    let login_item = AppService::<Echo>::new(ServiceType::LoginItem {
        identifier: "daemon.plist",
    });
    assert_eq!(
        login_item.register(),
        Err(ServiceManagementError::Unknown(103))
    );
}

#[test]
fn register_and_unregister_ask_their_own_operation() {
    let login_item = AppService::<Echo>::new(ServiceType::LoginItem {
        identifier: "com.example.helper",
    });
    assert_eq!(
        login_item.register(),
        Err(ServiceManagementError::InvalidSignature)
    );
    assert_eq!(
        login_item.unregister(),
        Err(ServiceManagementError::Unknown(1003))
    );
}

#[test]
fn status_of_a_service_never_registered() {
    for service_type in all_service_types() {
        let service = AppService::<Simulated>::new(service_type);
        let status = service.status();
        assert!(status == ServiceStatus::NotFound || status == ServiceStatus::NotRegistered);
        assert_ne!(status, ServiceStatus::Enabled);
    }
}

#[test]
fn status_after_register() {
    for service_type in all_service_types() {
        let service = AppService::<Simulated>::new(service_type);
        assert_eq!(service.register(), Ok(()));
        let status = service.status();
        assert!(status == ServiceStatus::Enabled || status == ServiceStatus::RequiresApproval);
    }
}

#[test]
fn daemon_requires_approval_after_register() {
    let service = AppService::<Simulated>::new(ServiceType::Daemon {
        plist_name: "com.example.smappservice-test-app.plist",
    });
    assert_eq!(service.register(), Ok(()));
    assert_eq!(service.status(), ServiceStatus::RequiresApproval);
}

#[test]
fn status_after_unregister() {
    for service_type in all_service_types() {
        let service = AppService::<Simulated>::new(service_type);
        assert_eq!(service.register(), Ok(()));
        assert_eq!(service.unregister(), Ok(()));
        assert_eq!(service.status(), ServiceStatus::NotRegistered);
    }
}

#[test]
fn register_twice() {
    for service_type in all_service_types() {
        let service = AppService::<Simulated>::new(service_type);
        assert_eq!(service.register(), Ok(()));
        assert_eq!(
            service.register(),
            Err(ServiceManagementError::AlreadyRegistered)
        );
    }
}

#[test]
fn unregister_without_register() {
    for service_type in all_service_types() {
        let service = AppService::<Simulated>::new(service_type);
        assert_eq!(
            service.unregister(),
            Err(ServiceManagementError::JobNotFound)
        );
    }
}

#[test]
fn register_again_after_unregister() {
    let service = AppService::<Simulated>::new(ServiceType::MainApp);
    assert_eq!(service.register(), Ok(()));
    assert_eq!(service.status(), ServiceStatus::Enabled);
    assert_eq!(service.unregister(), Ok(()));
    assert_eq!(service.register(), Ok(()));
    assert_eq!(service.status(), ServiceStatus::Enabled);
}

#[test]
fn handles_are_independent() {
    let first = AppService::<Simulated>::new(ServiceType::MainApp);
    let second = AppService::<Simulated>::new(ServiceType::LoginItem {
        identifier: "com.example.loginitem",
    });
    assert_eq!(first.register(), Ok(()));
    assert_eq!(second.status(), ServiceStatus::NotFound);
    assert_eq!(second.register(), Ok(()));
    assert_eq!(first.unregister(), Ok(()));
    assert_eq!(second.status(), ServiceStatus::Enabled);
}

#[test]
fn open_system_settings_login_items_returns() {
    AppService::<Simulated>::open_system_settings_login_items();
    AppService::<Echo>::open_system_settings_login_items();
}

#[test]
fn unrecognized_status_is_not_found() {
    let service = AppService::<Fixed<42, 0>>::new(ServiceType::MainApp);
    assert_eq!(service.status(), ServiceStatus::NotFound);
    let negative = AppService::<Fixed<-1, 0>>::new(ServiceType::MainApp);
    assert_eq!(negative.status(), ServiceStatus::NotFound);
}

#[test]
fn unrecognized_error_is_unknown() {
    let service = AppService::<Fixed<0, 9999>>::new(ServiceType::MainApp);
    assert_eq!(
        service.register(),
        Err(ServiceManagementError::Unknown(9999))
    );
    assert_eq!(
        service.unregister(),
        Err(ServiceManagementError::Unknown(9999))
    );
}

#[test]
fn error_code_beyond_32_bits_is_unknown() {
    if isize::BITS < 64 {
        return;
    }
    let service = AppService::<Wide>::new(ServiceType::MainApp);
    assert_eq!(service.register(), Err(ServiceManagementError::Unknown(12)));
    assert_eq!(
        service.unregister(),
        Err(ServiceManagementError::Unknown(12))
    );
    assert_eq!(service.status(), ServiceStatus::NotFound);
}

#[test]
fn negative_error_code_is_unknown() {
    let service = AppService::<Fixed<0, -1>>::new(ServiceType::MainApp);
    assert_eq!(
        service.register(),
        Err(ServiceManagementError::Unknown(u32::MAX))
    );
}

#[test]
fn every_named_error_is_reported() {
    assert_eq!(
        AppService::<Fixed<0, 2>>::new(ServiceType::MainApp).register(),
        Err(ServiceManagementError::InternalFailure)
    );
    assert_eq!(
        AppService::<Fixed<0, 3>>::new(ServiceType::MainApp).register(),
        Err(ServiceManagementError::InvalidSignature)
    );
    assert_eq!(
        AppService::<Fixed<0, 4>>::new(ServiceType::MainApp).register(),
        Err(ServiceManagementError::AuthorizationFailure)
    );
    assert_eq!(
        AppService::<Fixed<0, 5>>::new(ServiceType::MainApp).register(),
        Err(ServiceManagementError::ToolNotValid)
    );
    assert_eq!(
        AppService::<Fixed<0, 6>>::new(ServiceType::MainApp).unregister(),
        Err(ServiceManagementError::JobNotFound)
    );
    assert_eq!(
        AppService::<Fixed<0, 7>>::new(ServiceType::MainApp).register(),
        Err(ServiceManagementError::ServiceUnavailable)
    );
    assert_eq!(
        AppService::<Fixed<0, 8>>::new(ServiceType::MainApp).register(),
        Err(ServiceManagementError::JobPlistNotFound)
    );
    assert_eq!(
        AppService::<Fixed<0, 9>>::new(ServiceType::MainApp).unregister(),
        Err(ServiceManagementError::JobMustBeEnabled)
    );
    assert_eq!(
        AppService::<Fixed<0, 10>>::new(ServiceType::MainApp).register(),
        Err(ServiceManagementError::InvalidPlist)
    );
    assert_eq!(
        AppService::<Fixed<0, 11>>::new(ServiceType::MainApp).register(),
        Err(ServiceManagementError::LaunchDeniedByUser)
    );
    assert_eq!(
        AppService::<Fixed<0, 12>>::new(ServiceType::MainApp).register(),
        Err(ServiceManagementError::AlreadyRegistered)
    );
}

#[test]
fn service_type_can_be_copied() {
    let agent = ServiceType::Agent {
        plist_name: "agent.plist",
    };
    let copy = agent.clone();
    assert_eq!(AppService::<Echo>::new(agent).status(), ServiceStatus::Enabled);
    assert_eq!(AppService::<Echo>::new(copy).status(), ServiceStatus::Enabled);
}
