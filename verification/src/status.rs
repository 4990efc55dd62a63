//! Registration status of a service and its numeric encoding.

use vstd::prelude::*;

verus! {

/// Status code of a service that has not been registered.
pub const STATUS_NOT_REGISTERED: isize = 0;

/// Status code of a registered service that is eligible to run.
pub const STATUS_ENABLED: isize = 1;

/// Status code of a registered service that awaits the user's approval.
pub const STATUS_REQUIRES_APPROVAL: isize = 2;

/// Status code of a service that the framework could not find.
pub const STATUS_NOT_FOUND: isize = 3;

/// Registration state of a service, as the operating system reports it.
#[derive(Debug, Clone, Copy, PartialEq, Eq, Structural)]
pub enum ServiceStatus {
    /// The service has not registered, or was unregistered again.
    NotRegistered,
    /// The service is registered and eligible to run.
    Enabled,
    /// The service is registered, but the user has to approve it in System
    /// Settings before it may run.
    RequiresApproval,
    /// The framework could not find the service.
    NotFound,
}

impl ServiceStatus {
    /// The numeric code that the framework uses for this status.
    pub open spec fn spec_code(&self) -> isize {
        match self {
            ServiceStatus::NotRegistered => STATUS_NOT_REGISTERED,
            ServiceStatus::Enabled => STATUS_ENABLED,
            ServiceStatus::RequiresApproval => STATUS_REQUIRES_APPROVAL,
            ServiceStatus::NotFound => STATUS_NOT_FOUND,
        }
    }

    /// The status that a numeric code names, if it names one.
    pub open spec fn decode(code: int) -> Option<ServiceStatus> {
        if code == STATUS_NOT_REGISTERED {
            Some(ServiceStatus::NotRegistered)
        } else if code == STATUS_ENABLED {
            Some(ServiceStatus::Enabled)
        } else if code == STATUS_REQUIRES_APPROVAL {
            Some(ServiceStatus::RequiresApproval)
        } else if code == STATUS_NOT_FOUND {
            Some(ServiceStatus::NotFound)
        } else {
            None
        }
    }

    /// The status that a query reports for a numeric code: the one the code
    /// names, and `NotFound` for a code that names none.
    pub open spec fn decode_or_not_found(code: int) -> ServiceStatus {
        match Self::decode(code) {
            Some(status) => status,
            None => ServiceStatus::NotFound,
        }
    }

    /// The words that describe this status to a user.
    pub open spec fn spec_label(self) -> Seq<char> {
        match self {
            ServiceStatus::NotRegistered => "Not Registered"@,
            ServiceStatus::Enabled => "Enabled"@,
            ServiceStatus::RequiresApproval => "Requires Approval"@,
            ServiceStatus::NotFound => "Not Found"@,
        }
    }

    /// Returns the numeric code that the framework uses for this status.
    #[verifier::when_used_as_spec(spec_code)]
    pub fn code(&self) -> (code: isize)
        ensures
            code == self.spec_code(),
    {
        match self {
            ServiceStatus::NotRegistered => STATUS_NOT_REGISTERED,
            ServiceStatus::Enabled => STATUS_ENABLED,
            ServiceStatus::RequiresApproval => STATUS_REQUIRES_APPROVAL,
            ServiceStatus::NotFound => STATUS_NOT_FOUND,
        }
    }

    /// Decodes the code that a status query returned. A code that names no
    /// status is reported as `NotFound`: a status query never fails.
    pub fn from_code(code: isize) -> (status: ServiceStatus)
        ensures
            status == Self::decode_or_not_found(code as int),
    {
        match ServiceStatus::try_from(code) {
            Ok(status) => status,
            Err(_) => ServiceStatus::NotFound,
        }
    }

    /// Returns the words that describe this status to a user.
    pub fn to_string(&self) -> (text: String)
        ensures
            text@ == self.spec_label(),
    {
        match self {
            ServiceStatus::NotRegistered => String::from_str("Not Registered"),
            ServiceStatus::Enabled => String::from_str("Enabled"),
            ServiceStatus::RequiresApproval => String::from_str("Requires Approval"),
            ServiceStatus::NotFound => String::from_str("Not Found"),
        }
    }
}

/// Every status is found again from its code: decoding the code of a
/// status gives that status.
pub proof fn lemma_status_round_trip(status: ServiceStatus)
    ensures
        ServiceStatus::decode(status.code() as int) == Some(status),
        ServiceStatus::decode_or_not_found(status.code() as int) == status,
{
}

/// A code names at most one status, and the status it names has that code:
/// together with the round trip, codes 0 to 3 and the four statuses
/// correspond one to one.
pub proof fn lemma_status_code_exact(code: int)
    ensures
        ServiceStatus::decode(code) is Some <==> 0 <= code <= 3,
        ServiceStatus::decode(code) matches Some(status) ==> status.code() == code,
{
}

/// Two statuses with the same code are the same status.
pub proof fn lemma_status_code_injective(a: ServiceStatus, b: ServiceStatus)
    requires
        a.code() == b.code(),
    ensures
        a == b,
{
}

/// A code that names no status is reported as `NotFound`.
pub proof fn lemma_status_unnamed_code(code: int)
    requires
        code < 0 || code > 3,
    ensures
        ServiceStatus::decode(code) is None,
        ServiceStatus::decode_or_not_found(code) == ServiceStatus::NotFound,
{
}

impl TryFrom<isize> for ServiceStatus {
    type Error = ();

    /// Decodes a numeric code into the status it names, and fails on a
    /// code that names none.
    fn try_from(value: isize) -> (result: Result<Self, Self::Error>)
        ensures
            result == (match ServiceStatus::decode(value as int) {
                Some(status) => Ok::<ServiceStatus, ()>(status),
                None => Err(()),
            }),
    {
        if value == STATUS_NOT_REGISTERED {
            Ok(ServiceStatus::NotRegistered)
        } else if value == STATUS_ENABLED {
            Ok(ServiceStatus::Enabled)
        } else if value == STATUS_REQUIRES_APPROVAL {
            Ok(ServiceStatus::RequiresApproval)
        } else if value == STATUS_NOT_FOUND {
            Ok(ServiceStatus::NotFound)
        } else {
            Err(())
        }
    }
}

impl vstd::std_specs::convert::TryFromSpecImpl<isize> for ServiceStatus {
    open spec fn obeys_try_from_spec() -> bool {
        true
    }

    open spec fn try_from_spec(value: isize) -> Result<Self, Self::Error> {
        match ServiceStatus::decode(value as int) {
            Some(status) => Ok(status),
            None => Err(()),
        }
    }
}

} // verus!
