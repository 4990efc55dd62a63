//! Errors of registration and unregistration, and their numeric encoding.

use vstd::prelude::*;

verus! {

/// Error code of an internal failure of the framework.
pub const ERROR_INTERNAL_FAILURE: u32 = 2;

/// Error code of a code signature that does not meet the requirements.
pub const ERROR_INVALID_SIGNATURE: u32 = 3;

/// Error code of a failed authorization.
pub const ERROR_AUTHORIZATION_FAILURE: u32 = 4;

/// Error code of a missing or invalid helper tool.
pub const ERROR_TOOL_NOT_VALID: u32 = 5;

/// Error code of a job that the system cannot find.
pub const ERROR_JOB_NOT_FOUND: u32 = 6;

/// Error code of an unavailable registration service.
pub const ERROR_SERVICE_UNAVAILABLE: u32 = 7;

/// Error code of a missing property list.
pub const ERROR_JOB_PLIST_NOT_FOUND: u32 = 8;

/// Error code of a job that has to be enabled first.
pub const ERROR_JOB_MUST_BE_ENABLED: u32 = 9;

/// Error code of an invalid property list.
pub const ERROR_INVALID_PLIST: u32 = 10;

/// Error code of a launch that the user denied.
pub const ERROR_LAUNCH_DENIED_BY_USER: u32 = 11;

/// Error code of a service that is registered already.
pub const ERROR_ALREADY_REGISTERED: u32 = 12;

/// The low 32 bits of a signed machine word, as an unsigned number: the
/// remainder of the word modulo 2^32.
pub open spec fn low_word(word: int) -> u32 {
    (word % 0x1_0000_0000) as u32
}

/// Truncating a signed machine word to 32 bits leaves its remainder modulo
/// 2^32, whether the word has 32 or 64 bits.
proof fn lemma_truncation_is_low_word(word: isize)
    ensures
        word as u32 == low_word(word as int),
{
    let wide: i64 = word as i64;
    assert(word as u32 == wide as u32);
    assert(wide as u32 == (wide as u64) % 0x1_0000_0000) by (bit_vector);
    assert(wide >= 0 ==> wide as u64 == wide) by (bit_vector);
    assert(wide < 0 ==> wide as u64 == wide + 0x1_0000_0000_0000_0000) by (bit_vector);
}

/// An error that the framework reports when a service is registered or
/// unregistered.
#[derive(Debug, PartialEq, Eq, Structural)]
pub enum ServiceManagementError {
    /// An internal failure has occurred in the framework.
    InternalFailure,
    /// The app's code signature doesn't meet the requirements to perform the
    /// operation.
    InvalidSignature,
    /// The authorization requested failed.
    AuthorizationFailure,
    /// The specified path doesn't exist or the helper tool at the specified
    /// path isn't valid.
    ToolNotValid,
    /// The system can't find the specified job.
    JobNotFound,
    /// The service necessary to perform this operation is unavailable or is
    /// no longer accepting requests.
    ServiceUnavailable,
    /// The system can't find the app's property list.
    JobPlistNotFound,
    /// The job must be enabled before the requested operation.
    JobMustBeEnabled,
    /// The app's property list is invalid.
    InvalidPlist,
    /// The user denied the app's launch request.
    LaunchDeniedByUser,
    /// The application is already registered.
    AlreadyRegistered,
    /// The framework returned a code that has no name here.
    Unknown(u32),
}

impl ServiceManagementError {
    /// The numeric code of this error.
    pub open spec fn spec_code(&self) -> u32 {
        match *self {
            ServiceManagementError::InternalFailure => ERROR_INTERNAL_FAILURE,
            ServiceManagementError::InvalidSignature => ERROR_INVALID_SIGNATURE,
            ServiceManagementError::AuthorizationFailure => ERROR_AUTHORIZATION_FAILURE,
            ServiceManagementError::ToolNotValid => ERROR_TOOL_NOT_VALID,
            ServiceManagementError::JobNotFound => ERROR_JOB_NOT_FOUND,
            ServiceManagementError::ServiceUnavailable => ERROR_SERVICE_UNAVAILABLE,
            ServiceManagementError::JobPlistNotFound => ERROR_JOB_PLIST_NOT_FOUND,
            ServiceManagementError::JobMustBeEnabled => ERROR_JOB_MUST_BE_ENABLED,
            ServiceManagementError::InvalidPlist => ERROR_INVALID_PLIST,
            ServiceManagementError::LaunchDeniedByUser => ERROR_LAUNCH_DENIED_BY_USER,
            ServiceManagementError::AlreadyRegistered => ERROR_ALREADY_REGISTERED,
            ServiceManagementError::Unknown(code) => code,
        }
    }

    /// The named error that a numeric code stands for, if it stands for one.
    pub open spec fn named(code: u32) -> Option<ServiceManagementError> {
        if code == ERROR_INTERNAL_FAILURE {
            Some(ServiceManagementError::InternalFailure)
        } else if code == ERROR_INVALID_SIGNATURE {
            Some(ServiceManagementError::InvalidSignature)
        } else if code == ERROR_AUTHORIZATION_FAILURE {
            Some(ServiceManagementError::AuthorizationFailure)
        } else if code == ERROR_TOOL_NOT_VALID {
            Some(ServiceManagementError::ToolNotValid)
        } else if code == ERROR_JOB_NOT_FOUND {
            Some(ServiceManagementError::JobNotFound)
        } else if code == ERROR_SERVICE_UNAVAILABLE {
            Some(ServiceManagementError::ServiceUnavailable)
        } else if code == ERROR_JOB_PLIST_NOT_FOUND {
            Some(ServiceManagementError::JobPlistNotFound)
        } else if code == ERROR_JOB_MUST_BE_ENABLED {
            Some(ServiceManagementError::JobMustBeEnabled)
        } else if code == ERROR_INVALID_PLIST {
            Some(ServiceManagementError::InvalidPlist)
        } else if code == ERROR_LAUNCH_DENIED_BY_USER {
            Some(ServiceManagementError::LaunchDeniedByUser)
        } else if code == ERROR_ALREADY_REGISTERED {
            Some(ServiceManagementError::AlreadyRegistered)
        } else {
            None
        }
    }

    /// The error that a numeric code is decoded to: the named error where
    /// the code stands for one, and otherwise `Unknown` with the code itself.
    pub open spec fn decode(code: u32) -> ServiceManagementError {
        match Self::named(code) {
            Some(error) => error,
            None => ServiceManagementError::Unknown(code),
        }
    }

    /// The error that the code of a native error object is decoded to. The
    /// native code is a signed machine word. One from 0 to 2^32 - 1 is
    /// looked up as it is. Any other is in no table: it is `Unknown`, and
    /// what `Unknown` carries of it is its low word.
    pub open spec fn decode_native(code: int) -> ServiceManagementError {
        if 0 <= code <= u32::MAX {
            Self::decode(code as u32)
        } else {
            ServiceManagementError::Unknown(low_word(code))
        }
    }

    /// Whether this error is one that decoding a 32-bit code can produce:
    /// `Unknown` does not carry a code that has a name.
    pub open spec fn is_canonical(self) -> bool {
        self matches ServiceManagementError::Unknown(code) ==> Self::named(code) is None
    }

    /// Returns the numeric code of this error.
    #[verifier::when_used_as_spec(spec_code)]
    pub fn code(&self) -> (code: u32)
        ensures
            code == self.spec_code(),
    {
        match self {
            ServiceManagementError::InternalFailure => ERROR_INTERNAL_FAILURE,
            ServiceManagementError::InvalidSignature => ERROR_INVALID_SIGNATURE,
            ServiceManagementError::AuthorizationFailure => ERROR_AUTHORIZATION_FAILURE,
            ServiceManagementError::ToolNotValid => ERROR_TOOL_NOT_VALID,
            ServiceManagementError::JobNotFound => ERROR_JOB_NOT_FOUND,
            ServiceManagementError::ServiceUnavailable => ERROR_SERVICE_UNAVAILABLE,
            ServiceManagementError::JobPlistNotFound => ERROR_JOB_PLIST_NOT_FOUND,
            ServiceManagementError::JobMustBeEnabled => ERROR_JOB_MUST_BE_ENABLED,
            ServiceManagementError::InvalidPlist => ERROR_INVALID_PLIST,
            ServiceManagementError::LaunchDeniedByUser => ERROR_LAUNCH_DENIED_BY_USER,
            ServiceManagementError::AlreadyRegistered => ERROR_ALREADY_REGISTERED,
            ServiceManagementError::Unknown(code) => *code,
        }
    }

    /// Decodes a numeric error code. Decoding is total: a code
    /// without a name comes back unchanged inside `Unknown`.
    pub fn from_code(code: u32) -> (error: ServiceManagementError)
        ensures
            error == Self::decode(code),
    {
        match ServiceManagementError::try_from(code) {
            Ok(error) => error,
            Err(_) => ServiceManagementError::Unknown(code),
        }
    }

    /// Decodes the code of a native error object, a signed machine word.
    /// Only a code from 0 to 2^32 - 1 is looked up among the named errors.
    /// A negative or larger code is never reported as a named error: it
    /// comes back as `Unknown` with its low word.
    pub fn from_native_code(code: isize) -> (error: ServiceManagementError)
        ensures
            error == Self::decode_native(code as int),
            0 <= code <= u32::MAX ==> error == Self::decode(code as u32),
            code < 0 || code > u32::MAX ==> error == ServiceManagementError::Unknown(
                low_word(code as int),
            ),
    {
        let wide: i64 = code as i64;
        if 0 <= wide && wide <= 0xFFFF_FFFF {
            ServiceManagementError::from_code(wide as u32)
        } else {
            proof {
                lemma_truncation_is_low_word(code);
            }
            ServiceManagementError::Unknown(#[verifier::truncate] (code as u32))
        }
    }
}

/// Every named error is found again from its code.
pub proof fn lemma_error_round_trip(error: ServiceManagementError)
    requires
        !(error is Unknown),
    ensures
        ServiceManagementError::named(error.code()) == Some(error),
        ServiceManagementError::decode(error.code()) == error,
{
}

/// A code stands for at most one named error, and that error has the code:
/// together with the round trip, codes 2 to 12 and the eleven named errors
/// correspond one to one.
pub proof fn lemma_error_code_exact(code: u32)
    ensures
        ServiceManagementError::named(code) is Some <==> 2 <= code <= 12,
        ServiceManagementError::named(code) matches Some(error) ==> error.code() == code
            && !(error is Unknown),
{
}

/// A code without a name is kept as it is: it is decoded to `Unknown`
/// with that very code.
pub proof fn lemma_error_unnamed_code(code: u32)
    requires
        code < 2 || code > 12,
    ensures
        ServiceManagementError::named(code) is None,
        ServiceManagementError::decode(code) == ServiceManagementError::Unknown(code),
{
}

/// No code is lost in decoding: what any code is decoded to has that
/// code, and it is canonical.
pub proof fn lemma_error_code_preserved(code: u32)
    ensures
        ServiceManagementError::decode(code).code() == code,
        ServiceManagementError::decode(code).is_canonical(),
{
}

/// The canonical errors are exactly those that their own code is decoded
/// to, so two canonical errors with the same code are the same error.
pub proof fn lemma_error_canonical(a: ServiceManagementError, b: ServiceManagementError)
    ensures
        a.is_canonical() <==> ServiceManagementError::decode(a.code()) == a,
        a.is_canonical() && b.is_canonical() && a.code() == b.code() ==> a == b,
{
}

/// A native code gives a named error only where it is itself the code of
/// that error: a code outside the table, negative or beyond 32 bits
/// included, is never turned into a named one.
pub proof fn lemma_native_code_named(code: int)
    ensures
        !(ServiceManagementError::decode_native(code) is Unknown) <==> 2 <= code <= 12,
        !(ServiceManagementError::decode_native(code) is Unknown)
            ==> ServiceManagementError::decode_native(code).code() == code,
{
}

/// What a native code is decoded to carries the low word of the code, which
/// for a code from 0 to 2^32 - 1 is the code itself, and it is canonical
/// for such a code.
pub proof fn lemma_native_code_preserved(code: int)
    ensures
        ServiceManagementError::decode_native(code).code() == low_word(code),
        0 <= code <= u32::MAX ==> low_word(code) == code
            && ServiceManagementError::decode_native(code).is_canonical(),
{
}

impl TryFrom<u32> for ServiceManagementError {
    type Error = ();

    /// Decodes a numeric code into the named error it stands for, and
    /// fails on a code that stands for none.
    fn try_from(value: u32) -> (result: Result<Self, Self::Error>)
        ensures
            result == (match ServiceManagementError::named(value) {
                Some(error) => Ok::<ServiceManagementError, ()>(error),
                None => Err(()),
            }),
    {
        if value == ERROR_INTERNAL_FAILURE {
            Ok(ServiceManagementError::InternalFailure)
        } else if value == ERROR_INVALID_SIGNATURE {
            Ok(ServiceManagementError::InvalidSignature)
        } else if value == ERROR_AUTHORIZATION_FAILURE {
            Ok(ServiceManagementError::AuthorizationFailure)
        } else if value == ERROR_TOOL_NOT_VALID {
            Ok(ServiceManagementError::ToolNotValid)
        } else if value == ERROR_JOB_NOT_FOUND {
            Ok(ServiceManagementError::JobNotFound)
        } else if value == ERROR_SERVICE_UNAVAILABLE {
            Ok(ServiceManagementError::ServiceUnavailable)
        } else if value == ERROR_JOB_PLIST_NOT_FOUND {
            Ok(ServiceManagementError::JobPlistNotFound)
        } else if value == ERROR_JOB_MUST_BE_ENABLED {
            Ok(ServiceManagementError::JobMustBeEnabled)
        } else if value == ERROR_INVALID_PLIST {
            Ok(ServiceManagementError::InvalidPlist)
        } else if value == ERROR_LAUNCH_DENIED_BY_USER {
            Ok(ServiceManagementError::LaunchDeniedByUser)
        } else if value == ERROR_ALREADY_REGISTERED {
            Ok(ServiceManagementError::AlreadyRegistered)
        } else {
            Err(())
        }
    }
}

impl vstd::std_specs::convert::TryFromSpecImpl<u32> for ServiceManagementError {
    open spec fn obeys_try_from_spec() -> bool {
        true
    }

    open spec fn try_from_spec(value: u32) -> Result<Self, Self::Error> {
        match ServiceManagementError::named(value) {
            Some(error) => Ok(error),
            None => Err(()),
        }
    }
}

} // verus!
