//! The hypervisor's error taxonomy and its severity classification.

use vstd::prelude::*;

verus! {

use vstd::string::StringExecFns;

/// Declares the host I/O error type so that it can be carried inside
/// [`AxvmError`]; the library never looks inside a value of it.
#[verifier::external_type_specification]
#[verifier::external_body]
pub struct ExIoError(std::io::Error);

/// Everything that can go wrong in the hypervisor, by what the
/// condition means to the caller.
#[derive(Debug)]
pub enum AxvmError {
    KvmInit(String),
    KvmVersion(String),
    MissingCapability(String),
    VmCreation(String),
    VcpuCreation(String),
    InvalidState(String),
    MemoryAllocation(String),
    MemoryWrite(String),
    MemoryRead(String),
    MemorySetup(String),
    MemoryAlignment(String),
    CpuidSetup(String),
    RegisterAccess(String),
    LongModeSetup(String),
    SregSetup(String),
    VcpuRuntime(String),
    Timeout(String),
    MaxIterations(String),
    HardwareFailure(String),
    InternalError(String),
    IoError(std::io::Error),
    DeviceNotFound(String),
    InvalidConfiguration(String),
    UnsupportedFeature(String),
    IrqInjection(String),
    LockPoisoned(String),
}

/// How severe an error is to the running VM.
#[derive(Clone, Copy, Debug, PartialEq, Eq, PartialOrd, Ord, Structural)]
pub enum ErrorSeverity {
    Info,
    Warning,
    Error,
    Critical,
    Fatal,
}

/// The severity class of each error variant.
pub open spec fn spec_severity(e: &AxvmError) -> ErrorSeverity {
    match e {
        AxvmError::KvmInit(_)
        | AxvmError::KvmVersion(_)
        | AxvmError::MissingCapability(_)
        | AxvmError::HardwareFailure(_) => ErrorSeverity::Fatal,
        AxvmError::VmCreation(_)
        | AxvmError::VcpuCreation(_)
        | AxvmError::MemoryAllocation(_)
        | AxvmError::MemorySetup(_)
        | AxvmError::LongModeSetup(_)
        | AxvmError::LockPoisoned(_) => ErrorSeverity::Critical,
        AxvmError::InvalidState(_)
        | AxvmError::Timeout(_)
        | AxvmError::MaxIterations(_)
        | AxvmError::VcpuRuntime(_) => ErrorSeverity::Error,
        AxvmError::InvalidConfiguration(_)
        | AxvmError::UnsupportedFeature(_)
        | AxvmError::IrqInjection(_) => ErrorSeverity::Warning,
        AxvmError::DeviceNotFound(_) => ErrorSeverity::Info,
        _ => ErrorSeverity::Error,
    }
}

impl AxvmError {
    /// Classifies this error's severity.
    pub fn severity(&self) -> (r: ErrorSeverity)
        ensures
            r == spec_severity(self),
    {
        match self {
            AxvmError::KvmInit(_)
            | AxvmError::KvmVersion(_)
            | AxvmError::MissingCapability(_)
            | AxvmError::HardwareFailure(_) => ErrorSeverity::Fatal,
            AxvmError::VmCreation(_)
            | AxvmError::VcpuCreation(_)
            | AxvmError::MemoryAllocation(_)
            | AxvmError::MemorySetup(_)
            | AxvmError::LongModeSetup(_)
            | AxvmError::LockPoisoned(_) => ErrorSeverity::Critical,
            AxvmError::InvalidState(_)
            | AxvmError::Timeout(_)
            | AxvmError::MaxIterations(_)
            | AxvmError::VcpuRuntime(_) => ErrorSeverity::Error,
            AxvmError::InvalidConfiguration(_)
            | AxvmError::UnsupportedFeature(_)
            | AxvmError::IrqInjection(_) => ErrorSeverity::Warning,
            AxvmError::DeviceNotFound(_) => ErrorSeverity::Info,
            _ => ErrorSeverity::Error,
        }
    }

    /// An error is recoverable when it is milder than critical.
    pub fn is_recoverable(&self) -> (r: bool)
        ensures
            r == (spec_severity(self) != ErrorSeverity::Critical && spec_severity(self)
                != ErrorSeverity::Fatal),
    {
        let s = self.severity();
        s != ErrorSeverity::Critical && s != ErrorSeverity::Fatal
    }

    /// A critical or fatal error demands that the VM shut down.
    pub fn requires_shutdown(&self) -> (r: bool)
        ensures
            r == (spec_severity(self) == ErrorSeverity::Critical || spec_severity(self)
                == ErrorSeverity::Fatal),
    {
        let s = self.severity();
        s == ErrorSeverity::Critical || s == ErrorSeverity::Fatal
    }

    /// A one-line description: a classification prefix followed by
    /// the variant's detail text.
    pub fn message(&self) -> (r: String)
        ensures
            ({
                match self {
                    AxvmError::KvmInit(m) => r@ == "KVM initialization failed: "@ + m@,
                    AxvmError::KvmVersion(m) => r@ == "KVM version mismatch: "@ + m@,
                    AxvmError::MissingCapability(m) => r@ == "Required KVM capability missing: "@
                        + m@,
                    AxvmError::VmCreation(m) => r@ == "VM creation failed: "@ + m@,
                    AxvmError::VcpuCreation(m) => r@ == "vCPU creation failed: "@ + m@,
                    AxvmError::InvalidState(m) => r@ == "Invalid VM state transition: "@ + m@,
                    AxvmError::MemoryAllocation(m) => r@ == "Memory allocation failed: "@ + m@,
                    AxvmError::MemoryWrite(m) => r@ == "Memory write failed: "@ + m@,
                    AxvmError::MemoryRead(m) => r@ == "Memory read failed: "@ + m@,
                    AxvmError::MemorySetup(m) => r@ == "Memory region setup failed: "@ + m@,
                    AxvmError::MemoryAlignment(m) => r@ == "Memory alignment error: "@ + m@,
                    AxvmError::CpuidSetup(m) => r@ == "CPUID configuration failed: "@ + m@,
                    AxvmError::RegisterAccess(m) => r@ == "Register access failed: "@ + m@,
                    AxvmError::LongModeSetup(m) => r@ == "Long mode setup failed: "@ + m@,
                    AxvmError::SregSetup(m) => r@ == "Segment register setup failed: "@ + m@,
                    AxvmError::VcpuRuntime(m) => r@ == "vCPU runtime error: "@ + m@,
                    AxvmError::Timeout(m) => r@ == "Operation timed out: "@ + m@,
                    AxvmError::MaxIterations(m) => r@ == "Maximum iterations exceeded: "@ + m@,
                    AxvmError::HardwareFailure(m) => r@ == "Hardware virtualization failure: "@
                        + m@,
                    AxvmError::InternalError(m) => r@ == "Internal hypervisor error: "@ + m@,
                    AxvmError::IoError(_) => r@.len() >= "I/O error: "@.len(),
                    AxvmError::DeviceNotFound(m) => r@ == "Device not found: "@ + m@,
                    AxvmError::InvalidConfiguration(m) => r@ == "Invalid configuration: "@ + m@,
                    AxvmError::UnsupportedFeature(m) => r@ == "Unsupported feature: "@ + m@,
                    AxvmError::IrqInjection(m) => r@ == "IRQ injection failed: "@ + m@,
                    AxvmError::LockPoisoned(m) => r@ == "Lock poisoned: "@ + m@,
                }
            }),
    {
        match self {
            AxvmError::KvmInit(m) => String::from_str("KVM initialization failed: ").concat(
                m.as_str(),
            ),
            AxvmError::KvmVersion(m) => String::from_str("KVM version mismatch: ").concat(
                m.as_str(),
            ),
            AxvmError::MissingCapability(m) => String::from_str(
                "Required KVM capability missing: ",
            ).concat(m.as_str()),
            AxvmError::VmCreation(m) => String::from_str("VM creation failed: ").concat(m.as_str()),
            AxvmError::VcpuCreation(m) => String::from_str("vCPU creation failed: ").concat(
                m.as_str(),
            ),
            AxvmError::InvalidState(m) => String::from_str("Invalid VM state transition: ").concat(
                m.as_str(),
            ),
            AxvmError::MemoryAllocation(m) => String::from_str("Memory allocation failed: ").concat(
                m.as_str(),
            ),
            AxvmError::MemoryWrite(m) => String::from_str("Memory write failed: ").concat(
                m.as_str(),
            ),
            AxvmError::MemoryRead(m) => String::from_str("Memory read failed: ").concat(m.as_str()),
            AxvmError::MemorySetup(m) => String::from_str("Memory region setup failed: ").concat(
                m.as_str(),
            ),
            AxvmError::MemoryAlignment(m) => String::from_str("Memory alignment error: ").concat(
                m.as_str(),
            ),
            AxvmError::CpuidSetup(m) => String::from_str("CPUID configuration failed: ").concat(
                m.as_str(),
            ),
            AxvmError::RegisterAccess(m) => String::from_str("Register access failed: ").concat(
                m.as_str(),
            ),
            AxvmError::LongModeSetup(m) => String::from_str("Long mode setup failed: ").concat(
                m.as_str(),
            ),
            AxvmError::SregSetup(m) => String::from_str("Segment register setup failed: ").concat(
                m.as_str(),
            ),
            AxvmError::VcpuRuntime(m) => String::from_str("vCPU runtime error: ").concat(
                m.as_str(),
            ),
            AxvmError::Timeout(m) => String::from_str("Operation timed out: ").concat(m.as_str()),
            AxvmError::MaxIterations(m) => String::from_str("Maximum iterations exceeded: ").concat(
                m.as_str(),
            ),
            AxvmError::HardwareFailure(m) => String::from_str(
                "Hardware virtualization failure: ",
            ).concat(m.as_str()),
            AxvmError::InternalError(m) => String::from_str("Internal hypervisor error: ").concat(
                m.as_str(),
            ),
            AxvmError::IoError(e) => String::from_str("I/O error: ").concat(io_error_text(
                e,
            ).as_str()),
            AxvmError::DeviceNotFound(m) => String::from_str("Device not found: ").concat(
                m.as_str(),
            ),
            AxvmError::InvalidConfiguration(m) => String::from_str("Invalid configuration: ")
                .concat(m.as_str()),
            AxvmError::UnsupportedFeature(m) => String::from_str("Unsupported feature: ").concat(
                m.as_str(),
            ),
            AxvmError::IrqInjection(m) => String::from_str("IRQ injection failed: ").concat(
                m.as_str(),
            ),
            AxvmError::LockPoisoned(m) => String::from_str("Lock poisoned: ").concat(m.as_str()),
        }
    }
}

/// Relies on std::io::Error's Display implementation to render the
/// host's own description of an I/O failure.
#[verifier::external_body]
fn io_error_text(e: &std::io::Error) -> String {
    format!("{}", e)
}

impl From<std::io::Error> for AxvmError {
    fn from(err: std::io::Error) -> (r: Self) {
        AxvmError::IoError(err)
    }
}

impl vstd::std_specs::convert::FromSpecImpl<std::io::Error> for AxvmError {
    open spec fn obeys_from_spec() -> bool {
        true
    }

    open spec fn from_spec(v: std::io::Error) -> Self {
        AxvmError::IoError(v)
    }
}

pub type AxvmResult<T> = Result<T, AxvmError>;

} // verus!
