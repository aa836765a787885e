//! VM configuration and its validation rules.

use vstd::prelude::*;

verus! {

use vstd::string::StringExecFns;

/// Why a configuration was rejected.
#[derive(Clone, Copy, Debug, PartialEq, Eq, Structural)]
pub enum ConfigError {
    /// Memory size is not a multiple of 2 MiB.
    MemoryNotAligned,
    /// Memory size is below the 128 MiB minimum.
    MemoryTooSmall,
    /// Memory size is above the 64 GiB maximum.
    MemoryTooLarge,
    /// The vCPU count is zero.
    NoVcpus,
    /// The vCPU count exceeds twice the host CPU count.
    TooManyVcpus,
}

/// The VM's configuration.  Memory is in MiB; the kernel and disk
/// fields hold host file paths as plain strings.
pub struct VmConfig {
    pub memory: usize,
    pub vcpus: u8,
    pub kernel: String,
    pub disk: Option<String>,
    pub cmdline: String,
    pub verbose: u8,
    pub no_metrics: bool,
}

/// Whether the numeric parts of a configuration are acceptable,
/// given the host's CPU count.
pub open spec fn spec_config_valid(c: &VmConfig, host_cpus: int) -> bool {
    &&& c.memory % 2 == 0
    &&& c.memory >= 128
    &&& c.memory <= 65536
    &&& c.vcpus >= 1
    &&& c.vcpus <= host_cpus * 2
}

impl VmConfig {
    /// Checks the numeric configuration limits: memory a multiple of
    /// 2 MiB, between 128 MiB and 64 GiB, and a vCPU count between 1
    /// and twice the host's CPUs.  File existence is the caller's
    /// concern.
    pub fn validate(&self, host_cpus: usize) -> (r: Result<(), ConfigError>)
        ensures
            r is Ok <==> spec_config_valid(self, host_cpus as int),
            self.memory % 2 != 0 ==> r == Result::<(), ConfigError>::Err(
                ConfigError::MemoryNotAligned,
            ),
            self.memory % 2 == 0 && self.memory < 128 ==> r == Result::<(), ConfigError>::Err(
                ConfigError::MemoryTooSmall,
            ),
            self.memory % 2 == 0 && 128 <= self.memory && self.memory > 65536 ==> r == Result::<
                (),
                ConfigError,
            >::Err(ConfigError::MemoryTooLarge),
            self.memory % 2 == 0 && 128 <= self.memory <= 65536 && self.vcpus == 0 ==> r
                == Result::<(), ConfigError>::Err(ConfigError::NoVcpus),
            self.memory % 2 == 0 && 128 <= self.memory <= 65536 && self.vcpus >= 1 && self.vcpus
                > host_cpus * 2 ==> r == Result::<(), ConfigError>::Err(ConfigError::TooManyVcpus),
    {
        if self.memory % 2 != 0 {
            return Err(ConfigError::MemoryNotAligned);
        }
        if self.memory < 128 {
            return Err(ConfigError::MemoryTooSmall);
        }
        if self.memory > 64 * 1024 {
            return Err(ConfigError::MemoryTooLarge);
        }
        if self.vcpus == 0 {
            return Err(ConfigError::NoVcpus);
        }
        if self.vcpus as u128 > host_cpus as u128 * 2 {
            return Err(ConfigError::TooManyVcpus);
        }
        Ok(())
    }

    /// The log level implied by the verbosity count.
    pub fn log_level(&self) -> (r: &'static str)
        ensures
            self.verbose == 0 ==> r@ == "warn"@,
            self.verbose == 1 ==> r@ == "info"@,
            self.verbose == 2 ==> r@ == "debug"@,
            self.verbose >= 3 ==> r@ == "trace"@,
    {
        match self.verbose {
            0 => "warn",
            1 => "info",
            2 => "debug",
            _ => "trace",
        }
    }

    /// The configured memory size in bytes.
    pub fn memory_bytes(&self) -> (r: usize)
        requires
            self.memory * 1024 * 1024 <= usize::MAX,
        ensures
            r == self.memory * 1024 * 1024,
    {
        self.memory * 1024 * 1024
    }

    /// The kernel image path.
    pub fn kernel_path(&self) -> (r: String)
        ensures
            r@ == self.kernel@,
    {
        self.kernel.clone()
    }

    /// The disk image path, when one was configured.
    pub fn disk_path(&self) -> (r: Option<String>)
        ensures
            match r {
                Some(p) => self.disk is Some && p@ == self.disk->0@,
                None => self.disk is None,
            },
    {
        match &self.disk {
            Some(p) => Some(p.clone()),
            None => None,
        }
    }
}

impl Default for VmConfig {
    /// The default configuration: 1 GiB of RAM, one vCPU, a kernel
    /// image named `bzImage` beside the binary, no disk, and a
    /// command line that directs the console to COM1 and roots from
    /// `/dev/vda`.
    fn default() -> (r: Self)
        ensures
            r.memory == 1024,
            r.vcpus == 1,
            r.kernel@ == "bzImage"@,
            r.disk is None,
            r.verbose == 1,
            r.no_metrics == false,
    {
        VmConfig {
            memory: 1024,
            vcpus: 1,
            kernel: String::from_str("bzImage"),
            disk: None,
            cmdline: String::from_str(
                "console=ttyS0 earlyprintk=serial reboot=k panic=1 nokaslr noapic virtio_mmio.device=4K@0xFEB00000:5 virtio_mmio.device=4K@0xFEB10000:6 root=/dev/vda rw",
            ),
            verbose: 1,
            no_metrics: false,
        }
    }
}

} // verus!
