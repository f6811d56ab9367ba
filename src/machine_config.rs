use vstd::prelude::*;

verus! {

/// CPU feature templates that can be applied to the guest vCPUs.
#[derive(Clone, Copy, Debug, PartialEq, Eq, Structural)]
pub enum CpuFeaturesTemplate {
    C3,
    T2,
}

/// The shape of the microVM. Every field is optional in a request; the
/// configuration held by a monitor has the first three set.
#[derive(Clone, Copy, Debug, PartialEq, Eq, Structural)]
pub struct MachineConfiguration {
    pub vcpu_count: Option<u8>,
    pub mem_size_mib: Option<usize>,
    pub ht_enabled: Option<bool>,
    pub cpu_template: Option<CpuFeaturesTemplate>,
}

/// Why a machine configuration request was refused.
#[derive(Clone, Copy, Debug, PartialEq, Eq, Structural)]
pub enum PutMachineConfigurationError {
    InvalidVcpuCount,
    InvalidMemorySize,
    UpdateNotAllowPostBoot,
}

pub const DEFAULT_VCPU_COUNT: u8 = 1;
pub const DEFAULT_MEM_SIZE_MIB: usize = 128;

/// With hyperthreading on, a vCPU count above one must be even.
pub open spec fn ht_parity_ok(ht_enabled: bool, vcpu_count: u8) -> bool {
    (ht_enabled && vcpu_count > 1) ==> vcpu_count % 2 == 0
}

impl MachineConfiguration {
    /// A configuration that a monitor may hold: every size is set and valid,
    /// and the hyperthreading parity rule holds.
    pub open spec fn wf(&self) -> bool {
        &&& self.vcpu_count matches Some(n) && n >= 1
        &&& self.mem_size_mib matches Some(m) && m >= 1
        &&& self.ht_enabled is Some
        &&& ht_parity_ok(self.ht_enabled->0, self.vcpu_count->0)
    }

    pub open spec fn spec_default() -> MachineConfiguration {
        MachineConfiguration {
            vcpu_count: Some(DEFAULT_VCPU_COUNT),
            mem_size_mib: Some(DEFAULT_MEM_SIZE_MIB),
            ht_enabled: Some(false),
            cpu_template: None,
        }
    }

    /// The outcome of applying the partial request `req` to the held
    /// configuration `self`.
    pub open spec fn updated_by(&self, req: MachineConfiguration) -> Result<
        MachineConfiguration,
        PutMachineConfigurationError,
    > {
        let ht = match req.ht_enabled {
            Some(v) => v,
            None => self.ht_enabled->0,
        };
        let vcpus = match req.vcpu_count {
            Some(v) => v,
            None => self.vcpu_count->0,
        };
        if req.vcpu_count == Some(0u8) {
            Err(PutMachineConfigurationError::InvalidVcpuCount)
        } else if req.mem_size_mib == Some(0usize) {
            Err(PutMachineConfigurationError::InvalidMemorySize)
        } else if !ht_parity_ok(ht, vcpus) {
            Err(PutMachineConfigurationError::InvalidVcpuCount)
        } else {
            Ok(
                MachineConfiguration {
                    vcpu_count: Some(vcpus),
                    mem_size_mib: if req.mem_size_mib is Some {
                        req.mem_size_mib
                    } else {
                        self.mem_size_mib
                    },
                    ht_enabled: Some(ht),
                    cpu_template: if req.cpu_template is Some {
                        req.cpu_template
                    } else {
                        self.cpu_template
                    },
                },
            )
        }
    }

    /// Applies the partial request `req` to `self`, field by field.
    pub fn apply_update(&self, req: &MachineConfiguration) -> (r: Result<
        MachineConfiguration,
        PutMachineConfigurationError,
    >)
        requires
            self.wf(),
        ensures
            r == self.updated_by(*req),
            r matches Ok(c) ==> c.wf(),
    {
        if let Some(v) = req.vcpu_count {
            if v == 0 {
                return Err(PutMachineConfigurationError::InvalidVcpuCount);
            }
        }
        if let Some(m) = req.mem_size_mib {
            if m == 0 {
                return Err(PutMachineConfigurationError::InvalidMemorySize);
            }
        }
        let ht = match req.ht_enabled {
            Some(v) => v,
            None => self.ht_enabled.unwrap(),
        };
        let vcpus = match req.vcpu_count {
            Some(v) => v,
            None => self.vcpu_count.unwrap(),
        };
        if ht && vcpus > 1 && vcpus % 2 == 1 {
            return Err(PutMachineConfigurationError::InvalidVcpuCount);
        }
        Ok(
            MachineConfiguration {
                vcpu_count: Some(vcpus),
                mem_size_mib: if req.mem_size_mib.is_some() {
                    req.mem_size_mib
                } else {
                    self.mem_size_mib
                },
                ht_enabled: Some(ht),
                cpu_template: if req.cpu_template.is_some() {
                    req.cpu_template
                } else {
                    self.cpu_template
                },
            },
        )
    }
}

/// Whatever partial updates are accepted before boot, a held configuration
/// keeps an even vCPU count above one while hyperthreading is on.
pub proof fn lemma_update_keeps_ht_parity(c: MachineConfiguration, req: MachineConfiguration)
    requires
        c.wf(),
    ensures
        c.updated_by(req) matches Ok(n) ==> n.wf() && ((n.ht_enabled == Some(true)
            && n.vcpu_count->0 > 1) ==> n.vcpu_count->0 % 2 == 0),
{
}

impl Default for MachineConfiguration {
    /// One vCPU, 128 MiB, no hyperthreading, no CPU template.
    fn default() -> (r: MachineConfiguration)
        ensures
            r == MachineConfiguration::spec_default(),
            r.wf(),
    {
        MachineConfiguration {
            vcpu_count: Some(DEFAULT_VCPU_COUNT),
            mem_size_mib: Some(DEFAULT_MEM_SIZE_MIB),
            ht_enabled: Some(false),
            cpu_template: None,
        }
    }
}

} // verus!
