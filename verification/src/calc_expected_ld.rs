//! The owner's description of a VM and the reconstruction of its expected
//! launch measurement.  The description marshals into the fixed parameter
//! shape the launch-digest primitive consumes; the primitive itself reads
//! the named files from disk and is relied on as a black box.

use vstd::prelude::*;

use crate::report::TcbVersion;
use crate::snp_validate_report::ProductName;
use sev::measurement::snp::{snp_calc_launch_digest, SnpMeasurementArgs};
use sev::measurement::vcpu_types::CpuType;
use sev::measurement::vmsa::{GuestFeatures, VMMType};

verus! {

/// Length of the family-id and image-id fields in bytes.
pub const IDBLOCK_ID_BYTES: usize = 16;

/// The launch-digest primitive could not compute a measurement: a named
/// file is missing or unreadable, or the firmware image is malformed.
#[derive(Clone, Copy, Debug, PartialEq, Eq, Structural)]
pub struct LaunchDigestFailure;

/// Owner-facing description of a VM, used to compute the expected launch
/// measurement and to state every expectation the report must meet.
pub struct VMDescription {
    pub host_cpu_family: ProductName,
    pub vcpu_count: u32,
    pub ovmf_file: String,
    /// Guest-feature bitfield reflected in the VM save area.
    pub guest_features: u64,
    pub kernel_file: String,
    pub initrd_file: String,
    pub kernel_cmdline: String,
    /// Platform-info bitfield the report must equal.
    pub platform_info: u64,
    /// Minimum committed TCB; the report's committed TCB must not be below
    /// it in any component.
    pub min_commited_tcb: TcbVersion,
    /// Guest-policy bitfield the report must equal.
    pub guest_policy: u64,
    pub family_id: [u8; IDBLOCK_ID_BYTES],
    pub image_id: [u8; IDBLOCK_ID_BYTES],
}

/// The exact parameter set handed to the launch-digest primitive.  The
/// fixed choices (vCPU type, VMM type, hashing the firmware file itself)
/// are made where the primitive is called.
pub struct DigestArgs {
    pub vcpus: u32,
    pub ovmf_file: String,
    pub guest_features: u64,
    pub kernel_file: String,
    pub initrd_file: String,
    /// The kernel command line, or absent when it is empty: an empty
    /// command line is not passed at all, which yields a different digest
    /// than a present empty string would.
    pub append: Option<String>,
}

/// Relies on sev's `snp_calc_launch_digest` with vCPU type EPYC-v4, VMM
/// type QEMU, and the firmware hash computed from the firmware file: the
/// primitive reads the named files from disk, so nothing is promised of
/// the digest's value.
#[verifier::external_body]
fn snp_launch_digest(args: &DigestArgs) -> (r: Result<[u8; 48], LaunchDigestFailure>) {
    let margs = SnpMeasurementArgs {
        vcpus: args.vcpus,
        vcpu_type: CpuType::EpycV4,
        ovmf_file: args.ovmf_file.clone().into(),
        guest_features: GuestFeatures(args.guest_features),
        kernel_file: Some(args.kernel_file.clone().into()),
        initrd_file: Some(args.initrd_file.clone().into()),
        append: args.append.as_deref(),
        ovmf_hash_str: None,
        vmm_type: Some(VMMType::QEMU),
    };
    let ld = snp_calc_launch_digest(margs).map_err(|_| LaunchDigestFailure)?;
    let bytes = bincode::serialize(&ld).map_err(|_| LaunchDigestFailure)?;
    bytes.try_into().map_err(|_| LaunchDigestFailure)
}

impl VMDescription {
    /// Marshals this description into the primitive's parameter shape.
    /// An empty kernel command line omits the append parameter entirely.
    pub fn digest_args(&self) -> (r: DigestArgs)
        ensures
            r.vcpus == self.vcpu_count,
            r.ovmf_file@ == self.ovmf_file@,
            r.guest_features == self.guest_features,
            r.kernel_file@ == self.kernel_file@,
            r.initrd_file@ == self.initrd_file@,
            self.kernel_cmdline@.len() == 0 ==> r.append is None,
            self.kernel_cmdline@.len() != 0 ==> (r.append matches Some(a) && a@
                == self.kernel_cmdline@),
    {
        let append = if self.kernel_cmdline.as_str().is_empty() {
            None
        } else {
            Some(self.kernel_cmdline.clone())
        };
        DigestArgs {
            vcpus: self.vcpu_count,
            ovmf_file: self.ovmf_file.clone(),
            guest_features: self.guest_features,
            kernel_file: self.kernel_file.clone(),
            initrd_file: self.initrd_file.clone(),
            append,
        }
    }

    /// Computes the expected 48-byte launch measurement for this
    /// description.  The digest's value depends on the contents of the
    /// named files, so only the marshaling (see `digest_args`) is stated.
    pub fn compute_expected_hash(&self) -> Result<[u8; 48], LaunchDigestFailure> {
        let args = self.digest_args();
        snp_launch_digest(&args)
    }
}

} // verus!
