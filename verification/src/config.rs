//! The complete VM configuration, its validation, and the hardware and
//! device decisions taken when the framework configuration is built.

use vstd::prelude::*;

use crate::boot::BootConfig;
use crate::disk::DiskConfig;
use crate::error::{framework_text, FrameworkError, KasouError, KasouErrorView};
use crate::network::NetworkConfig;
use crate::paths::{existing_paths, holds_path, parent_of_path, path_parent, path_set};
use crate::serial::SerialConfig;
use crate::shared_dir::SharedDirConfig;
use crate::text::{push_str, string_of};
use crate::types::VmId;

verus! {

/// Complete VM configuration: CPU, memory, boot source, storage,
/// networking and peripherals.
#[derive(Debug, Clone)]
pub struct VmConfig {
    /// Unique identifier for this VM.
    pub id: VmId,
    /// Number of virtual CPUs.
    pub cpus: u32,
    /// Memory size in MiB.
    pub memory_mib: u64,
    /// Boot configuration.
    pub boot: BootConfig,
    /// Disk images to attach as virtio block devices.
    pub disks: Vec<DiskConfig>,
    /// Network configuration (NAT + MAC address).
    pub network: NetworkConfig,
    /// Optional serial console log output.
    pub serial: Option<SerialConfig>,
    /// Host directories to share with the guest via virtiofs.
    pub shared_dirs: Vec<SharedDirConfig>,
    /// Optional path where the machine identifier is persisted between
    /// runs (required for snapshot-resume); `None` gives the platform a
    /// process-lifetime identifier.
    pub machine_identifier_path: Option<String>,
}

/// The boot-file check of validation, given the set of paths that exist: a
/// Linux boot needs its kernel and then its initrd; an EFI variable store
/// needs its parent directory, when it names one.
pub open spec fn boot_files_check(boot: BootConfig, present: Set<Seq<char>>) -> Option<
    KasouErrorView,
> {
    match boot {
        BootConfig::Linux { kernel, initrd, .. } => {
            if !present.contains(kernel@) {
                Some(KasouErrorView::BootFilesNotFound("kernel: "@ + kernel@))
            } else if !present.contains(initrd@) {
                Some(KasouErrorView::BootFilesNotFound("initrd: "@ + initrd@))
            } else {
                None
            }
        },
        BootConfig::Efi { variable_store } => match variable_store {
            Some(store) => match parent_of_path(store@) {
                Some(parent) => if parent.len() > 0 && !present.contains(parent) {
                    Some(
                        KasouErrorView::Validation(
                            "EFI variable store parent directory missing: "@ + parent,
                        ),
                    )
                } else {
                    None
                },
                None => None,
            },
            None => None,
        },
    }
}

/// The host paths a boot configuration refers to: kernel and initrd, or
/// the EFI variable store and its parent directory (when it has one).
pub open spec fn boot_paths(boot: BootConfig) -> Seq<Seq<char>> {
    match boot {
        BootConfig::Linux { kernel, initrd, .. } => seq![kernel@, initrd@],
        BootConfig::Efi { variable_store } => match variable_store {
            Some(store) => match parent_of_path(store@) {
                Some(p) => seq![store@, p],
                None => seq![store@],
            },
            None => Seq::empty(),
        },
    }
}

/// The host paths a configuration refers to, in order: boot paths, disk
/// images, shared directories, serial log.
pub open spec fn config_paths(c: VmConfig) -> Seq<Seq<char>> {
    boot_paths(c.boot) + c.disks@.map_values(|d: DiskConfig| d.path@)
        + c.shared_dirs@.map_values(|d: SharedDirConfig| d.host_path@) + match c.serial {
        Some(s) => seq![s.log_path@],
        None => Seq::empty(),
    }
}

/// The first disk, from index `i` on, whose image does not exist.
pub open spec fn first_missing_disk(disks: Seq<DiskConfig>, present: Set<Seq<char>>, i: int) -> Option<
    int,
>
    decreases disks.len() - i,
{
    if i < 0 || i >= disks.len() {
        None
    } else if !present.contains(disks[i].path@) {
        Some(i)
    } else {
        first_missing_disk(disks, present, i + 1)
    }
}

/// The error that validation reports for `c`, if any, given the set of
/// paths that exist: CPU count, then memory, then the disk list, then the
/// boot files, then each disk image in order.
pub open spec fn validation_outcome(c: VmConfig, present: Set<Seq<char>>) -> Option<KasouErrorView> {
    if c.cpus == 0 {
        Some(KasouErrorView::Validation("cpus must be >= 1"@))
    } else if c.memory_mib == 0 {
        Some(KasouErrorView::Validation("memory_mib must be >= 1"@))
    } else if c.disks@.len() == 0 {
        Some(KasouErrorView::Validation("at least one disk is required"@))
    } else if boot_files_check(c.boot, present) is Some {
        boot_files_check(c.boot, present)
    } else {
        match first_missing_disk(c.disks@, present, 0) {
            Some(i) => Some(KasouErrorView::DiskNotFound(c.disks@[i].path@)),
            None => None,
        }
    }
}

/// An EFI-booted configuration never fails validation for want of a kernel
/// or an initrd: no boot-file error can come out of it.
pub proof fn lemma_efi_needs_no_boot_files(c: VmConfig, present: Set<Seq<char>>)
    requires
        c.boot is Efi,
    ensures
        !(validation_outcome(c, present) matches Some(KasouErrorView::BootFilesNotFound(_))),
{
}

/// When no disk from index `i` on is reported missing, every one of them
/// is present.
proof fn lemma_no_missing_disk(disks: Seq<DiskConfig>, present: Set<Seq<char>>, i: int)
    requires
        0 <= i,
        first_missing_disk(disks, present, i) is None,
    ensures
        forall|j: int| i <= j < disks.len() ==> present.contains(#[trigger] disks[j].path@),
    decreases disks.len() - i,
{
    if i < disks.len() {
        lemma_no_missing_disk(disks, present, i + 1);
    }
}

/// Validation passes only for a configuration with at least one CPU, some
/// memory and a disk, whose every disk image exists, whose Linux kernel and
/// initrd both exist, and whose EFI variable store has its parent directory
/// (when it names a non-empty one).
pub proof fn lemma_valid_needs_existing_files(c: VmConfig, present: Set<Seq<char>>)
    requires
        validation_outcome(c, present) is None,
    ensures
        c.cpus > 0,
        c.memory_mib > 0,
        c.disks@.len() > 0,
        forall|j: int| 0 <= j < c.disks@.len() ==> present.contains(#[trigger] c.disks@[j].path@),
        c.boot is Linux ==> present.contains(c.boot->kernel@) && present.contains(
            c.boot->initrd@,
        ),
        match c.boot {
            BootConfig::Efi { variable_store: Some(store) } => match parent_of_path(store@) {
                Some(d) => d.len() > 0 ==> present.contains(d),
                None => true,
            },
            _ => true,
        },
{
    lemma_no_missing_disk(c.disks@, present, 0);
}

/// A well-sized Linux configuration with a disk whose kernel does not exist
/// fails validation, reporting that kernel; with the kernel present but not
/// the initrd, it reports the initrd.
pub proof fn lemma_missing_boot_file_reported(c: VmConfig, present: Set<Seq<char>>)
    requires
        c.cpus > 0,
        c.memory_mib > 0,
        c.disks@.len() > 0,
        c.boot is Linux,
    ensures
        !present.contains(c.boot->kernel@) ==> validation_outcome(c, present) == Some(
            KasouErrorView::BootFilesNotFound("kernel: "@ + c.boot->kernel@),
        ),
        present.contains(c.boot->kernel@) && !present.contains(c.boot->initrd@)
            ==> validation_outcome(c, present) == Some(
            KasouErrorView::BootFilesNotFound("initrd: "@ + c.boot->initrd@),
        ),
{
}

/// A well-sized configuration whose boot files exist but one of whose disk
/// images does not fails validation with `DiskNotFound` for the first such
/// disk.
pub proof fn lemma_missing_disk_reported(c: VmConfig, present: Set<Seq<char>>, k: int)
    requires
        c.cpus > 0,
        c.memory_mib > 0,
        boot_files_check(c.boot, present) is None,
        0 <= k < c.disks@.len(),
        !present.contains(c.disks@[k].path@),
        forall|j: int| 0 <= j < k ==> present.contains(#[trigger] c.disks@[j].path@),
    ensures
        validation_outcome(c, present) == Some(KasouErrorView::DiskNotFound(c.disks@[k].path@)),
{
    lemma_first_missing_is(c.disks@, present, 0, k);
}

proof fn lemma_first_missing_is(disks: Seq<DiskConfig>, present: Set<Seq<char>>, i: int, k: int)
    requires
        0 <= i <= k < disks.len(),
        !present.contains(disks[k].path@),
        forall|j: int| i <= j < k ==> present.contains(#[trigger] disks[j].path@),
    ensures
        first_missing_disk(disks, present, i) == Some(k),
    decreases k - i,
{
    if i < k {
        lemma_first_missing_is(disks, present, i + 1, k);
    }
}

/// Whether a validation result matches an outcome.
pub open spec fn check_agrees(r: Result<(), KasouError>, o: Option<KasouErrorView>) -> bool {
    match r {
        Ok(_) => o is None,
        Err(e) => o == Some(e@),
    }
}

fn validation_error(msg: &str) -> (r: KasouError)
    ensures
        r@ == KasouErrorView::Validation(msg@),
{
    KasouError::Validation(msg.to_owned())
}

fn text_of(prefix: &str, rest: &str) -> (r: String)
    ensures
        r@ == prefix@ + rest@,
{
    let mut buf: Vec<char> = Vec::new();
    push_str(&mut buf, prefix);
    push_str(&mut buf, rest);
    string_of(&buf)
}

impl VmConfig {
    /// The boot-file check against the paths listed in `present`.
    fn check_boot_files(&self, present: &Vec<String>) -> (r: Result<(), KasouError>)
        ensures
            check_agrees(r, boot_files_check(self.boot, path_set(present@))),
    {
        match &self.boot {
            BootConfig::Linux { kernel, initrd, .. } => {
                if !holds_path(present, kernel) {
                    return Err(KasouError::BootFilesNotFound(text_of("kernel: ", kernel.as_str())));
                }
                if !holds_path(present, initrd) {
                    return Err(KasouError::BootFilesNotFound(text_of("initrd: ", initrd.as_str())));
                }
                Ok(())
            },
            BootConfig::Efi { variable_store } => {
                match variable_store {
                    Some(store) => match path_parent(store.as_str()) {
                        Some(parent) => {
                            if !parent.as_str().is_empty() && !holds_path(present, &parent) {
                                return Err(
                                    KasouError::Validation(
                                        text_of(
                                            "EFI variable store parent directory missing: ",
                                            parent.as_str(),
                                        ),
                                    ),
                                );
                            }
                            Ok(())
                        },
                        None => Ok(()),
                    },
                    None => Ok(()),
                }
            },
        }
    }

    /// Validates the configuration against the paths listed in `present`,
    /// which stand for those that exist on the host.
    pub fn validate_against(&self, present: &Vec<String>) -> (r: Result<(), KasouError>)
        ensures
            check_agrees(r, validation_outcome(*self, path_set(present@))),
    {
        if self.cpus == 0 {
            return Err(validation_error("cpus must be >= 1"));
        }
        if self.memory_mib == 0 {
            return Err(validation_error("memory_mib must be >= 1"));
        }
        if self.disks.len() == 0 {
            return Err(validation_error("at least one disk is required"));
        }
        match self.check_boot_files(present) {
            Err(e) => return Err(e),
            Ok(()) => {},
        }
        let ghost set = path_set(present@);
        let mut i: usize = 0;
        while i < self.disks.len()
            invariant
                i <= self.disks@.len(),
                set == path_set(present@),
                self.cpus != 0,
                self.memory_mib != 0,
                self.disks@.len() > 0,
                boot_files_check(self.boot, set) is None,
                first_missing_disk(self.disks@, set, 0) == first_missing_disk(
                    self.disks@,
                    set,
                    i as int,
                ),
            decreases self.disks.len() - i,
        {
            if !holds_path(present, &self.disks[i].path) {
                assert(first_missing_disk(self.disks@, set, i as int) == Some(i as int));
                let p = self.disks[i].path.clone();
                assert(p@ == self.disks@[i as int].path@);
                return Err(KasouError::DiskNotFound(p));
            }
            i = i + 1;
        }
        Ok(())
    }

    /// Every host path the configuration refers to, in this order: boot
    /// files (kernel and initrd, or the EFI variable store and its parent
    /// directory), disk images, shared directories, then the serial log.
    pub fn paths_in_use(&self) -> (r: Vec<String>)
        ensures
            r@.map_values(|p: String| p@) == config_paths(*self),
    {
        let mut r: Vec<String> = Vec::new();
        match &self.boot {
            BootConfig::Linux { kernel, initrd, .. } => {
                r.push(kernel.clone());
                r.push(initrd.clone());
            },
            BootConfig::Efi { variable_store } => match variable_store {
                Some(store) => {
                    r.push(store.clone());
                    match path_parent(store.as_str()) {
                        Some(p) => r.push(p),
                        None => {},
                    }
                },
                None => {},
            },
        }
        assert(r@.map_values(|p: String| p@) =~= boot_paths(self.boot));
        let ghost boot_part = boot_paths(self.boot);
        let mut i: usize = 0;
        while i < self.disks.len()
            invariant
                i <= self.disks@.len(),
                boot_part == boot_paths(self.boot),
                r@.map_values(|p: String| p@) == boot_part + self.disks@.subrange(0, i as int).map_values(
                    |d: DiskConfig| d.path@,
                ),
            decreases self.disks.len() - i,
        {
            let ghost before = r@.map_values(|p: String| p@);
            r.push(self.disks[i].path.clone());
            assert(r@.map_values(|p: String| p@) =~= before.push(self.disks@[i as int].path@));
            assert(self.disks@.subrange(0, i + 1).map_values(|d: DiskConfig| d.path@) =~= self.disks@.subrange(
                0,
                i as int,
            ).map_values(|d: DiskConfig| d.path@).push(self.disks@[i as int].path@));
            i = i + 1;
        }
        assert(self.disks@.subrange(0, self.disks@.len() as int) =~= self.disks@);
        let ghost disk_part = r@.map_values(|p: String| p@);
        let mut k: usize = 0;
        while k < self.shared_dirs.len()
            invariant
                k <= self.shared_dirs@.len(),
                r@.map_values(|p: String| p@) == disk_part + self.shared_dirs@.subrange(
                    0,
                    k as int,
                ).map_values(|d: SharedDirConfig| d.host_path@),
            decreases self.shared_dirs.len() - k,
        {
            let ghost before = r@.map_values(|p: String| p@);
            r.push(self.shared_dirs[k].host_path.clone());
            assert(r@.map_values(|p: String| p@) =~= before.push(
                self.shared_dirs@[k as int].host_path@,
            ));
            assert(self.shared_dirs@.subrange(0, k + 1).map_values(
                |d: SharedDirConfig| d.host_path@,
            ) =~= self.shared_dirs@.subrange(0, k as int).map_values(
                |d: SharedDirConfig| d.host_path@,
            ).push(self.shared_dirs@[k as int].host_path@));
            k = k + 1;
        }
        assert(self.shared_dirs@.subrange(0, self.shared_dirs@.len() as int) =~= self.shared_dirs@);
        let ghost share_part = r@.map_values(|p: String| p@);
        match &self.serial {
            Some(s) => {
                r.push(s.log_path.clone());
                assert(r@.map_values(|p: String| p@) =~= share_part.push(s.log_path@));
            },
            None => {},
        }
        assert(r@.map_values(|p: String| p@) =~= config_paths(*self));
        r
    }

    /// Validate the configuration against the host: CPU count, memory and
    /// disk list first, then the existence of the boot files and disk
    /// images. Whatever the filesystem holds, the result is the outcome of
    /// validation against some set of existing paths.
    pub fn validate(&self) -> (r: Result<(), KasouError>)
        ensures
            exists|present: Set<Seq<char>>| #[trigger]
                check_agrees(r, validation_outcome(*self, present)),
    {
        let paths = self.paths_in_use();
        let present = existing_paths(&paths);
        let r = self.validate_against(&present);
        assert(check_agrees(r, validation_outcome(*self, path_set(present@))));
        r
    }
}

/// The CPU and memory sizes handed to the framework.
#[derive(Debug, Clone, Copy)]
pub struct HardwarePlan {
    pub cpu_count: usize,
    pub memory_bytes: u64,
}

/// The CPU count and the memory size in bytes (MiB times 1024 * 1024).
pub fn plan_hardware(config: &VmConfig) -> (r: HardwarePlan)
    requires
        config.memory_mib * 1048576 <= u64::MAX,
    ensures
        r.cpu_count == config.cpus,
        r.memory_bytes == config.memory_mib * 1048576,
{
    HardwarePlan { cpu_count: config.cpus as usize, memory_bytes: config.memory_mib * 1024 * 1024 }
}

/// The error reported when the framework rejects the assembled
/// configuration with `error`.
pub fn configuration_rejected(error: &FrameworkError) -> (r: KasouError)
    ensures
        r@ == KasouErrorView::Framework(
            "VM configuration validation failed: "@ + framework_text(*error),
        ),
{
    let text = error.to_string();
    KasouError::Framework(text_of("VM configuration validation failed: ", text.as_str()))
}

/// The error reported when the framework raises an Objective-C exception,
/// described by `detail`, while the configuration is assembled.
pub fn configuration_exception(detail: &str) -> (r: KasouError)
    ensures
        r@ == KasouErrorView::Framework(
            "Objective-C exception during VZ configuration: "@ + detail@,
        ),
{
    KasouError::Framework(text_of("Objective-C exception during VZ configuration: ", detail))
}

} // verus!
