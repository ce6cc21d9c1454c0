//! Fluent builder for `VmConfig`.

use std::collections::hash_map::DefaultHasher;

use vstd::prelude::*;
use vstd::std_specs::hash::DefaultHasherAdditionalSpecFns;

use crate::boot::BootConfig;
use crate::config::{validation_outcome, VmConfig};
use crate::disk::DiskConfig;
use crate::error::{KasouError, KasouErrorView};
use crate::network::NetworkConfig;
use crate::serial::SerialConfig;
use crate::shared_dir::SharedDirConfig;
use crate::types::{mac_from_hash_bytes, mac_text, seeded_hash, MacAddress, VmId};

verus! {

/// The boot mode the builder accumulates: Linux direct boot (the default)
/// or EFI boot.
#[derive(Debug, Clone)]
pub enum BootMode {
    /// Linux direct boot accumulator.
    Linux { kernel: Option<String>, initrd: Option<String>, cmdline: Option<String> },
    /// EFI firmware boot accumulator.
    Efi { variable_store: Option<String> },
}

/// A boot mode with each string taken by its characters.
pub enum BootModeView {
    Linux { kernel: Option<Seq<char>>, initrd: Option<Seq<char>>, cmdline: Option<Seq<char>> },
    Efi { variable_store: Option<Seq<char>> },
}

pub open spec fn opt_view(o: Option<String>) -> Option<Seq<char>> {
    match o {
        Some(s) => Some(s@),
        None => None,
    }
}

impl View for BootMode {
    type V = BootModeView;

    open spec fn view(&self) -> BootModeView {
        match self {
            BootMode::Linux { kernel, initrd, cmdline } => BootModeView::Linux {
                kernel: opt_view(*kernel),
                initrd: opt_view(*initrd),
                cmdline: opt_view(*cmdline),
            },
            BootMode::Efi { variable_store } => BootModeView::Efi {
                variable_store: opt_view(*variable_store),
            },
        }
    }
}

impl Default for BootMode {
    fn default() -> (r: Self)
        ensures
            r matches BootMode::Linux { kernel: None, initrd: None, cmdline: None },
    {
        BootMode::Linux { kernel: None, initrd: None, cmdline: None }
    }
}

/// Whether the EFI-only variable store is set.
pub open spec fn efi_store_set(m: BootModeView) -> bool {
    m matches BootModeView::Efi { variable_store: Some(_) }
}

/// Whether Linux boot is selected with a kernel set.
pub open spec fn kernel_set(m: BootModeView) -> bool {
    m matches BootModeView::Linux { kernel: Some(_), .. }
}

impl BootMode {
    fn has_efi_store(&self) -> (r: bool)
        ensures
            r == efi_store_set(self@),
    {
        match self {
            BootMode::Efi { variable_store: Some(_) } => true,
            _ => false,
        }
    }

    fn has_kernel(&self) -> (r: bool)
        ensures
            r == kernel_set(self@),
    {
        match self {
            BootMode::Linux { kernel, .. } => kernel.is_some(),
            BootMode::Efi { .. } => false,
        }
    }
}

/// Setting the kernel selects Linux boot, keeping the initrd and command
/// line already set for Linux boot.
pub open spec fn with_kernel(m: BootModeView, k: Seq<char>) -> BootModeView {
    match m {
        BootModeView::Linux { initrd, cmdline, .. } => BootModeView::Linux {
            kernel: Some(k),
            initrd,
            cmdline,
        },
        BootModeView::Efi { .. } => BootModeView::Linux {
            kernel: Some(k),
            initrd: None,
            cmdline: None,
        },
    }
}

/// Setting the initrd selects Linux boot, keeping the kernel and command line.
pub open spec fn with_initrd(m: BootModeView, i: Seq<char>) -> BootModeView {
    match m {
        BootModeView::Linux { kernel, cmdline, .. } => BootModeView::Linux {
            kernel,
            initrd: Some(i),
            cmdline,
        },
        BootModeView::Efi { .. } => BootModeView::Linux {
            kernel: None,
            initrd: Some(i),
            cmdline: None,
        },
    }
}

/// Setting the command line selects Linux boot, keeping kernel and initrd.
pub open spec fn with_cmdline(m: BootModeView, c: Seq<char>) -> BootModeView {
    match m {
        BootModeView::Linux { kernel, initrd, .. } => BootModeView::Linux {
            kernel,
            initrd,
            cmdline: Some(c),
        },
        BootModeView::Efi { .. } => BootModeView::Linux {
            kernel: None,
            initrd: None,
            cmdline: Some(c),
        },
    }
}

/// Switching to EFI boot keeps an EFI variable store already chosen.
pub open spec fn with_efi(m: BootModeView) -> BootModeView {
    match m {
        BootModeView::Efi { variable_store } => BootModeView::Efi { variable_store },
        BootModeView::Linux { .. } => BootModeView::Efi { variable_store: None },
    }
}

/// Builder for constructing `VmConfig` with a fluent API.
pub struct VmConfigBuilder {
    pub id: VmId,
    pub cpus: u32,
    pub memory_mib: u64,
    pub boot_mode: BootMode,
    pub disks: Vec<DiskConfig>,
    pub mac: Option<String>,
    pub serial: Option<SerialConfig>,
    pub shared_dirs: Vec<SharedDirConfig>,
    /// Set once a kernel (`boot`) and the EFI-only variable store have been
    /// combined, in either order; `build` then fails.
    pub boot_conflict: bool,
}

/// The error `build` reports before validation: a kernel combined with an
/// EFI variable store, or a Linux boot missing its kernel
/// or initrd.
pub open spec fn builder_error(b: VmConfigBuilder) -> Option<KasouErrorView> {
    if b.boot_conflict {
        Some(
            KasouErrorView::Validation(
                "a kernel cannot be combined with an EFI variable store"@,
            ),
        )
    } else {
        boot_mode_error(b.boot_mode@)
    }
}

/// The error `build` reports for a boot mode that misses a required file.
pub open spec fn boot_mode_error(m: BootModeView) -> Option<KasouErrorView> {
    match m {
        BootModeView::Linux { kernel, initrd, .. } => if kernel is None {
            Some(KasouErrorView::Validation("kernel path is required (call .boot())"@))
        } else if initrd is None {
            Some(KasouErrorView::Validation("initrd path is required (call .initrd())"@))
        } else {
            None
        },
        BootModeView::Efi { .. } => None,
    }
}

/// Whether `c` is the configuration that builder `b` assembles: its fields
/// carried over, the boot mode turned into a boot configuration (an unset
/// command line becoming empty), and no machine identifier path.
pub open spec fn assembles(b: VmConfigBuilder, c: VmConfig) -> bool {
    &&& c.id == b.id
    &&& c.cpus == b.cpus
    &&& c.memory_mib == b.memory_mib
    &&& c.disks == b.disks
    &&& c.network.mac_address == b.mac
    &&& c.serial == b.serial
    &&& c.shared_dirs == b.shared_dirs
    &&& c.machine_identifier_path is None
    &&& match b.boot_mode {
        BootMode::Linux { kernel, initrd, cmdline } => c.boot matches BootConfig::Linux {
            kernel: k,
            initrd: i,
            cmdline: l,
        } && kernel == Some(k) && initrd == Some(i) && l@ == (match cmdline {
            Some(x) => x@,
            None => Seq::<char>::empty(),
        }),
        BootMode::Efi { variable_store } => c.boot == BootConfig::Efi { variable_store },
    }
}

impl VmConfigBuilder {
    /// A builder for the VM named `id`: 2 CPUs, 2048 MiB, Linux boot with
    /// nothing set yet, no disks, no MAC, no serial console, no shares.
    pub fn new(id: &str) -> (r: Self)
        ensures
            r.id.0@ == id@,
            r.cpus == 2,
            r.memory_mib == 2048,
            r.boot_mode matches BootMode::Linux { kernel: None, initrd: None, cmdline: None },
            r.disks@.len() == 0,
            r.mac is None,
            r.serial is None,
            r.shared_dirs@.len() == 0,
            !r.boot_conflict,
    {
        VmConfigBuilder {
            id: VmId::from(id),
            cpus: 2,
            memory_mib: 2048,
            boot_mode: BootMode::default(),
            disks: Vec::new(),
            mac: None,
            serial: None,
            shared_dirs: Vec::new(),
            boot_conflict: false,
        }
    }

    /// Set the number of virtual CPUs.
    pub fn cpus(self, count: u32) -> (r: Self)
        ensures
            r == (VmConfigBuilder { cpus: count, ..self }),
    {
        VmConfigBuilder { cpus: count, ..self }
    }

    /// Set memory size in MiB.
    pub fn memory_mib(self, size: u64) -> (r: Self)
        ensures
            r == (VmConfigBuilder { memory_mib: size, ..self }),
    {
        VmConfigBuilder { memory_mib: size, ..self }
    }

    /// Set the kernel path for direct Linux boot; selects Linux boot. Combined
    /// with an EFI variable store, set before or after, it makes `build` fail.
    pub fn boot(self, kernel: String) -> (r: Self)
        ensures
            r.boot_mode@ == with_kernel(self.boot_mode@, kernel@),
            r.boot_conflict == (self.boot_conflict || efi_store_set(self.boot_mode@)),
            r == (VmConfigBuilder {
                boot_mode: r.boot_mode,
                boot_conflict: r.boot_conflict,
                ..self
            }),
    {
        let conflict = self.boot_conflict || self.boot_mode.has_efi_store();
        let mode = match self.boot_mode {
            BootMode::Linux { initrd, cmdline, .. } => BootMode::Linux {
                kernel: Some(kernel),
                initrd,
                cmdline,
            },
            BootMode::Efi { .. } => BootMode::Linux {
                kernel: Some(kernel),
                initrd: None,
                cmdline: None,
            },
        };
        VmConfigBuilder { boot_mode: mode, boot_conflict: conflict, ..self }
    }

    /// Set the initrd path (before or after `boot()`); selects Linux boot.
    pub fn initrd(self, initrd: String) -> (r: Self)
        ensures
            r.boot_mode@ == with_initrd(self.boot_mode@, initrd@),
            r == (VmConfigBuilder { boot_mode: r.boot_mode, ..self }),
    {
        let mode = match self.boot_mode {
            BootMode::Linux { kernel, cmdline, .. } => BootMode::Linux {
                kernel,
                initrd: Some(initrd),
                cmdline,
            },
            BootMode::Efi { .. } => BootMode::Linux {
                kernel: None,
                initrd: Some(initrd),
                cmdline: None,
            },
        };
        VmConfigBuilder { boot_mode: mode, ..self }
    }

    /// Set the kernel command line (in any order); selects Linux boot.
    pub fn cmdline(self, cmdline: &str) -> (r: Self)
        ensures
            r.boot_mode@ == with_cmdline(self.boot_mode@, cmdline@),
            r == (VmConfigBuilder { boot_mode: r.boot_mode, ..self }),
    {
        let line = cmdline.to_owned();
        let mode = match self.boot_mode {
            BootMode::Linux { kernel, initrd, .. } => BootMode::Linux {
                kernel,
                initrd,
                cmdline: Some(line),
            },
            BootMode::Efi { .. } => BootMode::Linux {
                kernel: None,
                initrd: None,
                cmdline: Some(line),
            },
        };
        VmConfigBuilder { boot_mode: mode, ..self }
    }

    /// Switch to EFI boot: the firmware boots the first EFI-bootable image
    /// on the attached disks. A variable store already chosen is kept.
    pub fn efi_boot(self) -> (r: Self)
        ensures
            r.boot_mode@ == with_efi(self.boot_mode@),
            r == (VmConfigBuilder { boot_mode: r.boot_mode, ..self }),
    {
        let mode = match self.boot_mode {
            BootMode::Efi { variable_store } => BootMode::Efi { variable_store },
            BootMode::Linux { .. } => BootMode::Efi { variable_store: None },
        };
        VmConfigBuilder { boot_mode: mode, ..self }
    }

    /// Persist EFI variables to `path` across boots. Implies EFI boot; a
    /// kernel set before for Linux boot makes `build` fail.
    pub fn efi_variable_store(self, path: String) -> (r: Self)
        ensures
            r == (VmConfigBuilder {
                boot_mode: BootMode::Efi { variable_store: Some(path) },
                boot_conflict: self.boot_conflict || kernel_set(self.boot_mode@),
                ..self
            }),
    {
        let conflict = self.boot_conflict || self.boot_mode.has_kernel();
        VmConfigBuilder {
            boot_mode: BootMode::Efi { variable_store: Some(path) },
            boot_conflict: conflict,
            ..self
        }
    }

    /// Add a read-write disk.
    pub fn disk(self, path: String) -> (r: Self)
        ensures
            r.disks@ == self.disks@.push(DiskConfig { path, read_only: false }),
            r == (VmConfigBuilder { disks: r.disks, ..self }),
    {
        let mut disks = self.disks;
        disks.push(DiskConfig { path, read_only: false });
        VmConfigBuilder { disks, ..self }
    }

    /// Add a read-only disk.
    pub fn disk_readonly(self, path: String) -> (r: Self)
        ensures
            r.disks@ == self.disks@.push(DiskConfig { path, read_only: true }),
            r == (VmConfigBuilder { disks: r.disks, ..self }),
    {
        let mut disks = self.disks;
        disks.push(DiskConfig { path, read_only: true });
        VmConfigBuilder { disks, ..self }
    }

    /// Enable NAT networking, which is the only attachment and the default.
    pub fn nat_network(self) -> (r: Self)
        ensures
            r == self,
    {
        self
    }

    /// Set the MAC address (colon-separated, e.g. `"5a:94:ef:ab:cd:12"`).
    pub fn mac(self, mac: &str) -> (r: Self)
        ensures
            r.mac matches Some(m) && m@ == mac@,
            r == (VmConfigBuilder { mac: r.mac, ..self }),
    {
        VmConfigBuilder { mac: Some(mac.to_owned()), ..self }
    }

    /// Use the deterministic MAC seeded by `seed` (e.g. the host name) and
    /// the VM's identifier.
    pub fn deterministic_mac(self, seed: &str) -> (r: Self)
        ensures
            r.mac matches Some(m) && m@ == mac_text(
                mac_from_hash_bytes(seeded_hash(seed@, self.id.0@)),
            ),
            r.mac matches Some(m) && m@ == mac_text(
                mac_from_hash_bytes(
                    DefaultHasher::spec_finish(
                        seq![
                            vstd::utf8::encode_utf8(seed@),
                            seq![0xffu8],
                            vstd::utf8::encode_utf8(self.id.0@),
                            seq![0xffu8],
                        ],
                    ),
                ),
            ),
            r == (VmConfigBuilder { mac: r.mac, ..self }),
    {
        let text = MacAddress::deterministic(seed, self.id.0.as_str()).to_string();
        VmConfigBuilder { mac: Some(text), ..self }
    }

    /// Set serial console output to a file.
    pub fn serial_file(self, path: String) -> (r: Self)
        ensures
            r == (VmConfigBuilder { serial: Some(SerialConfig { log_path: path }), ..self }),
    {
        VmConfigBuilder { serial: Some(SerialConfig { log_path: path }), ..self }
    }

    /// Add a shared directory (virtiofs) under `tag`.
    pub fn shared_dir(self, tag: &str, host_path: String, read_only: bool) -> (r: Self)
        ensures
            r.shared_dirs@.len() == self.shared_dirs@.len() + 1,
            r.shared_dirs@.drop_last() == self.shared_dirs@,
            r.shared_dirs@.last().tag@ == tag@,
            r.shared_dirs@.last().host_path == host_path,
            r.shared_dirs@.last().read_only == read_only,
            r == (VmConfigBuilder { shared_dirs: r.shared_dirs, ..self }),
    {
        let mut dirs = self.shared_dirs;
        let ghost before = dirs@;
        dirs.push(SharedDirConfig { tag: tag.to_owned(), host_path, read_only });
        assert(dirs@.drop_last() =~= before);
        VmConfigBuilder { shared_dirs: dirs, ..self }
    }

    /// Build the `VmConfig`: Linux-only settings must not have been combined
    /// with an EFI variable store, and a Linux boot needs a kernel and an
    /// initrd; the assembled configuration is then validated against the
    /// host.
    pub fn build(self) -> (r: Result<VmConfig, KasouError>)
        ensures
            builder_error(self) matches Some(e0) ==> (r matches Err(e) && e@ == e0),
            builder_error(self) is None ==> exists|
                c: VmConfig,
                present: Set<Seq<char>>,
            |
                #![trigger assembles(self, c), validation_outcome(c, present)]
                assembles(self, c) && match r {
                    Ok(v) => v == c && validation_outcome(c, present) is None,
                    Err(e) => validation_outcome(c, present) == Some(e@),
                },
    {
        let ghost before = self;
        if self.boot_conflict {
            return Err(
                KasouError::Validation(
                    "a kernel cannot be combined with an EFI variable store".to_owned(),
                ),
            );
        }
        let boot = match self.boot_mode {
            BootMode::Linux { kernel, initrd, cmdline } => {
                let kernel = match kernel {
                    Some(k) => k,
                    None => {
                        return Err(
                            KasouError::Validation(
                                "kernel path is required (call .boot())".to_owned(),
                            ),
                        );
                    },
                };
                let initrd = match initrd {
                    Some(i) => i,
                    None => {
                        return Err(
                            KasouError::Validation(
                                "initrd path is required (call .initrd())".to_owned(),
                            ),
                        );
                    },
                };
                let cmdline = match cmdline {
                    Some(c) => c,
                    None => String::new(),
                };
                BootConfig::Linux { kernel, initrd, cmdline }
            },
            BootMode::Efi { variable_store } => BootConfig::Efi { variable_store },
        };
        let config = VmConfig {
            id: self.id,
            cpus: self.cpus,
            memory_mib: self.memory_mib,
            boot,
            disks: self.disks,
            network: NetworkConfig { mac_address: self.mac },
            serial: self.serial,
            shared_dirs: self.shared_dirs,
            machine_identifier_path: None,
        };
        assert(assembles(before, config));
        match config.validate() {
            Ok(()) => Ok(config),
            Err(e) => Err(e),
        }
    }
}

/// Setting the kernel and the initrd commutes.
pub proof fn lemma_kernel_initrd_commute(m: BootModeView, k: Seq<char>, i: Seq<char>)
    ensures
        with_initrd(with_kernel(m, k), i) == with_kernel(with_initrd(m, i), k),
{
}

/// Setting the kernel and the command line commutes.
pub proof fn lemma_kernel_cmdline_commute(m: BootModeView, k: Seq<char>, c: Seq<char>)
    ensures
        with_cmdline(with_kernel(m, k), c) == with_kernel(with_cmdline(m, c), k),
{
}

/// Setting the initrd and the command line commutes.
pub proof fn lemma_initrd_cmdline_commute(m: BootModeView, i: Seq<char>, c: Seq<char>)
    ensures
        with_cmdline(with_initrd(m, i), c) == with_initrd(with_cmdline(m, c), i),
{
}

/// Whatever the builder's mode, setting kernel, initrd and command line —
/// in any of the six orders — gives Linux boot with exactly those three.
pub proof fn lemma_linux_fields_order_independent(
    m: BootModeView,
    k: Seq<char>,
    i: Seq<char>,
    c: Seq<char>,
)
    ensures
        ({
            let full = BootModeView::Linux { kernel: Some(k), initrd: Some(i), cmdline: Some(c) };
            &&& with_cmdline(with_initrd(with_kernel(m, k), i), c) == full
            &&& with_initrd(with_cmdline(with_kernel(m, k), c), i) == full
            &&& with_cmdline(with_kernel(with_initrd(m, i), k), c) == full
            &&& with_kernel(with_cmdline(with_initrd(m, i), c), k) == full
            &&& with_initrd(with_kernel(with_cmdline(m, c), k), i) == full
            &&& with_kernel(with_initrd(with_cmdline(m, c), i), k) == full
        }),
{
}

/// Switching to EFI boot twice is the same as switching once.
pub proof fn lemma_efi_idempotent(m: BootModeView)
    ensures
        with_efi(with_efi(m)) == with_efi(m),
{
}

} // verus!
