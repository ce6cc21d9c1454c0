//! Boot configuration and the boot loader that it calls for.

use vstd::prelude::*;

use crate::error::{KasouError, KasouErrorView};
use crate::paths::{holds_path, path_set};
use crate::text::{push_str, string_of};

verus! {

/// Boot loader configuration.
///
/// - `Linux` — direct Linux kernel boot: the kernel and initrd are loaded by
///   the framework and `cmdline` is passed to the kernel.
/// - `Efi` — UEFI firmware boot from the first EFI-bootable image on an
///   attached disk. With a `variable_store` path, EFI variables persist
///   across boots.
#[derive(Debug, Clone)]
pub enum BootConfig {
    /// Direct Linux kernel boot.
    Linux {
        /// Path to the Linux kernel image.
        kernel: String,
        /// Path to the initial ramdisk (initrd).
        initrd: String,
        /// Kernel command line arguments.
        cmdline: String,
    },
    /// UEFI firmware boot — boots from an EFI-bootable disk in the VM's disk set.
    Efi {
        /// Optional path to persist EFI variables across boots. If `None`,
        /// variables are volatile. The file is created if missing.
        variable_store: Option<String>,
    },
}

impl BootConfig {
    /// A Linux-boot config.
    pub fn linux(kernel: String, initrd: String, cmdline: &str) -> (r: Self)
        ensures
            r matches BootConfig::Linux { kernel: k, initrd: i, cmdline: c } && k == kernel && i
                == initrd && c@ == cmdline@,
    {
        BootConfig::Linux { kernel, initrd, cmdline: cmdline.to_owned() }
    }

    /// An EFI-boot config with no persisted variables.
    pub fn efi() -> (r: Self)
        ensures
            r matches BootConfig::Efi { variable_store: None },
    {
        BootConfig::Efi { variable_store: None }
    }

    /// An EFI-boot config persisting variables to `path`.
    pub fn efi_with_variable_store(path: String) -> (r: Self)
        ensures
            r matches BootConfig::Efi { variable_store: Some(p) } && p == path,
    {
        BootConfig::Efi { variable_store: Some(path) }
    }
}

/// What to do with the EFI variable store file.
#[derive(Debug, Clone)]
pub enum EfiStoreAction {
    /// The file exists: open it and reuse its variables.
    Open(String),
    /// The file is missing: create a fresh store there.
    Create(String),
}

/// The boot loader to install on the framework configuration.
#[derive(Debug, Clone)]
pub enum BootLoaderPlan {
    /// A Linux boot loader for `kernel`, with `initrd` and `cmdline` set.
    Linux { kernel: String, initrd: String, cmdline: String },
    /// An EFI boot loader, with the variable store to attach if any.
    Efi { variable_store: Option<EfiStoreAction> },
}

/// The boot loader that `config` calls for, given the set of paths that
/// exist: a Linux loader needs its kernel and then its initrd to exist; an
/// EFI store is opened when its file exists and created otherwise.
pub open spec fn boot_loader_outcome(config: BootConfig, present: Set<Seq<char>>) -> Result<
    BootLoaderPlan,
    KasouErrorView,
> {
    match config {
        BootConfig::Linux { kernel, initrd, cmdline } => {
            if !present.contains(kernel@) {
                Err(KasouErrorView::BootFilesNotFound("kernel not found: "@ + kernel@))
            } else if !present.contains(initrd@) {
                Err(KasouErrorView::BootFilesNotFound("initrd not found: "@ + initrd@))
            } else {
                Ok(BootLoaderPlan::Linux { kernel, initrd, cmdline })
            }
        },
        BootConfig::Efi { variable_store } => match variable_store {
            None => Ok(BootLoaderPlan::Efi { variable_store: None }),
            Some(p) => if present.contains(p@) {
                Ok(BootLoaderPlan::Efi { variable_store: Some(EfiStoreAction::Open(p)) })
            } else {
                Ok(BootLoaderPlan::Efi { variable_store: Some(EfiStoreAction::Create(p)) })
            },
        },
    }
}

/// Whether a result agrees with an outcome, errors compared by their view.
pub open spec fn agrees<T>(r: Result<T, KasouError>, o: Result<T, KasouErrorView>) -> bool {
    match r {
        Ok(v) => o == Ok::<T, KasouErrorView>(v),
        Err(e) => o == Err::<T, KasouErrorView>(e@),
    }
}

/// The text `prefix` followed by `path`.
fn message(prefix: &str, path: &str) -> (r: String)
    ensures
        r@ == prefix@ + path@,
{
    let mut buf: Vec<char> = Vec::new();
    push_str(&mut buf, prefix);
    push_str(&mut buf, path);
    string_of(&buf)
}

/// Decides the boot loader for `config`, where `present` lists the paths
/// known to exist.
pub fn plan_boot_loader(config: &BootConfig, present: &Vec<String>) -> (r: Result<
    BootLoaderPlan,
    KasouError,
>)
    ensures
        agrees(r, boot_loader_outcome(*config, path_set(present@))),
{
    match config {
        BootConfig::Linux { kernel, initrd, cmdline } => {
            if !holds_path(present, kernel) {
                return Err(
                    KasouError::BootFilesNotFound(message("kernel not found: ", kernel.as_str())),
                );
            }
            if !holds_path(present, initrd) {
                return Err(
                    KasouError::BootFilesNotFound(message("initrd not found: ", initrd.as_str())),
                );
            }
            Ok(
                BootLoaderPlan::Linux {
                    kernel: kernel.clone(),
                    initrd: initrd.clone(),
                    cmdline: cmdline.clone(),
                },
            )
        },
        BootConfig::Efi { variable_store } => match variable_store {
            None => Ok(BootLoaderPlan::Efi { variable_store: None }),
            Some(p) => {
                if holds_path(present, p) {
                    Ok(BootLoaderPlan::Efi { variable_store: Some(EfiStoreAction::Open(p.clone())) })
                } else {
                    Ok(
                        BootLoaderPlan::Efi {
                            variable_store: Some(EfiStoreAction::Create(p.clone())),
                        },
                    )
                }
            },
        },
    }
}

/// The error reported when the framework cannot create the EFI variable
/// store at `path`, with its description `detail`.
pub fn efi_store_creation_error(path: &str, detail: &str) -> (r: KasouError)
    ensures
        r@ == KasouErrorView::Framework(
            "failed to create EFI variable store at "@ + path@ + ": "@ + detail@,
        ),
{
    let mut buf: Vec<char> = Vec::new();
    push_str(&mut buf, "failed to create EFI variable store at ");
    push_str(&mut buf, path);
    push_str(&mut buf, ": ");
    push_str(&mut buf, detail);
    let s = string_of(&buf);
    assert(s@ =~= "failed to create EFI variable store at "@ + path@ + ": "@ + detail@);
    KasouError::Framework(s)
}

} // verus!
