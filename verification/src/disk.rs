//! Disk images attached as virtio block devices.

use vstd::prelude::*;

use crate::boot::agrees;
use crate::error::{KasouError, KasouErrorView};
use crate::paths::{holds_path, path_set};
use crate::text::{push_str, string_of};

verus! {

/// Configuration for a virtio block device backed by a disk image.
#[derive(Debug, Clone)]
pub struct DiskConfig {
    /// Path to the raw disk image file.
    pub path: String,
    /// Whether the disk should be mounted read-only.
    pub read_only: bool,
}

/// Host caching of a disk image.
#[derive(Debug, Clone, Copy, PartialEq, Eq, Structural)]
pub enum DiskCaching {
    Automatic,
    Cached,
    Uncached,
}

/// How guest writes are synchronised to the disk image.
#[derive(Debug, Clone, Copy, PartialEq, Eq, Structural)]
pub enum DiskSync {
    Full,
    Fsync,
    Unsynchronized,
}

/// How a disk image is to be attached.
#[derive(Debug, Clone)]
pub struct StoragePlan {
    pub path: String,
    pub read_only: bool,
    pub caching: DiskCaching,
    pub sync: DiskSync,
}

/// The attachment for a disk, given the set of paths that exist: the image
/// must exist; it is attached cached with full synchronisation (the
/// automatic mode is known to corrupt ext4 file systems in Linux guests).
pub open spec fn storage_outcome(config: DiskConfig, present: Set<Seq<char>>) -> Result<
    StoragePlan,
    KasouErrorView,
> {
    if !present.contains(config.path@) {
        Err(KasouErrorView::DiskNotFound(config.path@))
    } else {
        Ok(
            StoragePlan {
                path: config.path,
                read_only: config.read_only,
                caching: DiskCaching::Cached,
                sync: DiskSync::Full,
            },
        )
    }
}

/// Decides how to attach `config`, where `present` lists the paths known to
/// exist.
pub fn plan_storage_device(config: &DiskConfig, present: &Vec<String>) -> (r: Result<
    StoragePlan,
    KasouError,
>)
    ensures
        agrees(r, storage_outcome(*config, path_set(present@))),
{
    if !holds_path(present, &config.path) {
        return Err(KasouError::DiskNotFound(config.path.clone()));
    }
    Ok(
        StoragePlan {
            path: config.path.clone(),
            read_only: config.read_only,
            caching: DiskCaching::Cached,
            sync: DiskSync::Full,
        },
    )
}

/// The error reported when the framework refuses to attach the image at
/// `path`, with its description `detail`.
pub fn attachment_error(path: &str, detail: &str) -> (r: KasouError)
    ensures
        r@ == KasouErrorView::Framework(
            "failed to create disk attachment for "@ + path@ + ": "@ + detail@,
        ),
{
    let mut buf: Vec<char> = Vec::new();
    push_str(&mut buf, "failed to create disk attachment for ");
    push_str(&mut buf, path);
    push_str(&mut buf, ": ");
    push_str(&mut buf, detail);
    let s = string_of(&buf);
    assert(s@ =~= "failed to create disk attachment for "@ + path@ + ": "@ + detail@);
    KasouError::Framework(s)
}

} // verus!
