//! Host directories shared with the guest via virtiofs.

use vstd::prelude::*;

use crate::boot::agrees;
use crate::error::{KasouError, KasouErrorView};
use crate::paths::{holds_path, path_set};
use crate::text::{push_str, string_of};

verus! {

/// Configuration for sharing a host directory with the guest via virtiofs.
#[derive(Debug, Clone)]
pub struct SharedDirConfig {
    /// Tag used by the guest to mount this share (e.g. "share0").
    pub tag: String,
    /// Path on the host to share.
    pub host_path: String,
    /// Whether the share is read-only.
    pub read_only: bool,
}

/// The share for a directory, given the set of paths that exist: the host
/// directory must exist.
pub open spec fn share_outcome(config: SharedDirConfig, present: Set<Seq<char>>) -> Result<
    SharedDirConfig,
    KasouErrorView,
> {
    if !present.contains(config.host_path@) {
        Err(
            KasouErrorView::InvalidConfig(
                "shared directory does not exist: "@ + config.host_path@,
            ),
        )
    } else {
        Ok(config)
    }
}

/// A share is planned exactly when its host directory is known to exist,
/// and then it is the requested share unchanged: same tag, same host
/// directory, and read-only exactly when requested.
pub proof fn lemma_share_keeps_request(config: SharedDirConfig, present: Set<Seq<char>>)
    ensures
        share_outcome(config, present) is Ok <==> present.contains(config.host_path@),
        share_outcome(config, present) matches Ok(s) ==> s.tag == config.tag && s.host_path
            == config.host_path && s.read_only == config.read_only,
{
}

/// Decides whether `config` can be shared, where `present` lists the paths
/// known to exist; on success the share to create is `config` itself.
pub fn plan_shared_dir(config: &SharedDirConfig, present: &Vec<String>) -> (r: Result<
    SharedDirConfig,
    KasouError,
>)
    ensures
        agrees(r, share_outcome(*config, path_set(present@))),
        r is Ok <==> path_set(present@).contains(config.host_path@),
        r matches Ok(s) ==> s.tag@ == config.tag@ && s.host_path@ == config.host_path@
            && s.read_only == config.read_only,
{
    if !holds_path(present, &config.host_path) {
        let mut buf: Vec<char> = Vec::new();
        push_str(&mut buf, "shared directory does not exist: ");
        push_str(&mut buf, config.host_path.as_str());
        return Err(KasouError::InvalidConfig(string_of(&buf)));
    }
    Ok(
        SharedDirConfig {
            tag: config.tag.clone(),
            host_path: config.host_path.clone(),
            read_only: config.read_only,
        },
    )
}

} // verus!
