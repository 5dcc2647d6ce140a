//! Synchronisation: telling which local files a remote side lacks or holds
//! in another version.

use vstd::prelude::*;
use std::path::PathBuf;

verus! {

#[verifier::external_type_specification]
#[verifier::external_body]
pub struct ExPathBuf(PathBuf);

/// `Clone` of std for `PathBuf`: a copy equal to the path.
pub assume_specification[ <PathBuf as Clone>::clone ](p: &PathBuf) -> (r: PathBuf)
    ensures
        r == *p,
;

/// A local file as synchronisation sees it.
#[derive(Clone, Debug)]
pub struct SyncFileInfo {
    pub path: PathBuf,
    pub relative_path: String,
    pub size: u64,
    /// Time of the last change, in seconds since the Unix epoch.
    pub modified: u64,
    /// Fingerprint of the content.
    pub quick_hash: u64,
}

/// A file on the remote side.
#[derive(Clone, Debug)]
pub struct RemoteFileInfo {
    pub relative_path: String,
    pub size: u64,
    pub modified: u64,
    pub quick_hash: u64,
}

/// The outcome of comparing the two sides.
#[derive(Clone, Debug)]
pub struct SyncDiff {
    /// Local files that are new or changed, in local order.
    pub to_transfer: Vec<SyncFileInfo>,
    /// Paths of local files the remote side holds unchanged.
    pub unchanged: Vec<String>,
    /// Paths that only the remote side holds, in remote order.
    pub remote_only: Vec<String>,
}

impl SyncFileInfo {
    /// A file differs from its remote counterpart when the size or the
    /// fingerprint differs.
    pub open spec fn needs_update_spec(&self, remote: &RemoteFileInfo) -> bool {
        self.size != remote.size || self.quick_hash != remote.quick_hash
    }

    /// Whether the file must be sent again.
    pub fn needs_update(&self, remote: &RemoteFileInfo) -> (r: bool)
        ensures
            r == self.needs_update_spec(remote),
    {
        self.size != remote.size || self.quick_hash != remote.quick_hash
    }

    fn duplicate(&self) -> (r: Self)
        ensures
            r == *self,
    {
        SyncFileInfo {
            path: self.path.clone(),
            relative_path: self.relative_path.clone(),
            size: self.size,
            modified: self.modified,
            quick_hash: self.quick_hash,
        }
    }
}

/// Sum of the sizes of the files.
pub open spec fn total_size(files: Seq<SyncFileInfo>) -> int
    decreases files.len(),
{
    if files.len() == 0 {
        0
    } else {
        total_size(files.drop_last()) + files.last().size
    }
}

impl SyncDiff {
    /// Bytes to transfer: the sum of the sizes, capped at `u64::MAX`.
    pub fn transfer_size(&self) -> (r: u64)
        ensures
            r == if total_size(self.to_transfer@) > u64::MAX {
                u64::MAX as int
            } else {
                total_size(self.to_transfer@)
            },
    {
        let mut sum: u64 = 0;
        let mut i: usize = 0;
        proof {
            assert(self.to_transfer@.take(0) =~= Seq::<SyncFileInfo>::empty());
        }
        while i < self.to_transfer.len()
            invariant
                i <= self.to_transfer.len(),
                total_size(self.to_transfer@.take(i as int)) >= 0,
                sum == if total_size(self.to_transfer@.take(i as int)) > u64::MAX {
                    u64::MAX as int
                } else {
                    total_size(self.to_transfer@.take(i as int))
                },
            decreases self.to_transfer.len() - i,
        {
            proof {
                assert(self.to_transfer@.take(i + 1).drop_last() =~= self.to_transfer@.take(
                    i as int,
                ));
            }
            sum = sum.saturating_add(self.to_transfer[i].size);
            i += 1;
        }
        proof {
            assert(self.to_transfer@.take(self.to_transfer@.len() as int) =~= self.to_transfer@);
        }
        sum
    }
}

/// The remote entry for a path: the last one of that path, if any.
pub open spec fn remote_entry(remote: Seq<RemoteFileInfo>, path: Seq<char>) -> Option<int>
    decreases remote.len(),
{
    if remote.len() == 0 {
        None
    } else if remote.last().relative_path@ == path {
        Some(remote.len() - 1)
    } else {
        remote_entry(remote.drop_last(), path)
    }
}

/// Whether a local file is sent: the remote side lacks it or holds
/// another version.
pub open spec fn is_sent(f: SyncFileInfo, remote: Seq<RemoteFileInfo>) -> bool {
    match remote_entry(remote, f.relative_path@) {
        None => true,
        Some(i) => f.needs_update_spec(&remote[i]),
    }
}

/// The local files that are sent, in order.
pub open spec fn sent_files(local: Seq<SyncFileInfo>, remote: Seq<RemoteFileInfo>) -> Seq<SyncFileInfo>
    decreases local.len(),
{
    if local.len() == 0 {
        Seq::empty()
    } else if is_sent(local.last(), remote) {
        sent_files(local.drop_last(), remote).push(local.last())
    } else {
        sent_files(local.drop_last(), remote)
    }
}

/// The paths of the local files that are not sent, in order.
pub open spec fn kept_paths(local: Seq<SyncFileInfo>, remote: Seq<RemoteFileInfo>) -> Seq<Seq<char>>
    decreases local.len(),
{
    if local.len() == 0 {
        Seq::empty()
    } else if is_sent(local.last(), remote) {
        kept_paths(local.drop_last(), remote)
    } else {
        kept_paths(local.drop_last(), remote).push(local.last().relative_path@)
    }
}

pub open spec fn is_local(local: Seq<SyncFileInfo>, path: Seq<char>) -> bool {
    exists|i: int| 0 <= i < local.len() && (#[trigger] local[i]).relative_path@ == path
}

/// The remote paths that no local file has, in order.
pub open spec fn orphan_paths(local: Seq<SyncFileInfo>, remote: Seq<RemoteFileInfo>) -> Seq<Seq<char>>
    decreases remote.len(),
{
    if remote.len() == 0 {
        Seq::empty()
    } else if is_local(local, remote.last().relative_path@) {
        orphan_paths(local, remote.drop_last())
    } else {
        orphan_paths(local, remote.drop_last()).push(remote.last().relative_path@)
    }
}

/// The texts of a vector of strings.
pub open spec fn texts(v: Seq<String>) -> Seq<Seq<char>> {
    Seq::new(v.len(), |i: int| v[i]@)
}

fn find_remote(remote: &[RemoteFileInfo], path: &String) -> (r: Option<usize>)
    ensures
        match r {
            Some(i) => remote_entry(remote@, path@) == Some(i as int) && i < remote@.len(),
            None => remote_entry(remote@, path@) is None,
        },
{
    let mut i: usize = remote.len();
    proof {
        assert(remote@.take(remote@.len() as int) =~= remote@);
    }
    while i > 0
        invariant
            i <= remote.len(),
            remote_entry(remote@, path@) == remote_entry(remote@.take(i as int), path@),
        decreases i,
    {
        proof {
            assert(remote@.take(i as int).last() == remote@[i - 1]);
            assert(remote@.take(i as int).drop_last() =~= remote@.take(i - 1));
        }
        if remote[i - 1].relative_path == *path {
            return Some(i - 1);
        }
        i -= 1;
    }
    None
}

fn has_local(local: &[SyncFileInfo], path: &String) -> (r: bool)
    ensures
        r == is_local(local@, path@),
{
    let mut i: usize = 0;
    while i < local.len()
        invariant
            i <= local.len(),
            forall|j: int| 0 <= j < i ==> (#[trigger] local@[j]).relative_path@ != path@,
        decreases local.len() - i,
    {
        if local[i].relative_path == *path {
            return true;
        }
        i += 1;
    }
    false
}

/// Compares the local files with the remote list.
pub fn compute_sync_diff(local: &[SyncFileInfo], remote: &[RemoteFileInfo]) -> (d: SyncDiff)
    ensures
        d.to_transfer@ == sent_files(local@, remote@),
        texts(d.unchanged@) == kept_paths(local@, remote@),
        texts(d.remote_only@) == orphan_paths(local@, remote@),
{
    let mut to_transfer: Vec<SyncFileInfo> = Vec::new();
    let mut unchanged: Vec<String> = Vec::new();
    let mut i: usize = 0;
    proof {
        assert(local@.take(0) =~= Seq::<SyncFileInfo>::empty());
        assert(texts(unchanged@) =~= kept_paths(local@.take(0), remote@));
    }
    while i < local.len()
        invariant
            i <= local.len(),
            to_transfer@ == sent_files(local@.take(i as int), remote@),
            texts(unchanged@) == kept_paths(local@.take(i as int), remote@),
        decreases local.len() - i,
    {
        let ghost before = unchanged@;
        proof {
            assert(local@.take(i + 1).drop_last() =~= local@.take(i as int));
            assert(local@.take(i + 1).last() == local@[i as int]);
        }
        let sent = match find_remote(remote, &local[i].relative_path) {
            Some(k) => local[i].needs_update(&remote[k]),
            None => true,
        };
        if sent {
            to_transfer.push(local[i].duplicate());
        } else {
            unchanged.push(local[i].relative_path.clone());
            proof {
                assert(texts(unchanged@) =~= texts(before).push(local@[i as int].relative_path@));
            }
        }
        i += 1;
    }
    proof {
        assert(local@.take(local@.len() as int) =~= local@);
    }
    let mut remote_only: Vec<String> = Vec::new();
    let mut j: usize = 0;
    proof {
        assert(remote@.take(0) =~= Seq::<RemoteFileInfo>::empty());
        assert(texts(remote_only@) =~= orphan_paths(local@, remote@.take(0)));
    }
    while j < remote.len()
        invariant
            j <= remote.len(),
            texts(remote_only@) == orphan_paths(local@, remote@.take(j as int)),
        decreases remote.len() - j,
    {
        let ghost before = remote_only@;
        proof {
            assert(remote@.take(j + 1).drop_last() =~= remote@.take(j as int));
            assert(remote@.take(j + 1).last() == remote@[j as int]);
        }
        if !has_local(local, &remote[j].relative_path) {
            remote_only.push(remote[j].relative_path.clone());
            proof {
                assert(texts(remote_only@) =~= texts(before).push(remote@[j as int].relative_path@));
            }
        }
        j += 1;
    }
    proof {
        assert(remote@.take(remote@.len() as int) =~= remote@);
    }
    SyncDiff { to_transfer, unchanged, remote_only }
}

} // verus!
