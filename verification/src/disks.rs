//! Mounted filesystems: which of them are disks, and how large each is.

use vstd::prelude::*;
use vstd::string::*;

verus! {

/// A mounted disk: where it is mounted, and its size and free space in bytes.
#[derive(Debug)]
pub struct Disk {
    pub mount: String,
    pub available: u64,
    pub total: u64,
}

/// A disk as contracts speak of it.
pub struct DiskView {
    pub mount: Seq<char>,
    pub available: u64,
    pub total: u64,
}

impl View for Disk {
    type V = DiskView;

    open spec fn view(&self) -> DiskView {
        DiskView { mount: self.mount@, available: self.available, total: self.total }
    }
}

/// The statistics of a filesystem could not be read; holds the system's
/// error number.
#[derive(Debug)]
pub struct DiskStatsError(pub i32);

impl DiskStatsError {
    /// The message shown for this error.
    pub fn message(&self) -> (r: String)
        ensures
            r@ == "Failed to get information!"@,
    {
        String::from_str("Failed to get information!")
    }
}

/// The statistics of one filesystem, in blocks.
#[derive(Clone, Copy, Debug)]
pub struct FsStats {
    pub block_size: u64,
    pub blocks: u64,
    pub blocks_available: u64,
}

impl FsStats {
    /// Both sizes, in bytes, fit in 64 bits.
    pub open spec fn wf(&self) -> bool {
        &&& self.block_size * self.blocks <= u64::MAX
        &&& self.block_size * self.blocks_available <= u64::MAX
    }

    /// Whether both sizes, in bytes, fit in 64 bits.
    pub fn is_wf(&self) -> (r: bool)
        ensures
            r == self.wf(),
    {
        self.block_size.checked_mul(self.blocks).is_some() && self.block_size.checked_mul(
            self.blocks_available,
        ).is_some()
    }
}

/// One line of the mount table, with the outcome of asking for the
/// statistics of what is mounted there: the statistics, or the system's
/// error number.
#[derive(Debug)]
pub struct Mount {
    pub spec: String,
    pub file: String,
    pub stats: Result<FsStats, i32>,
}

impl Mount {
    /// The statistics, where there are any, are well formed.
    pub open spec fn wf(&self) -> bool {
        self.stats is Ok ==> self.stats->Ok_0.wf()
    }
}

/// The prefix by which the source of a disk's mount is known.
pub open spec fn device_prefix() -> Seq<char> {
    seq!['/', 'd', 'e', 'v']
}

/// Whether the mount source `spec` names a device.
pub open spec fn is_device(spec: Seq<char>) -> bool {
    device_prefix().is_prefix_of(spec)
}

/// Whether the mount source `spec` names a device: whether it starts with
/// `/dev`.
pub fn is_device_backed(spec: &str) -> (r: bool)
    ensures
        r == is_device(spec@),
{
    let n: usize = spec.unicode_len();
    if n < 4 {
        return false;
    }
    let r = spec.get_char(0) == '/' && spec.get_char(1) == 'd' && spec.get_char(2) == 'e'
        && spec.get_char(3) == 'v';
    proof {
        if r {
            assert(spec@.subrange(0, 4) =~= device_prefix());
        } else {
            assert(spec@.subrange(0, 4) != device_prefix()) by {
                if spec@.subrange(0, 4) == device_prefix() {
                    assert(spec@.subrange(0, 4)[0] == '/');
                    assert(spec@.subrange(0, 4)[1] == 'd');
                    assert(spec@.subrange(0, 4)[2] == 'e');
                    assert(spec@.subrange(0, 4)[3] == 'v');
                }
            }
        }
    }
    r
}

/// The disk that statistics `stats` describe, mounted at `mount`.
pub open spec fn disk_of(mount: Seq<char>, stats: FsStats) -> DiskView {
    DiskView {
        mount,
        available: (stats.block_size * stats.blocks_available) as u64,
        total: (stats.block_size * stats.blocks) as u64,
    }
}

/// The disk mounted at `mount_path`, from the outcome of asking for its
/// statistics. Sizes are the block size times the number of blocks; a failed
/// query becomes the error that holds its number.
pub fn get_disk_info(mount_path: &str, stats: Result<FsStats, i32>) -> (r: Result<
    Disk,
    DiskStatsError,
>)
    requires
        stats is Ok ==> stats->Ok_0.wf(),
    ensures
        match stats {
            Ok(s) => r is Ok && r->Ok_0@ == disk_of(mount_path@, s),
            Err(errno) => r is Err && r->Err_0.0 == errno,
        },
{
    match stats {
        Ok(s) => Ok(
            Disk {
                mount: String::from_str(mount_path),
                available: s.block_size * s.blocks_available,
                total: s.block_size * s.blocks,
            },
        ),
        Err(errno) => Err(DiskStatsError(errno)),
    }
}

/// Whether a line of the mount table is listed as a disk: its source names a
/// device and its statistics could be read.
pub open spec fn is_listed(mount: Mount) -> bool {
    is_device(mount.spec@) && mount.stats is Ok
}

/// The disks among the first `n` lines of `mounts`, in the table's order.
pub open spec fn listed_disks(mounts: Seq<Mount>, n: int) -> Seq<DiskView>
    decreases n,
{
    if n <= 0 {
        Seq::empty()
    } else {
        let before = listed_disks(mounts, n - 1);
        let mount = mounts[n - 1];
        if is_listed(mount) {
            before.push(disk_of(mount.file@, mount.stats->Ok_0))
        } else {
            before
        }
    }
}

/// The disks that a mount table lists; none where the table could not be
/// read.
pub open spec fn disks_of_table(mounts: Option<Vec<Mount>>) -> Seq<DiskView> {
    match mounts {
        Some(table) => listed_disks(table@, table@.len() as int),
        None => Seq::empty(),
    }
}

/// The disks of a list, as contracts speak of them.
pub open spec fn disk_views(disks: Seq<Disk>) -> Seq<DiskView> {
    Seq::new(disks.len(), |i: int| disks[i]@)
}

/// The disks of a mount table, bytes per disk, in the table's order. A line
/// whose source is no device is left out, and so is one whose statistics
/// could not be read; a table that could not be read gives no disks.
pub fn get_disks_info(mounts: Option<Vec<Mount>>) -> (r: Vec<Disk>)
    requires
        mounts is Some ==> forall|i: int|
            0 <= i < mounts->Some_0@.len() ==> (#[trigger] mounts->Some_0@[i]).wf(),
    ensures
        disk_views(r@) == disks_of_table(mounts),
{
    let mut disks: Vec<Disk> = Vec::new();
    match mounts {
        None => {
            assert(disk_views(disks@) =~= Seq::<DiskView>::empty());
        },
        Some(table) => {
            let n: usize = table.len();
            let mut i: usize = 0;
            assert(disk_views(disks@) =~= listed_disks(table@, 0));
            while i < n
                invariant
                    n == table@.len(),
                    0 <= i <= n,
                    forall|k: int| 0 <= k < table@.len() ==> (#[trigger] table@[k]).wf(),
                    disk_views(disks@) == listed_disks(table@, i as int),
                decreases n - i,
            {
                let mount = &table[i];
                let ghost before = disk_views(disks@);
                if is_device_backed(mount.spec.as_str()) {
                    if let Ok(disk) = get_disk_info(mount.file.as_str(), mount.stats) {
                        disks.push(disk);
                        assert(disk_views(disks@) =~= before.push(
                            disk_of(mount.file@, mount.stats->Ok_0),
                        ));
                    }
                }
                i = i + 1;
            }
        },
    }
    disks
}

/// A line whose source is no device never adds a disk, whatever its
/// statistics say.
pub proof fn lemma_other_sources_left_out(mounts: Seq<Mount>, n: int)
    requires
        0 < n <= mounts.len(),
        !is_device(mounts[n - 1].spec@),
    ensures
        listed_disks(mounts, n) == listed_disks(mounts, n - 1),
{
}

} // verus!
