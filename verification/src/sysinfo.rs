//! The system snapshot: one answer put together from readings of the host,
//! each of which may be missing.

use vstd::prelude::*;
use vstd::string::*;
use vstd::utf8::*;
use crate::command::decode_text;
use crate::disks::{disk_views, disks_of_table, get_disks_info, Disk, DiskView, Mount};
use crate::text::{opt_text, or_empty, text_or_empty};
use crate::units::{Megabytes, BYTES_PER_KILOBYTE};

verus! {

/// What the operating system's release file says of itself.
#[derive(Clone, Debug)]
pub struct OsRelease {
    pub pretty_name: Option<String>,
    pub version: Option<String>,
}

/// Memory and swap, in kilobytes.
#[derive(Clone, Copy, Debug)]
pub struct MemInfo {
    pub total: u64,
    pub free: u64,
    pub swap_total: u64,
    pub swap_free: u64,
}

impl MemInfo {
    /// No more is free than there is.
    pub open spec fn wf(&self) -> bool {
        self.free <= self.total && self.swap_free <= self.swap_total
    }

    /// Whether no more is free than there is.
    pub fn is_wf(&self) -> (r: bool)
        ensures
            r == self.wf(),
    {
        self.free <= self.total && self.swap_free <= self.swap_total
    }
}

/// The readings of the host. A reading that could not be taken is missing.
/// The load average is carried as the bits of its IEEE 754 double.
#[derive(Clone, Debug)]
pub struct HostFacts {
    pub os_release: Option<OsRelease>,
    pub kernel_version: Option<String>,
    pub hostname: Option<String>,
    pub cpu_cores: Option<u32>,
    pub load_average_bits: Option<u64>,
    pub memory: Option<MemInfo>,
    pub boot_secs: Option<u64>,
}

impl HostFacts {
    /// The memory reading, where there is one, is well formed.
    pub open spec fn wf(&self) -> bool {
        self.memory is Some ==> self.memory->Some_0.wf()
    }
}

/// One temperature input of a monitoring chip: its label, and its value in
/// thousandths of a degree Celsius where it could be read.
#[derive(Clone, Debug)]
pub struct SensorRead {
    pub label: String,
    pub millidegrees: Option<i32>,
}

/// A temperature, in thousandths of a degree Celsius.
#[derive(Clone, Debug)]
pub struct Temperature {
    pub label: String,
    pub millidegrees: i32,
}

/// A temperature as contracts speak of it.
pub struct TemperatureView {
    pub label: Seq<char>,
    pub millidegrees: i32,
}

impl View for Temperature {
    type V = TemperatureView;

    open spec fn view(&self) -> TemperatureView {
        TemperatureView { label: self.label@, millidegrees: self.millidegrees }
    }
}

/// A disk, in megabytes.
#[derive(Clone, Debug)]
pub struct DiskUsage {
    pub mount: String,
    pub total: Megabytes,
    pub available: Megabytes,
}

/// A disk in megabytes as contracts speak of it.
pub struct DiskUsageView {
    pub mount: Seq<char>,
    pub total: Megabytes,
    pub available: Megabytes,
}

impl View for DiskUsage {
    type V = DiskUsageView;

    open spec fn view(&self) -> DiskUsageView {
        DiskUsageView { mount: self.mount@, total: self.total, available: self.available }
    }
}

/// Memory and swap, in megabytes.
#[derive(Clone, Copy, Debug, PartialEq, Eq, Structural)]
pub struct MemoryUsage {
    pub total: Megabytes,
    pub used: Megabytes,
    pub swap_total: Megabytes,
    pub swap_used: Megabytes,
}

/// The snapshot of the host.
#[derive(Clone, Debug)]
pub struct SystemInfo {
    pub hardware: String,
    pub system_name: String,
    pub os_version: Option<String>,
    pub kernel_ver: String,
    pub last_update: Option<String>,
    pub hostname: String,
    pub boot_time: String,
    pub cpu_cores_count: u32,
    pub cpu_load_avg_bits: u64,
    pub mem_total: Megabytes,
    pub mem_used: Megabytes,
    pub swap_total: Megabytes,
    pub swap_used: Megabytes,
    pub disk: Vec<DiskUsage>,
    pub temperature: Vec<Temperature>,
}

/// The snapshot as contracts speak of it.
pub struct SystemInfoView {
    pub hardware: Seq<char>,
    pub system_name: Seq<char>,
    pub os_version: Option<Seq<char>>,
    pub kernel_ver: Seq<char>,
    pub last_update: Option<Seq<char>>,
    pub hostname: Seq<char>,
    pub boot_time: Seq<char>,
    pub cpu_cores_count: u32,
    pub cpu_load_avg_bits: u64,
    pub memory: MemoryUsage,
    pub disk: Seq<DiskUsageView>,
    pub temperature: Seq<TemperatureView>,
}

/// The disks of a list in megabytes, as contracts speak of them.
pub open spec fn usage_views(disks: Seq<DiskUsage>) -> Seq<DiskUsageView> {
    Seq::new(disks.len(), |i: int| disks[i]@)
}

/// The temperatures of a list, as contracts speak of them.
pub open spec fn temperature_views(temps: Seq<Temperature>) -> Seq<TemperatureView> {
    Seq::new(temps.len(), |i: int| temps[i]@)
}

impl View for SystemInfo {
    type V = SystemInfoView;

    open spec fn view(&self) -> SystemInfoView {
        SystemInfoView {
            hardware: self.hardware@,
            system_name: self.system_name@,
            os_version: opt_text(self.os_version),
            kernel_ver: self.kernel_ver@,
            last_update: opt_text(self.last_update),
            hostname: self.hostname@,
            boot_time: self.boot_time@,
            cpu_cores_count: self.cpu_cores_count,
            cpu_load_avg_bits: self.cpu_load_avg_bits,
            memory: MemoryUsage {
                total: self.mem_total,
                used: self.mem_used,
                swap_total: self.swap_total,
                swap_used: self.swap_used,
            },
            disk: usage_views(self.disk@),
            temperature: temperature_views(self.temperature@),
        }
    }
}

/// Why no snapshot could be made.
#[derive(Clone, Copy, Debug, PartialEq, Eq, Structural)]
pub enum SnapshotError {
    /// The monitoring chips could not be enumerated.
    ChipEnumerationFailed,
}

/// Memory and swap in megabytes: each kilobyte count divided by 1024, used
/// being total less free; all zero where there is no reading.
pub open spec fn memory_usage_of(memory: Option<MemInfo>) -> MemoryUsage {
    match memory {
        Some(info) => MemoryUsage {
            total: Megabytes::of_kilobytes(info.total),
            used: Megabytes::of_kilobytes((info.total - info.free) as u64),
            swap_total: Megabytes::of_kilobytes(info.swap_total),
            swap_used: Megabytes::of_kilobytes((info.swap_total - info.swap_free) as u64),
        },
        None => MemoryUsage {
            total: Megabytes::of_bytes(0),
            used: Megabytes::of_bytes(0),
            swap_total: Megabytes::of_bytes(0),
            swap_used: Megabytes::of_bytes(0),
        },
    }
}

/// Memory and swap in megabytes.
pub fn memory_usage(memory: Option<MemInfo>) -> (r: MemoryUsage)
    requires
        memory is Some ==> memory->Some_0.wf(),
    ensures
        r == memory_usage_of(memory),
{
    match memory {
        Some(info) => MemoryUsage {
            total: Megabytes::from_kilobytes(info.total),
            used: Megabytes::from_kilobytes(info.total - info.free),
            swap_total: Megabytes::from_kilobytes(info.swap_total),
            swap_used: Megabytes::from_kilobytes(info.swap_total - info.swap_free),
        },
        None => MemoryUsage {
            total: Megabytes::zero(),
            used: Megabytes::zero(),
            swap_total: Megabytes::zero(),
            swap_used: Megabytes::zero(),
        },
    }
}

/// A disk in megabytes: each byte count divided by 1048576.
pub open spec fn usage_of(disk: DiskView) -> DiskUsageView {
    DiskUsageView {
        mount: disk.mount,
        total: Megabytes::of_bytes(disk.total),
        available: Megabytes::of_bytes(disk.available),
    }
}

/// Each disk of a list in megabytes, in the list's order.
pub fn disk_usage(disks: Vec<Disk>) -> (r: Vec<DiskUsage>)
    ensures
        usage_views(r@) == disk_views(disks@).map_values(|d: DiskView| usage_of(d)),
{
    let mut usage: Vec<DiskUsage> = Vec::new();
    let n: usize = disks.len();
    let mut i: usize = 0;
    while i < n
        invariant
            n == disks@.len(),
            0 <= i <= n,
            usage@.len() == i,
            forall|k: int| 0 <= k < i ==> (#[trigger] usage@[k])@ == usage_of(disks@[k]@),
        decreases n - i,
    {
        let disk = &disks[i];
        usage.push(
            DiskUsage {
                mount: disk.mount.clone(),
                total: Megabytes::from_bytes(disk.total),
                available: Megabytes::from_bytes(disk.available),
            },
        );
        i = i + 1;
    }
    assert(usage_views(usage@) =~= disk_views(disks@).map_values(|d: DiskView| usage_of(d)));
    usage
}

/// The temperatures among the first `n` inputs of `reads`, in their order:
/// those that could be read.
pub open spec fn readings(reads: Seq<SensorRead>, n: int) -> Seq<TemperatureView>
    decreases n,
{
    if n <= 0 {
        Seq::empty()
    } else {
        let before = readings(reads, n - 1);
        let read = reads[n - 1];
        match read.millidegrees {
            Some(value) => before.push(TemperatureView { label: read.label@, millidegrees: value }),
            None => before,
        }
    }
}

/// The temperatures that could be read, in the inputs' order. An input that
/// could not be read is left out and the others stay.
pub fn temperatures(reads: Vec<SensorRead>) -> (r: Vec<Temperature>)
    ensures
        temperature_views(r@) == readings(reads@, reads@.len() as int),
{
    let mut temps: Vec<Temperature> = Vec::new();
    let n: usize = reads.len();
    let mut i: usize = 0;
    assert(temperature_views(temps@) =~= readings(reads@, 0));
    while i < n
        invariant
            n == reads@.len(),
            0 <= i <= n,
            temperature_views(temps@) == readings(reads@, i as int),
        decreases n - i,
    {
        let read = &reads[i];
        let ghost before = temperature_views(temps@);
        if let Some(value) = read.millidegrees {
            temps.push(Temperature { label: read.label.clone(), millidegrees: value });
            assert(temperature_views(temps@) =~= before.push(
                TemperatureView { label: read.label@, millidegrees: value },
            ));
        }
        i = i + 1;
    }
    temps
}

/// Where the first word of `text` ends, looking from `from`: at the first
/// space, or at the end of the text.
pub open spec fn word_end(text: Seq<char>, from: int) -> int
    decreases text.len() - from,
{
    if from >= text.len() || text[from] == ' ' {
        from
    } else {
        word_end(text, from + 1)
    }
}

/// The time stamp of a line of the package manager's log: its first word
/// without the bracket before and the bracket after. Nothing where the first
/// word is shorter than two characters.
pub open spec fn update_stamp(line: Seq<char>) -> Option<Seq<char>> {
    let end = word_end(line, 0);
    if end >= 2 {
        Some(line.subrange(1, end - 1))
    } else {
        None
    }
}

/// The time stamp of a line of the package manager's log.
pub fn last_update_stamp(line: &str) -> (r: Option<String>)
    ensures
        opt_text(r) == update_stamp(line@),
{
    let n: usize = line.unicode_len();
    let mut end: usize = 0;
    while end < n
        invariant
            n == line@.len(),
            0 <= end <= n,
            word_end(line@, 0) == word_end(line@, end as int),
        ensures
            end == n || line@[end as int] == ' ',
        decreases n - end,
    {
        if line.get_char(end) == ' ' {
            break;
        }
        end = end + 1;
    }
    if end >= 2 {
        Some(String::from_str(line.substring_char(1, end - 1)))
    } else {
        None
    }
}

/// The time stamp that the output of the log query holds: nothing where the
/// query could not be run or its output is not UTF-8.
pub open spec fn last_update_of(output: Option<Vec<u8>>) -> Option<Seq<char>> {
    match output {
        Some(bytes) => if valid_utf8(bytes@) {
            update_stamp(decode_utf8(bytes@))
        } else {
            None
        },
        None => None,
    }
}

/// The time of the last update, from the output of the log query.
pub fn last_update(output: Option<Vec<u8>>) -> (r: Option<String>)
    ensures
        opt_text(r) == last_update_of(output),
{
    match output {
        Some(bytes) => match decode_text(bytes) {
            Some(line) => last_update_stamp(line.as_str()),
            None => None,
        },
        None => None,
    }
}

/// How `humantime::format_duration` writes a duration of whole seconds.
pub uninterp spec fn duration_text(secs: u64) -> Seq<char>;

/// `humantime::format_duration`, on a duration of `secs` whole seconds: the
/// duration in words such as `2h 37m`, and `0s` for no time at all.
#[verifier::external_body]
fn format_seconds(secs: u64) -> (r: String)
    ensures
        r@ == duration_text(secs),
        secs == 0 ==> r@ == "0s"@,
{
    humantime::format_duration(std::time::Duration::from_secs(secs)).to_string()
}

/// The number of a reading, zero where it is missing.
pub open spec fn count_or_zero(count: Option<u64>) -> u64 {
    match count {
        Some(c) => c,
        None => 0,
    }
}

/// The name of the operating system, empty where it is not known.
pub open spec fn system_name_of(release: Option<OsRelease>) -> Seq<char> {
    match release {
        Some(os) => text_or_empty(os.pretty_name),
        None => Seq::empty(),
    }
}

/// The version of the operating system, where it is known.
pub open spec fn os_version_of(release: Option<OsRelease>) -> Option<Seq<char>> {
    match release {
        Some(os) => opt_text(os.version),
        None => None,
    }
}

/// The snapshot that readings give: each reading in its place, a missing
/// text empty and a missing number zero, sizes in megabytes.
pub open spec fn snapshot_of(
    facts: HostFacts,
    disks: Seq<DiskView>,
    reads: Seq<SensorRead>,
    last_update: Option<Seq<char>>,
    boot_time: Seq<char>,
) -> SystemInfoView {
    SystemInfoView {
        hardware: Seq::empty(),
        system_name: system_name_of(facts.os_release),
        os_version: os_version_of(facts.os_release),
        kernel_ver: text_or_empty(facts.kernel_version),
        last_update,
        hostname: text_or_empty(facts.hostname),
        boot_time,
        cpu_cores_count: match facts.cpu_cores {
            Some(cores) => cores,
            None => 0,
        },
        cpu_load_avg_bits: count_or_zero(facts.load_average_bits),
        memory: memory_usage_of(facts.memory),
        disk: disks.map_values(|d: DiskView| usage_of(d)),
        temperature: readings(reads, reads.len() as int),
    }
}

/// Puts the snapshot together from the readings, the disks, the temperature
/// inputs, the time of the last update and the time since boot in words.
pub fn compose(
    facts: HostFacts,
    disks: Vec<Disk>,
    reads: Vec<SensorRead>,
    last_update: Option<String>,
    boot_time: String,
) -> (r: SystemInfo)
    requires
        facts.wf(),
    ensures
        r@ == snapshot_of(facts, disk_views(disks@), reads@, opt_text(last_update), boot_time@),
{
    let memory = memory_usage(facts.memory);
    let (system_name, os_version) = match facts.os_release {
        Some(os) => (or_empty(os.pretty_name), os.version),
        None => (String::new(), None),
    };
    SystemInfo {
        hardware: String::new(),
        system_name,
        os_version,
        kernel_ver: or_empty(facts.kernel_version),
        last_update,
        hostname: or_empty(facts.hostname),
        boot_time,
        cpu_cores_count: match facts.cpu_cores {
            Some(cores) => cores,
            None => 0,
        },
        cpu_load_avg_bits: match facts.load_average_bits {
            Some(bits) => bits,
            None => 0,
        },
        mem_total: memory.total,
        mem_used: memory.used,
        swap_total: memory.swap_total,
        swap_used: memory.swap_used,
        disk: disk_usage(disks),
        temperature: temperatures(reads),
    }
}

/// The snapshot of the host, from what was read of it: the host's readings,
/// the mount table, the temperature inputs of the monitoring chips, and the
/// output of the log query. Only chips that could not be enumerated make it
/// fail; every other missing reading leaves its default in the snapshot.
pub fn system_info(
    facts: HostFacts,
    mounts: Option<Vec<Mount>>,
    chips: Option<Vec<SensorRead>>,
    update_log: Option<Vec<u8>>,
) -> (r: Result<SystemInfo, SnapshotError>)
    requires
        facts.wf(),
        mounts is Some ==> forall|i: int|
            0 <= i < mounts->Some_0@.len() ==> (#[trigger] mounts->Some_0@[i]).wf(),
    ensures
        chips is None ==> r == Err::<SystemInfo, SnapshotError>(
            SnapshotError::ChipEnumerationFailed,
        ),
        chips is Some ==> r is Ok && r->Ok_0@ == snapshot_of(
            facts,
            disks_of_table(mounts),
            chips->Some_0@,
            last_update_of(update_log),
            duration_text(count_or_zero(facts.boot_secs)),
        ),
        chips is Some && count_or_zero(facts.boot_secs) == 0 ==> r->Ok_0.boot_time@ == "0s"@,
{
    match chips {
        None => Err(SnapshotError::ChipEnumerationFailed),
        Some(reads) => {
            let disks = get_disks_info(mounts);
            let stamp = last_update(update_log);
            let secs: u64 = match facts.boot_secs {
                Some(s) => s,
                None => 0,
            };
            let boot_time = format_seconds(secs);
            Ok(compose(facts, disks, reads, stamp, boot_time))
        },
    }
}

/// With no reading at all, no disks and no temperature inputs, the snapshot
/// holds empty texts, zeros and empty lists.
pub proof fn lemma_defaults(facts: HostFacts, boot_time: Seq<char>)
    requires
        facts.os_release is None,
        facts.kernel_version is None,
        facts.hostname is None,
        facts.cpu_cores is None,
        facts.load_average_bits is None,
        facts.memory is None,
        facts.boot_secs is None,
    ensures
        facts.wf(),
        snapshot_of(facts, Seq::empty(), Seq::empty(), None, boot_time) == (SystemInfoView {
            hardware: Seq::empty(),
            system_name: Seq::empty(),
            os_version: None,
            kernel_ver: Seq::empty(),
            last_update: None,
            hostname: Seq::empty(),
            boot_time,
            cpu_cores_count: 0,
            cpu_load_avg_bits: 0,
            memory: MemoryUsage {
                total: Megabytes { whole: 0, bytes: 0 },
                used: Megabytes { whole: 0, bytes: 0 },
                swap_total: Megabytes { whole: 0, bytes: 0 },
                swap_used: Megabytes { whole: 0, bytes: 0 },
            },
            disk: Seq::empty(),
            temperature: Seq::empty(),
        }),
{
    let v = snapshot_of(facts, Seq::empty(), Seq::empty(), None, boot_time);
    assert(v.disk =~= Seq::empty());
    assert(v.temperature =~= Seq::empty());
}

/// Where memory was read, used memory is total less free and used swap is
/// total swap less free swap, to the byte.
pub proof fn lemma_used_is_total_less_free(info: MemInfo)
    requires
        info.wf(),
    ensures
        memory_usage_of(Some(info)).total.total_bytes() == info.total * BYTES_PER_KILOBYTE,
        memory_usage_of(Some(info)).used.total_bytes() == (info.total - info.free)
            * BYTES_PER_KILOBYTE,
        memory_usage_of(Some(info)).swap_total.total_bytes() == info.swap_total
            * BYTES_PER_KILOBYTE,
        memory_usage_of(Some(info)).swap_used.total_bytes() == (info.swap_total - info.swap_free)
            * BYTES_PER_KILOBYTE,
{
}

} // verus!
