//! Free-space readings of the mounted volumes.

use vstd::prelude::*;

verus! {

/// Bytes in one gibibyte.
pub const BYTES_PER_GIB: u64 = 1_073_741_824;

/// A volume with this many whole gibibytes free, or fewer, is low on space.
pub const LOW_SPACE_LIMIT_GIB: u64 = 10;

/// What the host reports of one mounted volume.
#[derive(Debug, Clone, PartialEq, Eq)]
pub struct VolumeSample {
    pub mount_point: String,
    pub available_bytes: u64,
}

/// One line of the report: a volume and its free space in whole gibibytes.
#[derive(Debug, Clone, PartialEq, Eq)]
pub struct DiskInfo {
    pub name: String,
    pub free_space: u64,
}

/// The mathematical value of a `VolumeSample`.
pub struct SampleView {
    pub mount_point: Seq<char>,
    pub available_bytes: nat,
}

/// The mathematical value of a `DiskInfo`.
pub struct VolumeReading {
    pub mount_label: Seq<char>,
    pub free_space_gib: nat,
}

impl View for VolumeSample {
    type V = SampleView;

    open spec fn view(&self) -> SampleView {
        SampleView {
            mount_point: self.mount_point@,
            available_bytes: self.available_bytes as nat,
        }
    }
}

impl View for DiskInfo {
    type V = VolumeReading;

    open spec fn view(&self) -> VolumeReading {
        VolumeReading { mount_label: self.name@, free_space_gib: self.free_space as nat }
    }
}

impl VolumeReading {
    /// Low on space: the limit itself counts as low.
    pub open spec fn is_low(self) -> bool {
        self.free_space_gib <= LOW_SPACE_LIMIT_GIB
    }
}

/// The whole gibibytes in `bytes`; what is left over is dropped.
pub open spec fn whole_gib(bytes: nat) -> nat {
    bytes / (BYTES_PER_GIB as nat)
}

/// The reading that a sample gives: the same label, the free space cut
/// down to whole gibibytes.
pub open spec fn reading_of(sample: SampleView) -> VolumeReading {
    VolumeReading {
        mount_label: sample.mount_point,
        free_space_gib: whole_gib(sample.available_bytes),
    }
}

/// The readings of a run of samples, one for each, in the same order.
pub open spec fn readings_of(samples: Seq<SampleView>) -> Seq<VolumeReading> {
    samples.map_values(|s: SampleView| reading_of(s))
}

pub open spec fn sample_views(samples: Seq<VolumeSample>) -> Seq<SampleView> {
    samples.map_values(|s: VolumeSample| s@)
}

pub open spec fn disk_views(disks: Seq<DiskInfo>) -> Seq<VolumeReading> {
    disks.map_values(|d: DiskInfo| d@)
}

/// `whole_gib` rounds down: it is the one count of gibibytes that fits
/// into `bytes` while one more does not.
pub proof fn lemma_whole_gib_is_floor(bytes: nat, gib: nat)
    ensures
        gib == whole_gib(bytes) <==> gib * BYTES_PER_GIB <= bytes < (gib + 1) * BYTES_PER_GIB,
{
    let unit = BYTES_PER_GIB as int;
    assert(gib == (bytes as int) / unit <==> gib * unit <= bytes < (gib + 1) * unit)
        by (nonlinear_arith)
        requires
            unit > 0,
    ;
}

/// More free bytes never give fewer gibibytes.
pub proof fn lemma_whole_gib_monotonic(a: nat, b: nat)
    requires
        a <= b,
    ensures
        whole_gib(a) <= whole_gib(b),
{
    let unit = BYTES_PER_GIB as int;
    assert((a as int) / unit <= (b as int) / unit) by (nonlinear_arith)
        requires
            unit > 0,
            a <= b,
    ;
}

/// Converts a count of bytes to whole gibibytes, rounding down.
pub fn bytes_to_gib(bytes: u64) -> (gib: u64)
    ensures
        gib == whole_gib(bytes as nat),
        gib * BYTES_PER_GIB <= bytes < (gib + 1) * BYTES_PER_GIB,
{
    proof {
        lemma_whole_gib_is_floor(bytes as nat, whole_gib(bytes as nat));
    }
    bytes / BYTES_PER_GIB
}

impl DiskInfo {
    /// The reading for one sample of the host.
    pub fn from_sample(sample: &VolumeSample) -> (disk: DiskInfo)
        ensures
            disk@ == reading_of(sample@),
    {
        DiskInfo {
            name: sample.mount_point.clone(),
            free_space: bytes_to_gib(sample.available_bytes),
        }
    }

    /// Whether the volume is low on space.
    pub fn is_low(&self) -> (low: bool)
        ensures
            low == self@.is_low(),
            low == (self.free_space <= 10),
    {
        self.free_space <= LOW_SPACE_LIMIT_GIB
    }
}

/// The readings for what the host reported, one for each volume, in the
/// order in which the host listed them. No volumes give no readings.
pub fn get_disk_info(volumes: &[VolumeSample]) -> (disks: Vec<DiskInfo>)
    ensures
        disks@.len() == volumes@.len(),
        forall|i: int| 0 <= i < volumes@.len() ==> (#[trigger] disks@[i])@ == reading_of(volumes@[i]@),
        disk_views(disks@) == readings_of(sample_views(volumes@)),
{
    let mut disks: Vec<DiskInfo> = Vec::new();
    let mut i: usize = 0;
    while i < volumes.len()
        invariant
            i <= volumes@.len(),
            disks@.len() == i,
            forall|k: int| 0 <= k < i ==> (#[trigger] disks@[k])@ == reading_of(volumes@[k]@),
        decreases volumes@.len() - i,
    {
        disks.push(DiskInfo::from_sample(&volumes[i]));
        i += 1;
    }
    assert(disk_views(disks@) =~= readings_of(sample_views(volumes@)));
    disks
}

} // verus!
