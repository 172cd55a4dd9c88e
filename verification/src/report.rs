//! The text of the disk space report.

use crate::decimal::{append_decimal, decimal, is_digit, lemma_decimal_is_digits};
use crate::disk::{disk_views, DiskInfo, VolumeReading};
use vstd::prelude::*;

verus! {

/// The token that flags a volume that is low on space.
pub open spec fn warning_marker() -> Seq<char> {
    "WARNING!"@
}

/// The first line of a report: it names the host.
pub open spec fn header_line(host: Seq<char>) -> Seq<char> {
    "Servername: "@ + host + "\n"@
}

/// The line of one volume. A volume that is low on space has the warning
/// marker after the message, set off by one space; any other volume has
/// the message alone.
pub open spec fn volume_line(reading: VolumeReading) -> Seq<char> {
    let message = "DISK "@ + reading.mount_label + " has "@ + decimal(reading.free_space_gib)
        + " GB left free space."@;
    if reading.is_low() {
        message + " "@ + warning_marker() + "\n"@
    } else {
        message + "\n"@
    }
}

/// The lines of a run of volumes, one after the other.
pub open spec fn volume_lines(readings: Seq<VolumeReading>) -> Seq<char>
    decreases readings.len(),
{
    if readings.len() == 0 {
        Seq::<char>::empty()
    } else {
        volume_lines(readings.drop_last()) + volume_line(readings.last())
    }
}

/// The whole report: the header line, then one line for each volume in the
/// order given.
pub open spec fn report_text(host: Seq<char>, readings: Seq<VolumeReading>) -> Seq<char> {
    header_line(host) + volume_lines(readings)
}

/// Where in the report the line of volume `i` begins; for `i` the number of
/// volumes, where the report ends.
pub open spec fn line_start(host: Seq<char>, readings: Seq<VolumeReading>, i: int) -> int {
    (header_line(host).len() + volume_lines(readings.take(i)).len()) as int
}

/// `needle` stands in `text` at position `k`.
pub open spec fn occurs_at(needle: Seq<char>, text: Seq<char>, k: int) -> bool {
    &&& 0 <= k
    &&& k + needle.len() <= text.len()
    &&& text.subrange(k, k + needle.len()) == needle
}

/// `needle` stands somewhere in `text`.
pub open spec fn occurs_in(needle: Seq<char>, text: Seq<char>) -> bool {
    exists|k: int| occurs_at(needle, text, k)
}

/// `text` ends with `tail`.
pub open spec fn ends_with(text: Seq<char>, tail: Seq<char>) -> bool {
    &&& tail.len() <= text.len()
    &&& text.subrange(text.len() - tail.len(), text.len() as int) == tail
}

fn append_volume_line(out: &mut String, disk: &DiskInfo)
    ensures
        final(out)@ == old(out)@ + volume_line(disk@),
{
    out.append("DISK ");
    out.append(disk.name.as_str());
    out.append(" has ");
    append_decimal(out, disk.free_space);
    out.append(" GB left free space.");
    if disk.is_low() {
        out.append(" ");
        out.append("WARNING!");
    }
    out.append("\n");
    assert(out@ =~= old(out)@ + volume_line(disk@));
}

/// Formats the report for the host `server_name` and the volumes `disks`:
/// the header line, then one line for each volume in the order given, the
/// low ones flagged. The text depends on nothing but the two arguments.
pub fn format_mail_content(server_name: &str, disks: &[DiskInfo]) -> (report: String)
    ensures
        report@ == report_text(server_name@, disk_views(disks@)),
{
    let mut output = String::from_str("Servername: ");
    output.append(server_name);
    output.append("\n");
    let ghost readings = disk_views(disks@);
    assert(readings.take(0) =~= Seq::<VolumeReading>::empty());
    let mut i: usize = 0;
    while i < disks.len()
        invariant
            i <= disks@.len(),
            readings == disk_views(disks@),
            output@ == header_line(server_name@) + volume_lines(readings.take(i as int)),
        decreases disks@.len() - i,
    {
        append_volume_line(&mut output, &disks[i]);
        proof {
            let next = readings.take(i + 1);
            assert(next.drop_last() =~= readings.take(i as int));
            assert(next.last() == disks@[i as int]@);
            assert(output@ =~= header_line(server_name@) + volume_lines(next));
        }
        i += 1;
    }
    assert(readings.take(i as int) =~= readings);
    output
}

/// A report for no volumes is the header line and nothing else.
pub proof fn lemma_report_without_volumes(host: Seq<char>)
    ensures
        report_text(host, Seq::<VolumeReading>::empty()) == header_line(host),
{
    assert(report_text(host, Seq::<VolumeReading>::empty()) =~= header_line(host));
}

/// The lines of two runs of volumes, one after the other, are the lines of
/// the first run followed by the lines of the second.
pub proof fn lemma_volume_lines_concat(first: Seq<VolumeReading>, second: Seq<VolumeReading>)
    ensures
        volume_lines(first + second) == volume_lines(first) + volume_lines(second),
    decreases second.len(),
{
    if second.len() == 0 {
        assert(first + second =~= first);
        assert(volume_lines(first) + volume_lines(second) =~= volume_lines(first));
    } else {
        lemma_volume_lines_concat(first, second.drop_last());
        assert((first + second).drop_last() =~= first + second.drop_last());
        assert((first + second).last() == second.last());
        assert(volume_lines(first + second) =~= volume_lines(first) + volume_lines(second));
    }
}

/// The report holds the header line first and then the line of each volume
/// at its own place: the line of volume `i` begins where the line before it
/// ends, and the last line ends the report.
pub proof fn lemma_line_of_volume(host: Seq<char>, readings: Seq<VolumeReading>, i: int)
    requires
        0 <= i < readings.len(),
    ensures
        line_start(host, readings, 0) == header_line(host).len(),
        report_text(host, readings).subrange(0, line_start(host, readings, 0)) == header_line(host),
        line_start(host, readings, i + 1) == line_start(host, readings, i) + volume_line(
            readings[i],
        ).len(),
        line_start(host, readings, readings.len() as int) == report_text(host, readings).len(),
        report_text(host, readings).subrange(
            line_start(host, readings, i),
            line_start(host, readings, i + 1),
        ) == volume_line(readings[i]),
{
    let report = report_text(host, readings);
    let before = readings.take(i);
    let upto = readings.take(i + 1);
    let after = readings.skip(i + 1);
    assert(readings.take(0) =~= Seq::<VolumeReading>::empty());
    assert(readings.take(readings.len() as int) =~= readings);
    assert(upto.drop_last() =~= before);
    assert(upto.last() == readings[i]);
    assert(upto + after =~= readings);
    lemma_volume_lines_concat(upto, after);
    assert(report =~= header_line(host) + volume_lines(before) + volume_line(readings[i])
        + volume_lines(after));
    assert(report.subrange(0, line_start(host, readings, 0)) =~= header_line(host));
    assert(report.subrange(line_start(host, readings, i), line_start(host, readings, i + 1))
        =~= volume_line(readings[i]));
}

/// The line of a volume ends with the marker and the line break exactly
/// when the volume is low on space.
pub proof fn lemma_line_ending(reading: VolumeReading)
    ensures
        ends_with(volume_line(reading), "\n"@),
        ends_with(volume_line(reading), " "@ + warning_marker() + "\n"@) <==> reading.is_low(),
{
    reveal_strlit("\n");
    reveal_strlit(" ");
    reveal_strlit("WARNING!");
    reveal_strlit(" GB left free space.");
    let line = volume_line(reading);
    let tail = " "@ + warning_marker() + "\n"@;
    let message = "DISK "@ + reading.mount_label + " has "@ + decimal(reading.free_space_gib)
        + " GB left free space."@;
    assert(line.subrange(line.len() - 1, line.len() as int) =~= "\n"@);
    if reading.is_low() {
        assert(line =~= message + tail);
        assert(line.subrange(line.len() - tail.len(), line.len() as int) =~= tail);
    } else {
        assert(line =~= message + "\n"@);
        assert(tail.len() == 10);
        if ends_with(line, tail) {
            let cut = line.subrange(line.len() - tail.len(), line.len() as int);
            assert(cut[8] == tail[8]);
            assert(tail[8] == '!');
            assert(cut[8] == line[line.len() - 2]);
            assert(line[line.len() - 2] == message[message.len() - 1]);
            assert(message[message.len() - 1] == '.');
        }
    }
}

/// Where the warning marker stands in the line of a volume. A volume that
/// is low on space always has it. Any other volume has it only where its
/// own mount label holds the marker's text.
pub proof fn lemma_marker_in_line(reading: VolumeReading)
    ensures
        occurs_in(warning_marker(), volume_line(reading)) <==> reading.is_low() || occurs_in(
            warning_marker(),
            reading.mount_label,
        ),
{
    reveal_strlit("\n");
    reveal_strlit(" ");
    reveal_strlit("WARNING!");
    reveal_strlit("DISK ");
    reveal_strlit(" has ");
    reveal_strlit(" GB left free space.");
    lemma_decimal_is_digits(reading.free_space_gib);
    let marker = warning_marker();
    let line = volume_line(reading);
    let label = reading.mount_label;
    let digits = decimal(reading.free_space_gib);
    let head = "DISK "@;
    let tail = " has "@ + digits + " GB left free space."@ + "\n"@;
    let message = head + label + " has "@ + digits + " GB left free space."@;
    if reading.is_low() {
        let k = message.len() as int + 1;
        assert(line =~= message + " "@ + marker + "\n"@);
        assert(line.subrange(k, k + marker.len()) =~= marker);
        assert(occurs_at(marker, line, k));
    } else {
        assert(line =~= head + label + tail);
        if occurs_in(marker, label) {
            let k = choose|k: int| occurs_at(marker, label, k);
            assert(line.subrange(5 + k, 5 + k + marker.len()) =~= label.subrange(
                k,
                k + marker.len(),
            ));
            assert(occurs_at(marker, line, 5 + k));
        }
        if occurs_in(marker, line) {
            let k = choose|k: int| occurs_at(marker, line, k);
            let found = line.subrange(k, k + marker.len());
            assert(found[7] == '!' && found[0] == 'W');
            assert(line[k + 7] == '!' && line[k] == 'W');
            assert forall|j: int| 0 <= j < tail.len() implies tail[j] != '!' by {
                if 5 <= j < 5 + digits.len() {
                    assert(tail[j] == digits[j - 5]);
                    assert(is_digit(digits[j - 5]));
                }
            }
            if k + 7 >= 5 + label.len() {
                assert(line[k + 7] == tail[k + 7 - 5 - label.len()]);
            }
            assert(5 <= k && k + 8 <= 5 + label.len());
            assert(label.subrange(k - 5, k - 5 + marker.len()) =~= found);
            assert(occurs_at(marker, label, k - 5));
        }
    }
}

/// The part of a report that is the line of volume `i`.
pub open spec fn line_in_report(host: Seq<char>, readings: Seq<VolumeReading>, i: int) -> Seq<
    char,
> {
    report_text(host, readings).subrange(
        line_start(host, readings, i),
        line_start(host, readings, i + 1),
    )
}

/// In a report, the line of every volume that is low on space holds the
/// warning marker, at its end, and the line of no other volume ends with
/// it. The line of a volume that is not low on space holds the marker
/// nowhere, unless the volume's own mount label holds the marker's text.
pub proof fn lemma_report_flags_low_volumes(
    host: Seq<char>,
    readings: Seq<VolumeReading>,
    i: int,
)
    requires
        0 <= i < readings.len(),
    ensures
        line_in_report(host, readings, i) == volume_line(readings[i]),
        readings[i].is_low() ==> occurs_in(warning_marker(), line_in_report(host, readings, i)),
        !readings[i].is_low() && !occurs_in(warning_marker(), readings[i].mount_label)
            ==> !occurs_in(warning_marker(), line_in_report(host, readings, i)),
        ends_with(line_in_report(host, readings, i), " "@ + warning_marker() + "\n"@)
            <==> readings[i].is_low(),
{
    lemma_line_of_volume(host, readings, i);
    lemma_marker_in_line(readings[i]);
    lemma_line_ending(readings[i]);
}

/// The report is a function of the host name and the readings: equal names
/// and equal readings, volume by volume, give the same text.
pub proof fn lemma_same_inputs_same_report(
    name_a: Seq<char>,
    disks_a: Seq<DiskInfo>,
    name_b: Seq<char>,
    disks_b: Seq<DiskInfo>,
)
    requires
        name_a == name_b,
        disks_a.len() == disks_b.len(),
        forall|i: int| 0 <= i < disks_a.len() ==> disks_a[i]@ == disks_b[i]@,
    ensures
        report_text(name_a, disk_views(disks_a)) == report_text(name_b, disk_views(disks_b)),
{
    assert(disk_views(disks_a) =~= disk_views(disks_b));
}

} // verus!
