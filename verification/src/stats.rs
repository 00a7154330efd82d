//! The lines of the system modules, composed from readings that the
//! surrounding program takes from the machine.

use vstd::prelude::*;
use crate::config::DiskUsageConfig;
use crate::render::Report;
use crate::text::{
    decimal, decimal_text, owned, same_text, split_words, strings_view, text_view, trimmed,
    trimmed_of, words_of,
};

verus! {

/// The host's name: the first that is known of the two environment
/// variables and the host-name file, the file's content trimmed.
pub open spec fn hostname_choice(
    hostname: Option<Seq<char>>,
    host: Option<Seq<char>>,
    file: Option<Seq<char>>,
) -> Seq<char> {
    if hostname is Some {
        hostname->0
    } else if host is Some {
        host->0
    } else if file is Some {
        trimmed_of(file->0)
    } else {
        "unknown"@
    }
}

/// The host's name, chosen among what could be read.
pub fn pick_hostname(hostname: Option<&str>, host: Option<&str>, file: Option<&str>) -> (name:
    String)
    ensures
        name@ == hostname_choice(text_view(hostname), text_view(host), text_view(file)),
{
    match hostname {
        Some(name) => owned(name),
        None => match host {
            Some(name) => owned(name),
            None => match file {
                Some(content) => trimmed(content),
                None => owned("unknown"),
            },
        },
    }
}

/// The kernel's release among the words of the kernel's version line: the
/// third word, if there are that many.
pub open spec fn release_among(words: Seq<Seq<char>>) -> Seq<char> {
    if words.len() > 2 {
        words[2]
    } else {
        "unknown"@
    }
}

/// The kernel's release, given the words of the version line.
pub fn release_from_words(words: &Vec<String>) -> (release: String)
    ensures
        release@ == release_among(strings_view(words@)),
{
    if words.len() > 2 {
        words[2].clone()
    } else {
        owned("unknown")
    }
}

/// The kernel's release, given the version line if it could be read.
pub fn kernel_release(version: Option<&str>) -> (release: String)
    ensures
        version is Some ==> release@ == release_among(words_of(version->0@)),
        version is None ==> release@ == "unknown"@,
{
    match version {
        Some(line) => {
            let words = split_words(line);
            release_from_words(&words)
        },
        None => owned("unknown"),
    }
}

/// The line of the system-information module.
pub open spec fn system_info_text(hostname: Seq<char>, os: Seq<char>, kernel: Seq<char>) -> Seq<
    char,
> {
    "󰇄 "@ + hostname + " | "@ + os + " | "@ + kernel
}

/// The lines of the system-information module.
pub fn render_system_info(hostname: &str, os: &str, kernel: &str) -> (lines: Vec<String>)
    ensures
        strings_view(lines@) == seq![system_info_text(hostname@, os@, kernel@)],
{
    let mut line = owned("󰇄 ");
    line.append(hostname);
    line.append(" | ");
    line.append(os);
    line.append(" | ");
    line.append(kernel);
    let mut lines: Vec<String> = Vec::new();
    lines.push(line);
    proof {
        assert(strings_view(lines@) =~= seq![system_info_text(hostname@, os@, kernel@)]);
    }
    lines
}

/// How long the machine has been up, as far as it could be read.
#[derive(Debug, Clone, Copy, PartialEq, Eq)]
pub enum UptimeReading {
    /// Whole days, the whole hours beyond them, the whole minutes beyond
    /// those.
    Known { days: u64, hours: u64, minutes: u64 },
    /// The reading failed.
    Unknown,
    /// The platform offers no reading.
    Unsupported,
}

/// The uptime in words: the larger units are left out while they are zero.
pub open spec fn uptime_text(reading: UptimeReading) -> Seq<char> {
    match reading {
        UptimeReading::Known { days, hours, minutes } => if days > 0 {
            decimal(days as nat) + "d "@ + decimal(hours as nat) + "h "@ + decimal(minutes as nat)
                + "m"@
        } else if hours > 0 {
            decimal(hours as nat) + "h "@ + decimal(minutes as nat) + "m"@
        } else {
            decimal(minutes as nat) + "m"@
        },
        UptimeReading::Unknown => "unknown"@,
        UptimeReading::Unsupported => "not supported"@,
    }
}

/// The lines of the uptime module.
pub fn render_uptime(reading: UptimeReading) -> (lines: Vec<String>)
    ensures
        strings_view(lines@) == seq![" Uptime: "@ + uptime_text(reading)],
{
    let mut line = owned(" Uptime: ");
    match reading {
        UptimeReading::Known { days, hours, minutes } => {
            if days > 0 {
                line.append(decimal_text(days).as_str());
                line.append("d ");
            }
            if days > 0 || hours > 0 {
                line.append(decimal_text(hours).as_str());
                line.append("h ");
            }
            line.append(decimal_text(minutes).as_str());
            line.append("m");
        },
        UptimeReading::Unknown => {
            line.append("unknown");
        },
        UptimeReading::Unsupported => {
            line.append("not supported");
        },
    }
    let mut lines: Vec<String> = Vec::new();
    proof {
        assert(line@ =~= " Uptime: "@ + uptime_text(reading));
    }
    lines.push(line);
    proof {
        assert(strings_view(lines@) =~= seq![" Uptime: "@ + uptime_text(reading)]);
    }
    lines
}

/// What is known of one mounted disk.
#[derive(Debug, Clone, PartialEq, Eq)]
pub struct DiskReading {
    pub mount_point: String,
    pub total: u64,
    pub available: u64,
}

/// The number of bytes in a gigabyte, as disks are reported.
pub open spec fn gigabyte() -> nat {
    1024 * 1024 * 1024
}

/// The index of the first disk mounted at `path`, or the number of disks
/// where there is none.
pub open spec fn first_mounted(disks: Seq<DiskReading>, path: Seq<char>) -> int
    decreases disks.len(),
{
    if disks.len() == 0 {
        0
    } else if disks[0].mount_point@ == path {
        0
    } else {
        1 + first_mounted(disks.skip(1), path)
    }
}

/// The line for a disk of which `percent` per cent are in use: the space
/// used and the whole space in gigabytes, rounded down, and the share in
/// use.
pub open spec fn disk_text(disk: DiskReading, percent: u64) -> Seq<char> {
    " Disk: "@ + decimal(((disk.total - disk.available) / gigabyte() as int) as nat) + " / "@
        + decimal(disk.total as nat / gigabyte()) + " GB ("@ + decimal(percent as nat) + "%)"@
}

/// The notice for a path at which no disk is mounted.
pub open spec fn disk_missing_text(path: Seq<char>) -> Seq<char> {
    " Disk: path not found ("@ + path + ")"@
}

/// The disk that is shown for `path`, if there is one, has at most as much
/// space available as it has in all.
pub open spec fn shown_disk_sound(disks: Seq<DiskReading>, path: Seq<char>) -> bool {
    first_mounted(disks, path) < disks.len() ==> disks[first_mounted(disks, path)].available
        <= disks[first_mounted(disks, path)].total
}

/// The place of the first disk mounted at `path`, if there is one.
pub fn find_disk(disks: &Vec<DiskReading>, path: &str) -> (place: Option<usize>)
    ensures
        0 <= first_mounted(disks@, path@) <= disks@.len(),
        place is Some <==> first_mounted(disks@, path@) < disks@.len(),
        place is Some ==> place->0 == first_mounted(disks@, path@),
{
    let mut i: usize = 0;
    proof {
        assert(disks@.skip(0) =~= disks@);
    }
    while i < disks.len()
        invariant
            i <= disks@.len(),
            first_mounted(disks@, path@) == i + first_mounted(disks@.skip(i as int), path@),
        decreases disks@.len() - i,
    {
        proof {
            assert(disks@.skip(i as int)[0] == disks@[i as int]);
            assert(disks@.skip(i as int).skip(1) =~= disks@.skip(i + 1));
        }
        if same_text(disks[i].mount_point.as_str(), path) {
            return Some(i);
        }
        i += 1;
    }
    None
}

/// The report of the disk module: the line of the first disk mounted at the
/// configured path, of which `percent` per cent are in use, or the dimmed
/// notice where no disk is mounted there.
pub fn render_disk_usage(config: &DiskUsageConfig, disks: &Vec<DiskReading>, percent: u64) -> (report:
    Report)
    requires
        shown_disk_sound(disks@, config.path@),
    ensures
        report.dimmed <==> first_mounted(disks@, config.path@) == disks@.len(),
        report.dimmed ==> strings_view(report.lines@) == seq![disk_missing_text(config.path@)],
        !report.dimmed ==> strings_view(report.lines@) == seq![
            disk_text(disks@[first_mounted(disks@, config.path@)], percent),
        ],
{
    let mut lines: Vec<String> = Vec::new();
    match find_disk(disks, config.path.as_str()) {
        Some(place) => {
            let disk = &disks[place];
            let used: u64 = disk.total - disk.available;
            let mut line = owned(" Disk: ");
            line.append(decimal_text(used / (1024 * 1024 * 1024)).as_str());
            line.append(" / ");
            line.append(decimal_text(disk.total / (1024 * 1024 * 1024)).as_str());
            line.append(" GB (");
            line.append(decimal_text(percent).as_str());
            line.append("%)");
            proof {
                assert(line@ =~= disk_text(*disk, percent));
            }
            lines.push(line);
            proof {
                assert(strings_view(lines@) =~= seq![disk_text(*disk, percent)]);
            }
            Report { lines, dimmed: false }
        },
        None => {
            let mut line = owned(" Disk: path not found (");
            line.append(config.path.as_str());
            line.append(")");
            lines.push(line);
            proof {
                assert(strings_view(lines@) =~= seq![disk_missing_text(config.path@)]);
            }
            Report { lines, dimmed: true }
        },
    }
}

/// The line of the memory module: the memory used and the whole memory in
/// units of 1024 * 1024 bytes, rounded down, and the share in use.
pub open spec fn memory_text(total: u64, used: u64, percent: u64) -> Seq<char> {
    " Memory: "@ + decimal(used as nat / (1024 * 1024)) + " / "@ + decimal(
        total as nat / (1024 * 1024),
    ) + " MB ("@ + decimal(percent as nat) + "%)"@
}

/// The lines of the memory module.
pub fn render_memory(total: u64, used: u64, percent: u64) -> (lines: Vec<String>)
    ensures
        strings_view(lines@) == seq![memory_text(total, used, percent)],
{
    let mut line = owned(" Memory: ");
    line.append(decimal_text(used / (1024 * 1024)).as_str());
    line.append(" / ");
    line.append(decimal_text(total / (1024 * 1024)).as_str());
    line.append(" MB (");
    line.append(decimal_text(percent).as_str());
    line.append("%)");
    let mut lines: Vec<String> = Vec::new();
    proof {
        assert(line@ =~= memory_text(total, used, percent));
    }
    lines.push(line);
    proof {
        assert(strings_view(lines@) =~= seq![memory_text(total, used, percent)]);
    }
    lines
}

} // verus!
