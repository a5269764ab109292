//! Processor counters: the sysfs paths, the parsers of `/proc/stat` and of
//! the maximum frequency, the per-processor records and their usage.

use vstd::prelude::*;

use crate::system::directory_exists;
use crate::text::{
    canonical_decimal, lemma_decimal_canonical, chars_of, decimal, find_char, first_index_of, is_digit, lemma_decimal, lemma_decimal_lacks,
    lemma_first_index_of, lemma_first_index_of_concat, lemma_first_index_of_is,
    lemma_parse_decimal, lemma_single_line, parse_u32_range, push_decimal, push_str,
    scan_u32_range, spec_lines, spec_parse_u32, spec_scan_u32, split_lines, view_lines,
};

verus! {

broadcast use vstd::string::group_string_axioms;

/// The largest number of processors the monitor accepts.
pub const MAX_CPUS: u32 = 256;

/// The tick counters of one processor, as listed in `/proc/stat`.
#[derive(Clone, Copy, Debug, PartialEq, Eq)]
pub struct CPUStat {
    pub user: u32,
    pub nice: u32,
    pub system: u32,
    pub idle: u32,
    pub iowait: u32,
    pub irq: u32,
    pub softirq: u32,
    pub steal: u32,
    pub guest: u32,
    pub guest_nice: u32,
}

/// The usage of a processor between two samples: `work` busy ticks and
/// `idle` idle ticks (idle, steal and iowait). The usage fraction is
/// `work / (work + idle)`.
#[derive(Clone, Copy, Debug, PartialEq, Eq)]
pub struct CpuUsage {
    pub work: u32,
    pub idle: u32,
}

/// What the monitor keeps of one processor: the previous and the current
/// sample, whether it is online, and its last usage (`None` before the first
/// measurement, when the usage reads as zero).
#[derive(Clone, Copy, Debug, PartialEq, Eq)]
pub struct CPUInfo {
    pub prev_stat: CPUStat,
    pub curr_stat: CPUStat,
    pub enabled: bool,
    pub usage: Option<CpuUsage>,
}

pub open spec fn zero_stat() -> CPUStat {
    CPUStat {
        user: 0,
        nice: 0,
        system: 0,
        idle: 0,
        iowait: 0,
        irq: 0,
        softirq: 0,
        steal: 0,
        guest: 0,
        guest_nice: 0,
    }
}

fn new_zero_stat() -> (res: CPUStat)
    ensures
        res == zero_stat(),
{
    CPUStat {
        user: 0,
        nice: 0,
        system: 0,
        idle: 0,
        iowait: 0,
        irq: 0,
        softirq: 0,
        steal: 0,
        guest: 0,
        guest_nice: 0,
    }
}

// ---------------------------------------------------------------------------
// Paths
// ---------------------------------------------------------------------------

/// `/sys/devices/system/cpu/cpu<n>`.
pub open spec fn spec_cpu_directory(n: nat) -> Seq<char> {
    "/sys/devices/system/cpu/cpu"@ + decimal(n)
}

/// `/sys/devices/system/cpu/cpu<n>/online`.
pub open spec fn spec_cpu_online_path(n: nat) -> Seq<char> {
    spec_cpu_directory(n) + "/online"@
}

/// The directory of processor `n` is `/sys/devices/system/cpu/cpu`
/// followed by nothing but the canonical decimal text of `n`: digits with no
/// leading zero that read back as `n`.
pub proof fn law_cpu_directory_names_processor(n: u32)
    ensures
        ({
            let p = spec_cpu_directory(n as nat);
            let prefix = "/sys/devices/system/cpu/cpu"@;
            &&& p.len() > prefix.len()
            &&& p.take(prefix.len() as int) == prefix
            &&& canonical_decimal(p.skip(prefix.len() as int), n)
        }),
{
    let prefix = "/sys/devices/system/cpu/cpu"@;
    let p = spec_cpu_directory(n as nat);
    lemma_decimal_canonical(n);
    assert(p.take(prefix.len() as int) =~= prefix);
    assert(p.skip(prefix.len() as int) =~= decimal(n as nat));
}

/// The `online` file of processor `n` is `/sys/devices/system/cpu/cpu`,
/// then the canonical decimal text of `n` (digits with no leading zero that
/// read back as `n`), then `/online`.
pub proof fn law_cpu_online_path_names_processor(n: u32)
    ensures
        ({
            let p = spec_cpu_online_path(n as nat);
            let prefix = "/sys/devices/system/cpu/cpu"@;
            let suffix = "/online"@;
            &&& p.len() > prefix.len() + suffix.len()
            &&& p.take(prefix.len() as int) == prefix
            &&& p.skip(p.len() - suffix.len()) == suffix
            &&& canonical_decimal(p.subrange(prefix.len() as int, p.len() - suffix.len()), n)
        }),
{
    let prefix = "/sys/devices/system/cpu/cpu"@;
    let suffix = "/online"@;
    let p = spec_cpu_online_path(n as nat);
    let d = decimal(n as nat);
    lemma_decimal_canonical(n);
    assert(p =~= prefix + d + suffix);
    assert(p.take(prefix.len() as int) =~= prefix);
    assert(p.skip(p.len() - suffix.len()) =~= suffix);
    assert(p.subrange(prefix.len() as int, p.len() - suffix.len()) =~= d);
}

/// The sysfs directory of processor `n`.
pub fn cpu_directory_path(n: u32) -> (res: String)
    ensures
        res@ == spec_cpu_directory(n as nat),
{
    let mut res = String::new();
    push_str(&mut res, "/sys/devices/system/cpu/cpu");
    push_decimal(&mut res, n);
    assert(res@ =~= spec_cpu_directory(n as nat));
    res
}

/// The sysfs file that tells whether processor `n` is online.
pub fn cpu_online_path(n: u32) -> (res: String)
    ensures
        res@ == spec_cpu_online_path(n as nat),
{
    let mut res = cpu_directory_path(n);
    push_str(&mut res, "/online");
    res
}

// ---------------------------------------------------------------------------
// Counting processors
// ---------------------------------------------------------------------------

/// Number of processors for the answers `present[i]` to "does the directory
/// of processor `i + 1` exist?": processor 0 plus the run of present
/// directories that follows it, or `None` beyond `MAX_CPUS`.
pub open spec fn spec_cpu_count(present: Seq<bool>) -> Option<u32> {
    let n = 1 + first_index_of(present, false);
    if n <= MAX_CPUS {
        Some(n as u32)
    } else {
        None
    }
}

/// The processor count for the directory answers `present` (see `spec_cpu_count`).
pub fn cpu_count_from_probes(present: &Vec<bool>) -> (res: Option<u32>)
    ensures
        res == spec_cpu_count(present@),
{
    let mut i: usize = 0;
    while i < present.len() && present[i]
        invariant
            i <= present@.len(),
            forall|j: int| 0 <= j < i ==> present@[j] != false,
        decreases present@.len() - i,
    {
        i += 1;
    }
    proof {
        lemma_first_index_of_is(present@, false, i as int);
    }
    if i < MAX_CPUS as usize {
        Some(i as u32 + 1)
    } else {
        None
    }
}

/// Counting stops at the first missing directory: the answers after it
/// change nothing.
pub proof fn law_cpu_count_stops_at_missing(present: Seq<bool>, later: Seq<bool>)
    ensures
        spec_cpu_count(present.push(false) + later) == spec_cpu_count(present.push(false)),
{
    lemma_first_index_of_concat(present.push(false), later, false);
    lemma_first_index_of_concat(present, seq![false], false);
    assert(present.push(false) =~= present + seq![false]);
    lemma_first_index_of_is(seq![false], false, 0);
    lemma_first_index_of(present, false);
}

/// `probe` was asked, in order, about the directories of processors 1, 2,
/// ... (`paths[k]` is the directory of processor `k + 1`) and answered
/// `answers[k]`; the asking went on while the answer was yes and stopped at
/// the first no or after `MAX_CPUS` questions.
pub open spec fn probed_in_order<F: Fn(&String) -> bool>(
    probe: F,
    paths: Seq<String>,
    answers: Seq<bool>,
) -> bool {
    &&& paths.len() == answers.len()
    &&& 1 <= answers.len() <= MAX_CPUS
    &&& forall|k: int| 0 <= k < paths.len() ==> #[trigger] paths[k]@ == spec_cpu_directory((k + 1) as nat)
    &&& forall|k: int| 0 <= k < answers.len() ==> call_ensures(probe, (&paths[k],), #[trigger] answers[k])
    &&& forall|k: int| 0 <= k < answers.len() - 1 ==> #[trigger] answers[k]
    &&& answers.len() == MAX_CPUS || !answers.last()
}

/// Counts the processors by asking `probe` whether the directories of
/// processors 1, 2, ... exist, until one is missing (see `probed_in_order`),
/// and counting as `cpu_count_from_probes` does: `None` when more than
/// `MAX_CPUS` processors show up.
pub fn count_cpus_with<F: Fn(&String) -> bool>(probe: F) -> (res: Option<u32>)
    requires
        forall|path: &String| call_requires(probe, (path,)),
    ensures
        exists|paths: Seq<String>, answers: Seq<bool>|
            probed_in_order(probe, paths, answers) && res == spec_cpu_count(answers),
{
    let mut present: Vec<bool> = Vec::new();
    let ghost mut paths: Seq<String> = Seq::empty();
    let mut count: u32 = 1;
    let mut done = false;
    while !done
        invariant
            forall|path: &String| call_requires(probe, (path,)),
            1 <= count <= MAX_CPUS,
            paths.len() == present@.len(),
            present@.len() == (if done { count as int } else { count - 1 }),
            forall|k: int| 0 <= k < paths.len() ==> #[trigger] paths[k]@ == spec_cpu_directory((k + 1) as nat),
            forall|k: int| 0 <= k < present@.len() ==> call_ensures(probe, (&paths[k],), #[trigger] present@[k]),
            forall|k: int| 0 <= k < count - 1 ==> #[trigger] present@[k],
            done ==> (count == MAX_CPUS || !present@[count - 1]),
        decreases MAX_CPUS - count + (if done { 0int } else { 1int }),
    {
        let path = cpu_directory_path(count);
        let found = probe(&path);
        present.push(found);
        proof {
            paths = paths.push(path);
        }
        if !found || count == MAX_CPUS {
            done = true;
        } else {
            count += 1;
        }
    }
    proof {
        lemma_first_index_of(present@, false);
        assert(probed_in_order(probe, paths, present@));
    }
    cpu_count_from_probes(&present)
}

/// Counts the processors by looking for `/sys/devices/system/cpu/cpu1`,
/// `cpu2`, ... until one is missing; `None` when more than `MAX_CPUS`
/// processors show up. Which directories exist is the file system's answer,
/// so only the order of the questions and the counting are stated.
pub fn get_cpu_count() -> (res: Option<u32>)
    ensures
        exists|paths: Seq<String>, answers: Seq<bool>|
            probed_in_order(directory_exists, paths, answers) && res == spec_cpu_count(answers),
        res matches Some(n) ==> 1 <= n <= MAX_CPUS,
{
    let res = count_cpus_with(directory_exists);
    proof {
        let (paths, answers) = choose|paths: Seq<String>, answers: Seq<bool>|
            probed_in_order(directory_exists, paths, answers) && res == spec_cpu_count(answers);
        lemma_first_index_of(answers, false);
    }
    res
}

// ---------------------------------------------------------------------------
// The maximum frequency
// ---------------------------------------------------------------------------

/// Why the text of `cpuinfo_max_freq` gives no frequency.
#[derive(Clone, Copy, Debug, PartialEq, Eq)]
pub enum FrequencyError {
    /// The text has no line.
    MissingLine,
    /// The first line is not a `u32`.
    InvalidNumber,
}

/// The frequency (in kHz) on the first line of `cpuinfo_max_freq`.
pub open spec fn spec_max_frequency(contents: Seq<char>) -> Result<u32, FrequencyError> {
    let lines = spec_lines(contents);
    if lines.len() == 0 {
        Err(FrequencyError::MissingLine)
    } else {
        match spec_parse_u32(lines[0]) {
            Some(f) => Ok(f),
            None => Err(FrequencyError::InvalidNumber),
        }
    }
}

/// The maximum frequency reads back from the decimal text of any `u32`,
/// whether or not a newline ends it (the kernel writes `"<kHz>\n"`).
pub proof fn law_max_frequency_reads_decimal(frequency: u32)
    ensures
        spec_max_frequency(decimal(frequency as nat)) == Ok::<u32, FrequencyError>(frequency),
        spec_max_frequency(decimal(frequency as nat) + seq!['\n']) == Ok::<u32, FrequencyError>(
            frequency,
        ),
{
    let d = decimal(frequency as nat);
    lemma_parse_decimal(frequency);
    lemma_decimal_lacks(frequency as nat, '\n');
    lemma_decimal(frequency as nat);
    assert(is_digit(d[d.len() - 1]));
    lemma_single_line(d);
}

/// Reads the maximum frequency from the text of `cpuinfo_max_freq`.
pub fn parse_cpu_max_frequency(contents: &str) -> (res: Result<u32, FrequencyError>)
    ensures
        res == spec_max_frequency(contents@),
{
    let chars = chars_of(contents);
    let lines = split_lines(&chars);
    if lines.len() == 0 {
        return Err(FrequencyError::MissingLine);
    }
    let first = &lines[0];
    assert(view_lines(lines@)[0] == first@);
    assert(first@.subrange(0, first@.len() as int) =~= first@);
    match parse_u32_range(first, 0, first.len()) {
        Some(f) => Ok(f),
        None => Err(FrequencyError::InvalidNumber),
    }
}

// ---------------------------------------------------------------------------
// Online state
// ---------------------------------------------------------------------------

/// Whether a processor is online, from the text of its `online` file
/// (`None` when the file cannot be read: such a processor counts as online).
pub open spec fn spec_enable_state(contents: Option<Seq<char>>) -> bool {
    match contents {
        None => true,
        Some(c) => c.len() > 0 && c[0] == '1',
    }
}

/// Whether a processor is online, from the text of its `online` file, if it
/// could be read: it is online when the file is missing or starts with `'1'`.
pub fn cpu_enable_state_from(contents: Option<&str>) -> (res: bool)
    ensures
        res == spec_enable_state(
            match contents {
                Some(c) => Some(c@),
                None => None,
            },
        ),
{
    match contents {
        None => true,
        Some(c) => {
            let cs = chars_of(c);
            cs.len() > 0 && cs[0] == '1'
        },
    }
}

// ---------------------------------------------------------------------------
// `/proc/stat`
// ---------------------------------------------------------------------------

/// Why the text of `/proc/stat` does not give every processor's counters.
#[derive(Clone, Copy, Debug, PartialEq, Eq)]
pub enum StatError {
    /// A processor has no line.
    MissingLine,
    /// A processor's line is not `cpu<N> <10 counters>`.
    MalformedLine,
}

/// `count` fields separated by single spaces that fill `s`, each a `u32` of at
/// most ten digits.
pub open spec fn spec_scan_fields(s: Seq<char>, count: nat) -> Option<Seq<u32>>
    decreases count,
{
    if count <= 1 {
        match spec_scan_u32(s) {
            Some(v) => Some(seq![v]),
            None => None,
        }
    } else {
        let k = first_index_of(s, ' ');
        if k < s.len() {
            match (spec_scan_u32(s.take(k)), spec_scan_fields(s.skip(k + 1), (count - 1) as nat)) {
                (Some(v), Some(rest)) => Some(seq![v] + rest),
                _ => None,
            }
        } else {
            None
        }
    }
}

pub open spec fn stat_of_fields(v: Seq<u32>) -> CPUStat {
    CPUStat {
        user: v[1],
        nice: v[2],
        system: v[3],
        idle: v[4],
        iowait: v[5],
        irq: v[6],
        softirq: v[7],
        steal: v[8],
        guest: v[9],
        guest_nice: v[10],
    }
}

/// A processor line of `/proc/stat`: `cpu`, then eleven space-separated
/// `u32` fields (the processor number and its ten counters) to the end.
pub open spec fn spec_stat_line(line: Seq<char>) -> Option<CPUStat> {
    if line.len() >= 3 && line[0] == 'c' && line[1] == 'p' && line[2] == 'u' {
        match spec_scan_fields(line.skip(3), 11) {
            Some(v) => Some(stat_of_fields(v)),
            None => None,
        }
    } else {
        None
    }
}

/// The counters of the first `n` processors, read from the lines after the
/// first one.
pub open spec fn spec_stats(lines: Seq<Seq<char>>, n: nat) -> Result<Seq<CPUStat>, StatError>
    decreases n,
{
    if n == 0 {
        Ok(Seq::empty())
    } else {
        match spec_stats(lines, (n - 1) as nat) {
            Err(e) => Err(e),
            Ok(s) => if n >= lines.len() {
                Err(StatError::MissingLine)
            } else {
                match spec_stat_line(lines[n as int]) {
                    Some(st) => Ok(s.push(st)),
                    None => Err(StatError::MalformedLine),
                }
            },
        }
    }
}

proof fn lemma_scan_fields_len(s: Seq<char>, count: nat)
    requires
        count >= 1,
        spec_scan_fields(s, count) is Some,
    ensures
        spec_scan_fields(s, count)->0.len() == count,
    decreases count,
{
    if count > 1 {
        let k = first_index_of(s, ' ');
        lemma_scan_fields_len(s.skip(k + 1), (count - 1) as nat);
    }
}

/// Scans `count` fields of `chars[lo..hi]` and appends them to `out`.
fn scan_fields(chars: &Vec<char>, lo: usize, hi: usize, count: usize, out: &mut Vec<u32>) -> (ok: bool)
    requires
        lo <= hi <= chars@.len(),
        count >= 1,
    ensures
        match spec_scan_fields(chars@.subrange(lo as int, hi as int), count as nat) {
            Some(v) => ok && final(out)@ == old(out)@ + v,
            None => !ok,
        },
    decreases count,
{
    let ghost s = chars@.subrange(lo as int, hi as int);
    if count <= 1 {
        match scan_u32_range(chars, lo, hi) {
            Some(v) => {
                out.push(v);
                assert(final(out)@ =~= old(out)@ + seq![v]);
                true
            },
            None => false,
        }
    } else {
        let k = find_char(chars, lo, hi, ' ');
        if k >= hi {
            return false;
        }
        proof {
            lemma_first_index_of(s, ' ');
        }
        assert(s.take(k - lo) =~= chars@.subrange(lo as int, k as int));
        assert(s.skip(k - lo + 1) =~= chars@.subrange(k + 1, hi as int));
        match scan_u32_range(chars, lo, k) {
            Some(v) => {
                out.push(v);
                let ghost mid = out@;
                let ok = scan_fields(chars, k + 1, hi, count - 1, out);
                proof {
                    if ok {
                        let rest = spec_scan_fields(s.skip(k - lo + 1), (count - 1) as nat)->0;
                        assert(final(out)@ =~= old(out)@ + (seq![v] + rest));
                    }
                }
                ok
            },
            None => false,
        }
    }
}

/// The text of `values` separated by single spaces.
pub open spec fn decimal_fields(values: Seq<u32>) -> Seq<char>
    decreases values.len(),
{
    if values.len() == 0 {
        Seq::empty()
    } else if values.len() == 1 {
        decimal(values[0] as nat)
    } else {
        decimal(values[0] as nat) + seq![' '] + decimal_fields(values.drop_first())
    }
}

proof fn lemma_scan_decimal_fields(values: Seq<u32>)
    requires
        values.len() >= 1,
    ensures
        spec_scan_fields(decimal_fields(values), values.len()) == Some(values),
    decreases values.len(),
{
    lemma_parse_decimal(values[0]);
    if values.len() == 1 {
        assert(seq![values[0]] =~= values);
    } else {
        let d = decimal(values[0] as nat);
        let rest = decimal_fields(values.drop_first());
        let s = d + seq![' '] + rest;
        lemma_decimal_lacks(values[0] as nat, ' ');
        lemma_first_index_of(d, ' ');
        assert forall|i: int| 0 <= i < d.len() implies s[i] != ' ' by {
            assert(s[i] == d[i]);
        }
        lemma_first_index_of_is(s, ' ', d.len() as int);
        assert(s.take(d.len() as int) =~= d);
        assert(s.skip(d.len() as int + 1) =~= rest);
        lemma_scan_decimal_fields(values.drop_first());
        assert(seq![values[0]] + values.drop_first() =~= values);
    }
}

/// The fields of a processor line: the processor number, then the counters.
pub open spec fn stat_fields(cpu: u32, stat: CPUStat) -> Seq<u32> {
    seq![
        cpu,
        stat.user,
        stat.nice,
        stat.system,
        stat.idle,
        stat.iowait,
        stat.irq,
        stat.softirq,
        stat.steal,
        stat.guest,
        stat.guest_nice,
    ]
}

/// The line `/proc/stat` shows for processor `cpu` with the counters `stat`:
/// `cpu<cpu> <user> <nice> ... <guest_nice>`.
pub open spec fn stat_line_text(cpu: u32, stat: CPUStat) -> Seq<char> {
    seq!['c', 'p', 'u'] + decimal_fields(stat_fields(cpu, stat))
}

/// A processor line in the kernel's format reads back as its counters, for
/// every processor number and every counter value.
pub proof fn law_stat_line_roundtrip(cpu: u32, stat: CPUStat)
    ensures
        spec_stat_line(stat_line_text(cpu, stat)) == Some(stat),
{
    let line = stat_line_text(cpu, stat);
    let fields = stat_fields(cpu, stat);
    assert(line.skip(3) =~= decimal_fields(fields));
    lemma_scan_decimal_fields(fields);
    assert(stat_of_fields(fields) == stat);
}

/// When line `i + 1` of `/proc/stat` is the kernel's line for processor `i`
/// with counters `stats[i]`, the samples taken are exactly `stats`, whatever
/// the first line and whatever lines follow.
pub proof fn law_stats_roundtrip(header: Seq<char>, stats: Seq<CPUStat>, rest: Seq<Seq<char>>)
    requires
        stats.len() < u32::MAX,
    ensures
        spec_stats(
            seq![header] + Seq::new(stats.len(), |i: int| stat_line_text(i as u32, stats[i]))
                + rest,
            stats.len(),
        ) == Ok::<Seq<CPUStat>, StatError>(stats),
{
    let lines = seq![header] + Seq::new(stats.len(), |i: int| stat_line_text(i as u32, stats[i]))
        + rest;
    lemma_stats_prefix(lines, stats, stats.len());
    assert(stats.take(stats.len() as int) =~= stats);
}

proof fn lemma_stats_prefix(lines: Seq<Seq<char>>, stats: Seq<CPUStat>, n: nat)
    requires
        n <= stats.len() < u32::MAX,
        lines.len() > stats.len(),
        forall|i: int| 0 <= i < stats.len() ==> lines[i + 1] == stat_line_text(i as u32, stats[i]),
    ensures
        spec_stats(lines, n) == Ok::<Seq<CPUStat>, StatError>(stats.take(n as int)),
    decreases n,
{
    if n == 0 {
        assert(stats.take(0) =~= Seq::<CPUStat>::empty());
    } else {
        lemma_stats_prefix(lines, stats, (n - 1) as nat);
        law_stat_line_roundtrip((n - 1) as u32, stats[n - 1]);
        assert(lines[n as int] == stat_line_text((n - 1) as u32, stats[n - 1]));
        assert(stats.take((n - 1) as int).push(stats[n - 1]) =~= stats.take(n as int));
    }
}

/// Parses one processor line of `/proc/stat`.
pub fn parse_stat_line(line: &Vec<char>) -> (res: Option<CPUStat>)
    ensures
        res == spec_stat_line(line@),
{
    let n = line.len();
    if !(n >= 3 && line[0] == 'c' && line[1] == 'p' && line[2] == 'u') {
        return None;
    }
    let mut fields: Vec<u32> = Vec::new();
    assert(line@.subrange(3, n as int) =~= line@.skip(3));
    if !scan_fields(line, 3, n, 11, &mut fields) {
        return None;
    }
    proof {
        lemma_scan_fields_len(line@.skip(3), 11);
        assert(fields@ =~= spec_scan_fields(line@.skip(3), 11)->0);
    }
    Some(
        CPUStat {
            user: fields[1],
            nice: fields[2],
            system: fields[3],
            idle: fields[4],
            iowait: fields[5],
            irq: fields[6],
            softirq: fields[7],
            steal: fields[8],
            guest: fields[9],
            guest_nice: fields[10],
        },
    )
}

/// The counters of the first `cpu_count` processors in the text of
/// `/proc/stat` (processor `i` reads line `i + 1`; line 0 sums all
/// processors), or why the text does not give them.
pub fn read_cpu_stats(cpu_count: usize, stat_contents: &str) -> (res: Result<Vec<CPUStat>, StatError>)
    ensures
        match spec_stats(spec_lines(stat_contents@), cpu_count as nat) {
            Ok(stats) => res matches Ok(v) && v@ == stats,
            Err(e) => res matches Err(r) && r == e,
        },
{
    let chars = chars_of(stat_contents);
    let lines = split_lines(&chars);
    let ghost ls = view_lines(lines@);
    let n = cpu_count;
    let mut stats: Vec<CPUStat> = Vec::with_capacity(n);
    let mut i: usize = 0;
    while i < n
        invariant
            n == cpu_count,
            ls == view_lines(lines@),
            ls == spec_lines(stat_contents@),
            i <= n,
            stats@.len() == i,
            spec_stats(ls, i as nat) == Ok::<Seq<CPUStat>, StatError>(stats@),
        decreases n - i,
    {
        if i + 1 >= lines.len() {
            proof {
                lemma_stats_err_persists(ls, (i + 1) as nat, n as nat);
            }
            return Err(StatError::MissingLine);
        }
        assert(ls[i + 1] == lines@[i + 1]@);
        match parse_stat_line(&lines[i + 1]) {
            Some(st) => {
                stats.push(st);
            },
            None => {
                proof {
                    lemma_stats_err_persists(ls, (i + 1) as nat, n as nat);
                }
                return Err(StatError::MalformedLine);
            },
        }
        i += 1;
    }
    Ok(stats)
}

/// Takes a new sample for every processor of `cpu_infos` from the text of
/// `/proc/stat`: processor `i` reads line `i + 1` (line 0 sums all
/// processors). Each current sample becomes the previous one and the line's
/// counters the current one. The text must give every processor a line
/// (`read_cpu_stats` tells whether it does).
pub fn get_cpu_stats(cpu_infos: &mut Vec<CPUInfo>, stat_contents: &str)
    requires
        spec_stats(spec_lines(stat_contents@), old(cpu_infos)@.len()) is Ok,
    ensures
        final(cpu_infos)@.len() == old(cpu_infos)@.len(),
        forall|i: int|
            0 <= i < old(cpu_infos)@.len() ==> #[trigger] final(cpu_infos)@[i] == (CPUInfo {
                prev_stat: old(cpu_infos)@[i].curr_stat,
                curr_stat: spec_stats(spec_lines(stat_contents@), old(cpu_infos)@.len())->Ok_0[i],
                enabled: old(cpu_infos)@[i].enabled,
                usage: old(cpu_infos)@[i].usage,
            }),
{
    let n = cpu_infos.len();
    let stats = match read_cpu_stats(n, stat_contents) {
        Ok(stats) => stats,
        Err(_) => {
            proof {
                assert(false);
            }
            return;
        },
    };
    proof {
        lemma_stats_len(spec_lines(stat_contents@), n as nat);
    }
    let mut j: usize = 0;
    while j < n
        invariant
            n == cpu_infos@.len(),
            n == old(cpu_infos)@.len(),
            n == stats@.len(),
            j <= n,
            forall|k: int|
                j <= k < n ==> #[trigger] cpu_infos@[k] == old(cpu_infos)@[k],
            forall|k: int|
                0 <= k < j ==> #[trigger] cpu_infos@[k] == (CPUInfo {
                    prev_stat: old(cpu_infos)@[k].curr_stat,
                    curr_stat: stats@[k],
                    enabled: old(cpu_infos)@[k].enabled,
                    usage: old(cpu_infos)@[k].usage,
                }),
        decreases n - j,
    {
        let old_info = cpu_infos[j];
        let updated = CPUInfo {
            prev_stat: old_info.curr_stat,
            curr_stat: stats[j],
            enabled: old_info.enabled,
            usage: old_info.usage,
        };
        cpu_infos.set(j, updated);
        j += 1;
    }
}

/// Successful samples hold one entry per processor.
proof fn lemma_stats_len(lines: Seq<Seq<char>>, n: nat)
    requires
        spec_stats(lines, n) is Ok,
    ensures
        spec_stats(lines, n)->Ok_0.len() == n,
    decreases n,
{
    if n > 0 {
        lemma_stats_len(lines, (n - 1) as nat);
    }
}

/// Once the samples of the first `m` processors fail, so do those of any more.
proof fn lemma_stats_err_persists(lines: Seq<Seq<char>>, m: nat, n: nat)
    requires
        m <= n,
        spec_stats(lines, m) is Err,
    ensures
        spec_stats(lines, n) == spec_stats(lines, m),
    decreases n - m,
{
    if m < n {
        lemma_stats_err_persists(lines, m, (n - 1) as nat);
    }
}

// ---------------------------------------------------------------------------
// Usage
// ---------------------------------------------------------------------------

/// Busy ticks: user, nice, system, irq, softirq, guest and guest_nice.
pub open spec fn busy_ticks(s: CPUStat) -> int {
    s.user + s.nice + s.system + s.irq + s.softirq + s.guest + s.guest_nice
}

/// Idle ticks gained from `prev` to `curr`: idle, steal and iowait.
pub open spec fn idle_gain(prev: CPUStat, curr: CPUStat) -> int {
    (curr.idle - prev.idle) + (curr.steal - prev.steal) + (curr.iowait - prev.iowait)
}

/// The usage between two samples is computed in `u32` without overflow:
/// each sum of busy ticks fits, no counter goes backwards and the idle gain fits.
pub open spec fn usage_defined(prev: CPUStat, curr: CPUStat) -> bool {
    &&& busy_ticks(curr) <= u32::MAX
    &&& busy_ticks(prev) <= u32::MAX
    &&& busy_ticks(prev) <= busy_ticks(curr)
    &&& prev.idle <= curr.idle
    &&& prev.steal <= curr.steal
    &&& prev.iowait <= curr.iowait
    &&& idle_gain(prev, curr) <= u32::MAX
}

pub open spec fn spec_usage(prev: CPUStat, curr: CPUStat) -> CpuUsage {
    CpuUsage {
        work: (busy_ticks(curr) - busy_ticks(prev)) as u32,
        idle: idle_gain(prev, curr) as u32,
    }
}

/// The usage splits the ticks gained between two samples: `work` is what
/// user, nice, system, irq, softirq, guest and guest_nice gained, `idle` what
/// idle, steal and iowait gained (for samples where no counter goes back and
/// the sums fit in a `u32`).
pub proof fn law_usage_splits_ticks(prev: CPUStat, curr: CPUStat)
    requires
        curr.user + curr.nice + curr.system + curr.irq + curr.softirq + curr.guest
            + curr.guest_nice <= u32::MAX,
        prev.user + prev.nice + prev.system + prev.irq + prev.softirq + prev.guest
            + prev.guest_nice <= curr.user + curr.nice + curr.system + curr.irq + curr.softirq
            + curr.guest + curr.guest_nice,
        prev.idle <= curr.idle,
        prev.steal <= curr.steal,
        prev.iowait <= curr.iowait,
        (curr.idle - prev.idle) + (curr.steal - prev.steal) + (curr.iowait - prev.iowait)
            <= u32::MAX,
    ensures
        usage_defined(prev, curr),
        spec_usage(prev, curr).work == (curr.user + curr.nice + curr.system + curr.irq
            + curr.softirq + curr.guest + curr.guest_nice) - (prev.user + prev.nice + prev.system
            + prev.irq + prev.softirq + prev.guest + prev.guest_nice),
        spec_usage(prev, curr).idle == (curr.idle - prev.idle) + (curr.steal - prev.steal) + (
        curr.iowait - prev.iowait),
        spec_usage(prev, curr).work + spec_usage(prev, curr).idle == (curr.user + curr.nice
            + curr.system + curr.irq + curr.softirq + curr.guest + curr.guest_nice + curr.idle
            + curr.steal + curr.iowait) - (prev.user + prev.nice + prev.system + prev.irq
            + prev.softirq + prev.guest + prev.guest_nice + prev.idle + prev.steal + prev.iowait),
{
}

/// Time spent in the system counts as work: `d` more system ticks in the
/// current sample give `d` more work and the same idle ticks; `d` more steal
/// ticks give `d` more idle ticks and the same work.
pub proof fn law_usage_system_is_work_steal_is_idle(prev: CPUStat, curr: CPUStat, d: u32)
    requires
        usage_defined(prev, curr),
        curr.system + d <= u32::MAX,
        curr.steal + d <= u32::MAX,
        busy_ticks(curr) + d <= u32::MAX,
        idle_gain(prev, curr) + d <= u32::MAX,
    ensures
        usage_defined(prev, CPUStat { system: (curr.system + d) as u32, ..curr }),
        spec_usage(prev, CPUStat { system: (curr.system + d) as u32, ..curr }).work
            == spec_usage(prev, curr).work + d,
        spec_usage(prev, CPUStat { system: (curr.system + d) as u32, ..curr }).idle
            == spec_usage(prev, curr).idle,
        usage_defined(prev, CPUStat { steal: (curr.steal + d) as u32, ..curr }),
        spec_usage(prev, CPUStat { steal: (curr.steal + d) as u32, ..curr }).idle
            == spec_usage(prev, curr).idle + d,
        spec_usage(prev, CPUStat { steal: (curr.steal + d) as u32, ..curr }).work
            == spec_usage(prev, curr).work,
{
}

/// Whether the usage of `cpu_info` can be computed (see `usage_defined`).
pub fn usage_is_defined(cpu_info: &CPUInfo) -> (res: bool)
    ensures
        res == usage_defined(cpu_info.prev_stat, cpu_info.curr_stat),
{
    let p = &cpu_info.prev_stat;
    let c = &cpu_info.curr_stat;
    let busy_c: u64 = c.user as u64 + c.nice as u64 + c.system as u64 + c.irq as u64
        + c.softirq as u64 + c.guest as u64 + c.guest_nice as u64;
    let busy_p: u64 = p.user as u64 + p.nice as u64 + p.system as u64 + p.irq as u64
        + p.softirq as u64 + p.guest as u64 + p.guest_nice as u64;
    if busy_c > u32::MAX as u64 || busy_p > u32::MAX as u64 || busy_p > busy_c {
        return false;
    }
    if p.idle > c.idle || p.steal > c.steal || p.iowait > c.iowait {
        return false;
    }
    let gain: u64 = (c.idle - p.idle) as u64 + (c.steal - p.steal) as u64 + (c.iowait
        - p.iowait) as u64;
    gain <= u32::MAX as u64
}

/// Computes and records the usage of a processor between its previous and
/// its current sample.
pub fn get_cpu_usage(cpu_info: &mut CPUInfo) -> (res: CpuUsage)
    requires
        usage_defined(old(cpu_info).prev_stat, old(cpu_info).curr_stat),
    ensures
        res == spec_usage(old(cpu_info).prev_stat, old(cpu_info).curr_stat),
        *final(cpu_info) == (CPUInfo { usage: Some(res), ..*old(cpu_info) }),
{
    let prev = cpu_info.prev_stat;
    let curr = cpu_info.curr_stat;
    let work = (curr.user + curr.nice + curr.system + curr.irq + curr.softirq + curr.guest
        + curr.guest_nice) - (prev.user + prev.nice + prev.system + prev.irq + prev.softirq
        + prev.guest + prev.guest_nice);
    let idle = (curr.idle - prev.idle) + (curr.steal - prev.steal) + (curr.iowait - prev.iowait);
    let usage = CpuUsage { work, idle };
    cpu_info.usage = Some(usage);
    usage
}

/// The records of processors `0 .. enabled.len()`, processor `i` online as
/// `enabled[i]` says, with zeroed samples and no usage yet.
pub fn init_infos(enabled: &Vec<bool>) -> (res: Vec<CPUInfo>)
    ensures
        res@.len() == enabled@.len(),
        forall|i: int|
            0 <= i < enabled@.len() ==> #[trigger] res@[i] == (CPUInfo {
                prev_stat: zero_stat(),
                curr_stat: zero_stat(),
                enabled: enabled@[i],
                usage: None,
            }),
{
    let mut res: Vec<CPUInfo> = Vec::with_capacity(MAX_CPUS as usize);
    let mut i: usize = 0;
    while i < enabled.len()
        invariant
            i <= enabled@.len(),
            res@.len() == i,
            forall|k: int|
                0 <= k < i ==> #[trigger] res@[k] == (CPUInfo {
                    prev_stat: zero_stat(),
                    curr_stat: zero_stat(),
                    enabled: enabled@[k],
                    usage: None,
                }),
        decreases enabled@.len() - i,
    {
        res.push(
            CPUInfo {
                prev_stat: new_zero_stat(),
                curr_stat: new_zero_stat(),
                enabled: enabled[i],
                usage: None,
            },
        );
        i += 1;
    }
    res
}

} // verus!
