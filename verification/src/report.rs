//! Human-readable reports at the telemetry boundary: byte and rate
//! formatting with two decimals, uptime formatting, and snapshots of the
//! operating-system and network state taken through an outside probe.
//! What the probe reports depends on the machine; everything computed
//! from its answers is verified.

use vstd::prelude::*;
use vstd::string::StringExecFns;
use vstd::arithmetic::div_mod::{lemma_div_is_ordered_by_denominator, lemma_div_multiples_vanish};
use crate::text::{spec_dec, u64_to_dec, clamp_u64, sat_add_u64, sat_sub_u64};

verus! {

pub const KB: u64 = 1024;

pub const MB: u64 = 1024 * 1024;

pub const GB: u64 = 1024 * 1024 * 1024;

pub const TB: u64 = 1024 * 1024 * 1024 * 1024;

/// `n / unit` in hundredths, rounded to the nearest, ties to even — the
/// rounding that two-decimal float formatting applies to an exact
/// binary quotient.
pub open spec fn spec_hundredths(n: int, unit: int) -> int {
    let q = n * 100 / unit;
    let r = (n * 100) % unit;
    if 2 * r > unit {
        q + 1
    } else if 2 * r < unit {
        q
    } else if q % 2 == 0 {
        q
    } else {
        q + 1
    }
}

/// Two digits, with a leading zero below ten.
pub open spec fn spec_two_dec(f: int) -> Seq<char> {
    if f < 10 {
        "0"@ + spec_dec(f)
    } else {
        spec_dec(f)
    }
}

/// `n / unit` rendered with two decimals.
pub open spec fn spec_scaled(n: int, unit: int) -> Seq<char> {
    spec_dec(spec_hundredths(n, unit) / 100) + "."@ + spec_two_dec(spec_hundredths(n, unit) % 100)
}

/// Compute `spec_hundredths` exactly, through 128-bit intermediates.
fn hundredths_of(n: u64, unit: u64) -> (h: u64)
    requires
        unit >= 1024,
    ensures
        h as int == spec_hundredths(n as int, unit as int),
{
    proof {
        lemma_div_is_ordered_by_denominator(n as int * 100, 100, unit as int);
        lemma_div_multiples_vanish(n as int, 100);
        assert(100 * (n as int) == n as int * 100);
        assert(n as int * 100 / (unit as int) <= n as int);
        if n > 0 {
            lemma_div_is_ordered_by_denominator(n as int * 100, 1024, unit as int);
            lemma_div_bound_up(n as int * 100, 1024, n as int);
        }
    }
    let num: u128 = (n as u128) * 100;
    let q: u128 = num / (unit as u128);
    let rem: u128 = num % (unit as u128);
    if 2 * rem > unit as u128 {
        (q + 1) as u64
    } else if 2 * rem < unit as u128 {
        q as u64
    } else if q % 2 == 0 {
        q as u64
    } else {
        (q + 1) as u64
    }
}

/// `a / b` stays below `c` as soon as `a < b * c`.
proof fn lemma_div_bound_up(a: int, b: int, c: int)
    requires
        0 <= a,
        0 < b,
        0 < c,
        a < b * c,
    ensures
        a / b < c,
{
    assert(a / b < c) by (nonlinear_arith)
        requires
            0 <= a,
            0 < b,
            0 < c,
            a < b * c,
    ;
}

/// Render `n / unit` with two decimals.
fn scaled_string(n: u64, unit: u64) -> (r: String)
    requires
        unit >= 1024,
    ensures
        r@ == spec_scaled(n as int, unit as int),
{
    let h = hundredths_of(n, unit);
    let whole = h / 100;
    let frac = h % 100;
    let mut s = u64_to_dec(whole);
    s.append(".");
    if frac < 10 {
        s.append("0");
    }
    s.append(u64_to_dec(frac).as_str());
    proof {
        assert(s@ =~= spec_scaled(n as int, unit as int));
    }
    s
}

/// The rendering of a byte count: scaled to the largest binary unit it
/// reaches, with two decimals, or plain bytes below 1024.
pub open spec fn spec_format_bytes(b: int) -> Seq<char> {
    if b >= TB {
        spec_scaled(b, TB as int) + " TB"@
    } else if b >= GB {
        spec_scaled(b, GB as int) + " GB"@
    } else if b >= MB {
        spec_scaled(b, MB as int) + " MB"@
    } else if b >= KB {
        spec_scaled(b, KB as int) + " KB"@
    } else {
        spec_dec(b) + " B"@
    }
}

/// Format a byte count for humans, at the largest binary unit reached.
pub fn format_bytes(bytes: u64) -> (r: String)
    ensures
        r@ == spec_format_bytes(bytes as int),
{
    let mut s: String;
    if bytes >= TB {
        s = scaled_string(bytes, TB);
        s.append(" TB");
    } else if bytes >= GB {
        s = scaled_string(bytes, GB);
        s.append(" GB");
    } else if bytes >= MB {
        s = scaled_string(bytes, MB);
        s.append(" MB");
    } else if bytes >= KB {
        s = scaled_string(bytes, KB);
        s.append(" KB");
    } else {
        s = u64_to_dec(bytes);
        s.append(" B");
    }
    s
}

/// The rendering of a transfer rate, analogous to `spec_format_bytes`.
pub open spec fn spec_format_speed(b: int) -> Seq<char> {
    if b >= GB {
        spec_scaled(b, GB as int) + " GB/s"@
    } else if b >= MB {
        spec_scaled(b, MB as int) + " MB/s"@
    } else if b >= KB {
        spec_scaled(b, KB as int) + " KB/s"@
    } else {
        spec_dec(b) + " B/s"@
    }
}

/// Format a transfer rate for humans.
pub fn format_network_speed(bytes_per_sec: u64) -> (r: String)
    ensures
        r@ == spec_format_speed(bytes_per_sec as int),
{
    let mut s: String;
    if bytes_per_sec >= GB {
        s = scaled_string(bytes_per_sec, GB);
        s.append(" GB/s");
    } else if bytes_per_sec >= MB {
        s = scaled_string(bytes_per_sec, MB);
        s.append(" MB/s");
    } else if bytes_per_sec >= KB {
        s = scaled_string(bytes_per_sec, KB);
        s.append(" KB/s");
    } else {
        s = u64_to_dec(bytes_per_sec);
        s.append(" B/s");
    }
    s
}

/// The rendering of an uptime: the two or three largest units that apply.
pub open spec fn spec_format_uptime(s: int) -> Seq<char> {
    let days = s / 86400;
    let hours = (s % 86400) / 3600;
    let minutes = (s % 3600) / 60;
    let secs = s % 60;
    if days > 0 {
        spec_dec(days) + "天 "@ + spec_dec(hours) + "小时 "@ + spec_dec(minutes) + "分钟"@
    } else if hours > 0 {
        spec_dec(hours) + "小时 "@ + spec_dec(minutes) + "分钟"@
    } else if minutes > 0 {
        spec_dec(minutes) + "分钟 "@ + spec_dec(secs) + "秒"@
    } else {
        spec_dec(secs) + "秒"@
    }
}

/// Format a duration in seconds as days, hours, minutes and seconds,
/// dropping the units that do not apply.
pub fn format_uptime(seconds: u64) -> (r: String)
    ensures
        r@ == spec_format_uptime(seconds as int),
{
    let days = seconds / 86400;
    let hours = (seconds % 86400) / 3600;
    let minutes = (seconds % 3600) / 60;
    let secs = seconds % 60;
    let mut s: String;
    if days > 0 {
        s = u64_to_dec(days);
        s.append("天 ");
        s.append(u64_to_dec(hours).as_str());
        s.append("小时 ");
        s.append(u64_to_dec(minutes).as_str());
        s.append("分钟");
    } else if hours > 0 {
        s = u64_to_dec(hours);
        s.append("小时 ");
        s.append(u64_to_dec(minutes).as_str());
        s.append("分钟");
    } else if minutes > 0 {
        s = u64_to_dec(minutes);
        s.append("分钟 ");
        s.append(u64_to_dec(secs).as_str());
        s.append("秒");
    } else {
        s = u64_to_dec(secs);
        s.append("秒");
    }
    proof {
        assert(s@ =~= spec_format_uptime(seconds as int));
    }
    s
}

/// Identity of the running operating system, as the probe reports it.
#[derive(Clone, Debug)]
pub struct OsInfo {
    pub os_type: String,
    pub version: String,
    pub kernel_version: String,
    pub hostname: String,
    pub architecture: String,
    /// Boot instant, epoch seconds.
    pub boot_time: u64,
    /// Seconds since boot.
    pub uptime: u64,
}

/// Relies on `sysinfo::System::name`: the operating system's name, when
/// the platform reports one. Machine-dependent.
#[verifier::external_body]
fn sys_os_name() -> (r: Option<String>)
{
    sysinfo::System::name()
}

/// Relies on `sysinfo::System::long_os_version`. Machine-dependent.
#[verifier::external_body]
fn sys_long_os_version() -> (r: Option<String>)
{
    sysinfo::System::long_os_version()
}

/// Relies on `sysinfo::System::kernel_version`. Machine-dependent.
#[verifier::external_body]
fn sys_kernel_version() -> (r: Option<String>)
{
    sysinfo::System::kernel_version()
}

/// Relies on `sysinfo::System::host_name`. Machine-dependent.
#[verifier::external_body]
fn sys_host_name() -> (r: Option<String>)
{
    sysinfo::System::host_name()
}

/// Relies on `sysinfo::System::cpu_arch`. Machine-dependent.
#[verifier::external_body]
fn sys_cpu_arch() -> (r: String)
{
    sysinfo::System::cpu_arch()
}

/// Relies on `sysinfo::System::boot_time`: the boot instant in epoch
/// seconds. Machine-dependent.
#[verifier::external_body]
fn sys_boot_time() -> (r: u64)
{
    sysinfo::System::boot_time()
}

/// Relies on `std::time::SystemTime`: the wall clock now, in epoch
/// seconds; 0 when the clock is before the epoch.
#[verifier::external_body]
fn now_unix_secs() -> (r: u64)
{
    std::time::SystemTime::now()
        .duration_since(std::time::UNIX_EPOCH)
        .map(|d| d.as_secs())
        .unwrap_or(0)
}

/// The operating system's name, or "Unknown" when the platform does not
/// report one.
pub fn get_os_version() -> (r: String)
{
    match sys_os_name() {
        Some(n) => n,
        None => "Unknown".to_owned(),
    }
}

/// Snapshot the operating-system identity. Never fails; fields the
/// platform does not report read "Unknown", and the uptime is the wall
/// clock minus the boot instant, stopping at zero.
pub fn get_os_info_sync() -> (r: Result<OsInfo, String>)
    ensures
        r is Ok,
{
    let os_type = get_os_version();
    let version = match sys_long_os_version() {
        Some(v) => v,
        None => "Unknown".to_owned(),
    };
    let kernel_version = match sys_kernel_version() {
        Some(v) => v,
        None => "Unknown".to_owned(),
    };
    let hostname = match sys_host_name() {
        Some(v) => v,
        None => "Unknown".to_owned(),
    };
    let architecture = sys_cpu_arch();
    let boot_time = sys_boot_time();
    let current_time = now_unix_secs();
    let uptime = sat_sub_u64(current_time, boot_time);
    Ok(OsInfo { os_type, version, kernel_version, hostname, architecture, boot_time, uptime })
}

/// The multi-line report that `get_detailed_os_string` builds from a
/// snapshot.
pub open spec fn spec_detailed_os(info: OsInfo) -> Seq<char> {
    info.os_type@ + " "@ + info.version@ + " ("@ + info.architecture@ + ")\n内核: "@
        + info.kernel_version@ + "\n主机名: "@ + info.hostname@ + "\n运行时间: "@
        + spec_format_uptime(info.uptime as int)
}

/// Render an operating-system snapshot as a multi-line report.
pub fn detailed_os_string_of(info: &OsInfo) -> (r: String)
    ensures
        r@ == spec_detailed_os(*info),
{
    let mut s = info.os_type.clone();
    s.append(" ");
    s.append(info.version.as_str());
    s.append(" (");
    s.append(info.architecture.as_str());
    s.append(")\n内核: ");
    s.append(info.kernel_version.as_str());
    s.append("\n主机名: ");
    s.append(info.hostname.as_str());
    s.append("\n运行时间: ");
    s.append(format_uptime(info.uptime).as_str());
    proof {
        assert(s@ =~= spec_detailed_os(*info));
    }
    s
}

/// Snapshot the operating system and render the multi-line report. The
/// report is never empty: it always carries its fixed captions.
pub fn get_detailed_os_string() -> (r: String)
    ensures
        r@.len() > 0,
{
    let info = match get_os_info_sync() {
        Ok(i) => i,
        Err(_) => OsInfo {
            os_type: "Unknown".to_owned(),
            version: "Unknown".to_owned(),
            kernel_version: "Unknown".to_owned(),
            hostname: "Unknown".to_owned(),
            architecture: "Unknown".to_owned(),
            boot_time: 0,
            uptime: 0,
        },
    };
    let s = detailed_os_string_of(&info);
    proof {
        reveal_strlit(" ");
    }
    s
}

/// Traffic counters of one network interface, as the probe reports them.
#[derive(Clone, Debug)]
pub struct NetworkInterface {
    pub name: String,
    pub received_bytes: u64,
    pub transmitted_bytes: u64,
    /// Bytes received since the previous refresh.
    pub received_rate: u64,
    /// Bytes transmitted since the previous refresh.
    pub transmitted_rate: u64,
}

/// The interface list with its aggregate counters.
#[derive(Clone, Debug)]
pub struct NetworkInfo {
    pub interfaces: Vec<NetworkInterface>,
    /// Sum of received bytes, saturating at `u64::MAX`.
    pub total_received: u64,
    /// Sum of transmitted bytes, saturating at `u64::MAX`.
    pub total_transmitted: u64,
    /// How many interfaces have moved any data.
    pub active_interfaces: usize,
}

pub open spec fn recv_sum(s: Seq<NetworkInterface>) -> int
    decreases s.len(),
{
    if s.len() == 0 {
        0
    } else {
        recv_sum(s.drop_last()) + s.last().received_bytes as int
    }
}

pub open spec fn trans_sum(s: Seq<NetworkInterface>) -> int
    decreases s.len(),
{
    if s.len() == 0 {
        0
    } else {
        trans_sum(s.drop_last()) + s.last().transmitted_bytes as int
    }
}

/// An interface is active when it has moved any data.
pub open spec fn active_count(s: Seq<NetworkInterface>) -> int
    decreases s.len(),
{
    if s.len() == 0 {
        0
    } else {
        active_count(s.drop_last()) + if s.last().received_bytes > 0
            || s.last().transmitted_bytes > 0 {
            1int
        } else {
            0int
        }
    }
}

proof fn lemma_net_sums_nonneg(s: Seq<NetworkInterface>)
    ensures
        recv_sum(s) >= 0,
        trans_sum(s) >= 0,
        0 <= active_count(s) <= s.len(),
    decreases s.len(),
{
    if s.len() > 0 {
        lemma_net_sums_nonneg(s.drop_last());
    }
}

/// The aggregates of a network snapshot agree with its interface list.
pub open spec fn network_info_wf(n: NetworkInfo) -> bool {
    &&& n.total_received as int == clamp_u64(recv_sum(n.interfaces@))
    &&& n.total_transmitted as int == clamp_u64(trans_sum(n.interfaces@))
    &&& n.active_interfaces as int == active_count(n.interfaces@)
}

/// Relies on `sysinfo::Networks::new_with_refreshed_list` and the
/// per-interface counters of `sysinfo::NetworkData`. The list and every
/// number depend on the machine, and the interfaces come in no fixed
/// order, so nothing more is assumed of the result.
#[verifier::external_body]
fn network_interfaces_snapshot() -> (r: Vec<NetworkInterface>)
{
    sysinfo::Networks::new_with_refreshed_list()
        .iter()
        .map(|(name, data)| NetworkInterface {
            name: name.clone(),
            received_bytes: data.total_received(),
            transmitted_bytes: data.total_transmitted(),
            received_rate: data.received(),
            transmitted_rate: data.transmitted(),
        })
        .collect()
}

/// Aggregate an interface list: saturating totals and the number of
/// interfaces that have moved any data.
pub fn summarize_network(interfaces: Vec<NetworkInterface>) -> (r: NetworkInfo)
    ensures
        r.interfaces@ == interfaces@,
        network_info_wf(r),
{
    let mut total_received: u64 = 0;
    let mut total_transmitted: u64 = 0;
    let mut active: usize = 0;
    let mut i: usize = 0;
    while i < interfaces.len()
        invariant
            i <= interfaces@.len(),
            total_received as int == clamp_u64(recv_sum(interfaces@.take(i as int))),
            total_transmitted as int == clamp_u64(trans_sum(interfaces@.take(i as int))),
            active as int == active_count(interfaces@.take(i as int)),
            active <= i,
        decreases interfaces@.len() - i,
    {
        proof {
            assert(interfaces@.take(i + 1).drop_last() =~= interfaces@.take(i as int));
            assert(interfaces@.take(i + 1).last() == interfaces@[i as int]);
            lemma_net_sums_nonneg(interfaces@.take(i as int));
        }
        let f = &interfaces[i];
        if f.received_bytes > 0 || f.transmitted_bytes > 0 {
            active += 1;
        }
        total_received = sat_add_u64(total_received, f.received_bytes);
        total_transmitted = sat_add_u64(total_transmitted, f.transmitted_bytes);
        i += 1;
    }
    proof {
        assert(interfaces@.take(interfaces@.len() as int) =~= interfaces@);
    }
    NetworkInfo { interfaces, total_received, total_transmitted, active_interfaces: active }
}

/// Snapshot the network interfaces and aggregate them. Never fails; the
/// aggregates always agree with the returned interface list.
pub fn get_network_info_sync() -> (r: Result<NetworkInfo, String>)
    ensures
        r is Ok,
        network_info_wf(r->Ok_0),
{
    let interfaces = network_interfaces_snapshot();
    Ok(summarize_network(interfaces))
}

/// Coarse identity of the host, for a quick readout.
#[derive(Clone, Debug)]
pub struct SystemInfoBasic {
    pub os: String,
    pub os_version: String,
    pub architecture: String,
    pub cpu_count: u32,
}

/// Relies on `num_cpus::get`: the number of logical cores, documented to
/// be at least 1.
#[verifier::external_body]
fn logical_cpu_count() -> (r: usize)
    ensures
        r >= 1,
{
    num_cpus::get()
}

/// Snapshot the coarse host identity: OS name and version, architecture,
/// and the logical core count, which is always at least 1.
pub fn get_system_info_basic() -> (r: SystemInfoBasic)
    ensures
        r.cpu_count >= 1,
{
    let cpus = logical_cpu_count();
    let cpu_count: u32 = if cpus > u32::MAX as usize {
        u32::MAX
    } else {
        cpus as u32
    };
    SystemInfoBasic {
        os: get_os_version(),
        os_version: match sys_long_os_version() {
            Some(v) => v,
            None => "Unknown".to_owned(),
        },
        architecture: sys_cpu_arch(),
        cpu_count,
    }
}

} // verus!
