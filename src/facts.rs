use vstd::prelude::*;

use crate::registry::InfoField;
use crate::text::push_char;

verus! {

/// The decimal digit for `d`, which is below ten.
pub open spec fn digit_char(d: nat) -> char {
    ((48 + d) as u8) as char
}

/// The decimal representation of `n`, without leading zeros.
pub open spec fn decimal(n: nat) -> Seq<char>
    decreases n,
{
    if n < 10 {
        seq![digit_char(n)]
    } else {
        decimal(n / 10).push(digit_char(n % 10))
    }
}

/// Writes `n` in decimal.
pub fn decimal_string(n: u64) -> (r: String)
    ensures
        r@ == decimal(n as nat),
    decreases n,
{
    let d = ((48 + n % 10) as u8) as char;
    if n < 10 {
        let mut r = String::new();
        push_char(&mut r, d);
        r
    } else {
        let mut r = decimal_string(n / 10);
        push_char(&mut r, d);
        r
    }
}

/// "U MB / T MB" style text: used and total amounts with their unit.
pub open spec fn amount_pair(used: nat, total: nat, unit: Seq<char>) -> Seq<char> {
    decimal(used) + " "@ + unit + " / "@ + decimal(total) + " "@ + unit
}

fn amount_pair_string(used: u64, total: u64, unit: &str) -> (r: String)
    ensures
        r@ == amount_pair(used as nat, total as nat, unit@),
{
    let mut r = decimal_string(used);
    r.append(" ");
    r.append(unit);
    r.append(" / ");
    let t = decimal_string(total);
    r.append(t.as_str());
    r.append(" ");
    r.append(unit);
    r
}

/// Uptime as hours and minutes, with a leading day count when it is not zero.
pub open spec fn uptime_text(secs: nat) -> Seq<char> {
    let days = secs / 86400;
    let hours = (secs % 86400) / 3600;
    let mins = (secs % 3600) / 60;
    if days == 0 {
        decimal(hours) + "h "@ + decimal(mins) + "m"@
    } else {
        decimal(days) + "d "@ + decimal(hours) + "h "@ + decimal(mins) + "m"@
    }
}

/// Uptime in seconds as `Dd Hh Mm`, without the day count when it is zero.
pub fn format_uptime(secs: u64) -> (r: String)
    ensures
        r@ == uptime_text(secs as nat),
{
    let days = secs / 86400;
    let hours = (secs % 86400) / 3600;
    let mins = (secs % 3600) / 60;
    let mut r = if days == 0 {
        String::new()
    } else {
        let mut d = decimal_string(days);
        d.append("d ");
        d
    };
    let h = decimal_string(hours);
    r.append(h.as_str());
    r.append("h ");
    let m = decimal_string(mins);
    r.append(m.as_str());
    r.append("m");
    r
}

/// The view of an optional string.
pub open spec fn opt_view(o: Option<String>) -> Option<Seq<char>> {
    match o {
        Some(s) => Some(s@),
        None => None,
    }
}

/// A snapshot of the machine's facts, gathered once at start-up.
/// `gpu` and `public_ip` are filled only when a shown category asks for them.
pub struct SysData {
    pub os: Option<String>,
    pub kernel: Option<String>,
    pub arch: &'static str,
    pub host: Option<String>,
    pub cpu: Option<String>,
    pub gpu: Option<String>,
    pub memory_used_mb: u64,
    pub memory_total_mb: u64,
    pub swap_used_mb: u64,
    pub swap_total_mb: u64,
    pub disk_used_gb: u64,
    pub disk_total_gb: u64,
    pub uptime_secs: u64,
    pub shell: Option<String>,
    pub terminal: Option<String>,
    pub de: Option<String>,
    pub local_ip: Option<String>,
    pub public_ip: Option<String>,
}

fn clone_opt(o: &Option<String>) -> (r: Option<String>)
    ensures
        opt_view(r) == opt_view(*o),
{
    match o {
        Some(s) => Some(s.clone()),
        None => None,
    }
}

impl SysData {
    /// The text shown for a field, or nothing when the fact is unknown.
    pub open spec fn lookup(&self, field: InfoField) -> Option<Seq<char>> {
        match field {
            InfoField::Os => opt_view(self.os),
            InfoField::Kernel => opt_view(self.kernel),
            InfoField::Arch => Some(self.arch@),
            InfoField::Host => opt_view(self.host),
            InfoField::Cpu => opt_view(self.cpu),
            InfoField::Gpu => opt_view(self.gpu),
            InfoField::Memory => Some(
                amount_pair(self.memory_used_mb as nat, self.memory_total_mb as nat, "MB"@),
            ),
            InfoField::Swap => if self.swap_total_mb == 0 {
                Some("N/A"@)
            } else {
                Some(amount_pair(self.swap_used_mb as nat, self.swap_total_mb as nat, "MB"@))
            },
            InfoField::Disk => Some(
                amount_pair(self.disk_used_gb as nat, self.disk_total_gb as nat, "GB"@),
            ),
            InfoField::Uptime => Some(uptime_text(self.uptime_secs as nat)),
            InfoField::Shell => opt_view(self.shell),
            InfoField::Terminal => opt_view(self.terminal),
            InfoField::De => opt_view(self.de),
            InfoField::LocalIp => opt_view(self.local_ip),
            InfoField::PublicIp => opt_view(self.public_ip),
        }
    }

    /// The text shown for a field, or `None` when the fact is unknown.
    pub fn get(&self, field: InfoField) -> (r: Option<String>)
        ensures
            opt_view(r) == self.lookup(field),
    {
        match field {
            InfoField::Os => clone_opt(&self.os),
            InfoField::Kernel => clone_opt(&self.kernel),
            InfoField::Arch => Some(String::from_str(self.arch)),
            InfoField::Host => clone_opt(&self.host),
            InfoField::Cpu => clone_opt(&self.cpu),
            InfoField::Gpu => clone_opt(&self.gpu),
            InfoField::Memory => Some(
                amount_pair_string(self.memory_used_mb, self.memory_total_mb, "MB"),
            ),
            InfoField::Swap => {
                if self.swap_total_mb == 0 {
                    Some(String::from_str("N/A"))
                } else {
                    Some(amount_pair_string(self.swap_used_mb, self.swap_total_mb, "MB"))
                }
            },
            InfoField::Disk => Some(amount_pair_string(self.disk_used_gb, self.disk_total_gb, "GB")),
            InfoField::Uptime => Some(format_uptime(self.uptime_secs)),
            InfoField::Shell => clone_opt(&self.shell),
            InfoField::Terminal => clone_opt(&self.terminal),
            InfoField::De => clone_opt(&self.de),
            InfoField::LocalIp => clone_opt(&self.local_ip),
            InfoField::PublicIp => clone_opt(&self.public_ip),
        }
    }
}

/// With no swap configured, the swap row reads "N/A" rather than "0 MB / 0 MB".
pub proof fn lemma_no_swap_reads_na(data: SysData)
    requires
        data.swap_total_mb == 0,
    ensures
        data.lookup(InfoField::Swap) == Some("N/A"@),
        data.lookup(InfoField::Swap) != Some(amount_pair(0, 0, "MB"@)),
{
    reveal_strlit("N/A");
    reveal_strlit(" ");
    reveal_strlit(" / ");
    reveal_strlit("MB");
    assert(amount_pair(0, 0, "MB"@).len() > 3);
}

} // verus!
