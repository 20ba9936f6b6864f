use vstd::prelude::*;
use crate::port::{fault_text, Fault, GpuPort, Reading, Session};
use crate::text::{decimal, push_decimal, push_signed, signed_decimal};

verus! {

/// One line of a device report: a value, or a failure confined to that one
/// attribute.
#[derive(Clone, Debug)]
pub struct ReportLine {
    /// Whether the attribute was obtained.
    pub ok: bool,
    pub text: String,
}

pub open spec fn offset_line(what: Seq<char>, q: Result<i32, Fault>) -> (bool, Seq<char>) {
    match q {
        Ok(v) => (true, what + ": "@ + signed_decimal(v as int) + " MHz"@),
        Err(f) => (false, "Failed to get "@ + what + ": "@ + fault_text(f)),
    }
}

pub open spec fn power_line(q: Result<u32, Fault>) -> (bool, Seq<char>) {
    match q {
        Ok(v) => (true, "GPU power limit: "@ + decimal(v as nat / 1000) + " W"@),
        Err(f) => (false, "Failed to get GPU power limit"@ + ": "@ + fault_text(f)),
    }
}

pub open spec fn power_range_line(q: Result<(u32, u32), Fault>) -> (bool, Seq<char>) {
    match q {
        Ok((lo, hi)) => (
            true,
            "GPU power limit range: "@ + decimal(lo as nat / 1000) + "-"@ + decimal(
                hi as nat / 1000,
            ) + " W"@,
        ),
        Err(f) => (false, "Failed to get GPU power limit constraints"@ + ": "@ + fault_text(f)),
    }
}

pub open spec fn target_line(q: Option<u32>) -> (bool, Seq<char>) {
    match q {
        Some(t) => (true, "Target temperature (acoustic): "@ + decimal(t as nat) + "°C"@),
        None => (false, "Failed to get target temperature (not supported or not set)"@),
    }
}

pub open spec fn target_range_line(q: (Option<u32>, Option<u32>)) -> (bool, Seq<char>) {
    match q {
        (Some(lo), Some(hi)) => (
            true,
            "Target temperature range: "@ + decimal(lo as nat) + "°C - "@ + decimal(hi as nat)
                + "°C"@,
        ),
        _ => (false, "Failed to get target temperature range (not supported)"@),
    }
}

/// `l` is the line that the pair `(ok, text)` describes.
pub open spec fn line_is(l: ReportLine, want: (bool, Seq<char>)) -> bool {
    l.ok == want.0 && l.text@ == want.1
}

/// `r` holds the six lines for these query results, in order: core offset,
/// memory offset, enforced power limit, power limit range, acoustic target,
/// acoustic range.
pub open spec fn lines_for(
    r: Seq<ReportLine>,
    core: Result<i32, Fault>,
    mem: Result<i32, Fault>,
    power: Result<u32, Fault>,
    range: Result<(u32, u32), Fault>,
    target: Option<u32>,
    target_range: (Option<u32>, Option<u32>),
) -> bool {
    &&& r.len() == 6
    &&& line_is(r[0], offset_line("GPU core clock offset"@, core))
    &&& line_is(r[1], offset_line("GPU memory clock offset"@, mem))
    &&& line_is(r[2], power_line(power))
    &&& line_is(r[3], power_range_line(range))
    &&& line_is(r[4], target_line(target))
    &&& line_is(r[5], target_range_line(target_range))
}

fn fault_suffix(s: &mut String, f: &Fault)
    ensures
        final(s)@ == old(s)@ + ": "@ + fault_text(*f),
{
    s.append(": ");
    let t = f.text();
    s.append(t.as_str());
}

fn offset_report(what: &str, q: Result<i32, Fault>) -> (r: ReportLine)
    ensures
        line_is(r, offset_line(what@, q)),
{
    match q {
        Ok(v) => {
            let mut s = String::from_str(what);
            s.append(": ");
            push_signed(&mut s, v);
            s.append(" MHz");
            assert(s@ =~= offset_line(what@, q).1);
            ReportLine { ok: true, text: s }
        },
        Err(f) => {
            let mut s = String::from_str("Failed to get ");
            s.append(what);
            fault_suffix(&mut s, &f);
            assert(s@ =~= offset_line(what@, q).1);
            ReportLine { ok: false, text: s }
        },
    }
}

fn power_report(q: Result<u32, Fault>) -> (r: ReportLine)
    ensures
        line_is(r, power_line(q)),
{
    match q {
        Ok(v) => {
            let mut s = String::from_str("GPU power limit: ");
            push_decimal(&mut s, (v / 1000) as u64);
            s.append(" W");
            ReportLine { ok: true, text: s }
        },
        Err(f) => {
            let mut s = String::from_str("Failed to get GPU power limit");
            fault_suffix(&mut s, &f);
            assert(s@ =~= power_line(q).1);
            ReportLine { ok: false, text: s }
        },
    }
}

fn power_range_report(q: Result<(u32, u32), Fault>) -> (r: ReportLine)
    ensures
        line_is(r, power_range_line(q)),
{
    match q {
        Ok((lo, hi)) => {
            let mut s = String::from_str("GPU power limit range: ");
            push_decimal(&mut s, (lo / 1000) as u64);
            s.append("-");
            push_decimal(&mut s, (hi / 1000) as u64);
            s.append(" W");
            ReportLine { ok: true, text: s }
        },
        Err(f) => {
            let mut s = String::from_str("Failed to get GPU power limit constraints");
            fault_suffix(&mut s, &f);
            assert(s@ =~= power_range_line(q).1);
            ReportLine { ok: false, text: s }
        },
    }
}

fn target_report(q: Option<u32>) -> (r: ReportLine)
    ensures
        line_is(r, target_line(q)),
{
    match q {
        Some(t) => {
            let mut s = String::from_str("Target temperature (acoustic): ");
            push_decimal(&mut s, t as u64);
            s.append("°C");
            ReportLine { ok: true, text: s }
        },
        None => ReportLine {
            ok: false,
            text: String::from_str("Failed to get target temperature (not supported or not set)"),
        },
    }
}

fn target_range_report(q: (Option<u32>, Option<u32>)) -> (r: ReportLine)
    ensures
        line_is(r, target_range_line(q)),
{
    match q {
        (Some(lo), Some(hi)) => {
            let mut s = String::from_str("Target temperature range: ");
            push_decimal(&mut s, lo as u64);
            s.append("°C - ");
            push_decimal(&mut s, hi as u64);
            s.append("°C");
            ReportLine { ok: true, text: s }
        },
        _ => ReportLine {
            ok: false,
            text: String::from_str("Failed to get target temperature range (not supported)"),
        },
    }
}

/// The report lines for the results of the six queries, in order: core
/// offset, memory offset, enforced power limit, power limit range, acoustic
/// target, acoustic range. Each line depends on its own query alone.
pub fn report_lines(
    core: Result<i32, Fault>,
    mem: Result<i32, Fault>,
    power: Result<u32, Fault>,
    range: Result<(u32, u32), Fault>,
    target: Option<u32>,
    target_range: (Option<u32>, Option<u32>),
) -> (r: Vec<ReportLine>)
    ensures
        lines_for(r@, core, mem, power, range, target, target_range),
{
    let mut v: Vec<ReportLine> = Vec::new();
    v.push(offset_report("GPU core clock offset", core));
    v.push(offset_report("GPU memory clock offset", mem));
    v.push(power_report(power));
    v.push(power_range_report(range));
    v.push(target_report(target));
    v.push(target_range_report(target_range));
    v
}

/// Queries every displayable attribute of device `index` through the
/// session and reports each on its own line; a failed query yields a
/// failure line for that attribute and the others are still queried. Each
/// line is the one for the answer recorded for its query.
pub fn report<P: GpuPort>(port: &mut Session<P>, index: u32) -> (r: Vec<ReportLine>)
    ensures
        exists|
            core: Result<i32, Fault>,
            mem: Result<i32, Fault>,
            power: Result<u32, Fault>,
            range: Result<(u32, u32), Fault>,
            target: Option<u32>,
            target_range: (Option<u32>, Option<u32>),
        |
            #[trigger] lines_for(r@, core, mem, power, range, target, target_range)
                && final(port).reads() == old(port).reads() + seq![
                Reading::CoreOffset(index, core),
                Reading::MemOffset(index, mem),
                Reading::EnforcedPowerLimit(index, power),
                Reading::AcousticTarget(index, target),
            ] && final(port).power_queries() == old(port).power_queries().push((index, range))
                && final(port).acoustic_queries() == old(port).acoustic_queries().push(
                (index, target_range),
            ),
        final(port).issued() == old(port).issued(),
        final(port).answers() == old(port).answers(),
        final(port).probes() == old(port).probes(),
{
    let ghost r0 = port.reads();
    let core = port.core_offset(index);
    let mem = port.mem_offset(index);
    let power = port.enforced_power_limit(index);
    let range = port.power_limit_range(index);
    let target = port.acoustic_target(index);
    let target_range = port.acoustic_range(index);
    let r = report_lines(core, mem, power, range, target, target_range);
    assert(port.reads() =~= r0 + seq![
        Reading::CoreOffset(index, core),
        Reading::MemOffset(index, mem),
        Reading::EnforcedPowerLimit(index, power),
        Reading::AcousticTarget(index, target),
    ]);
    assert(lines_for(r@, core, mem, power, range, target, target_range));
    r
}

/// A failed power limit query yields a failure line for the power limit
/// only, while succeeding offset queries still yield their values.
pub proof fn lemma_power_failure_isolated(
    lines: Seq<ReportLine>,
    core: i32,
    mem: i32,
    power: Fault,
    range: Result<(u32, u32), Fault>,
    target: Option<u32>,
    target_range: (Option<u32>, Option<u32>),
)
    requires
        lines_for(lines, Ok(core), Ok(mem), Err(power), range, target, target_range),
    ensures
        lines[0].ok && lines[1].ok && !lines[2].ok,
        lines.len() == 6,
{
}

} // verus!
