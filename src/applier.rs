use vstd::prelude::*;
use crate::port::{delta, extends, fault_text, Fault, GpuPort, Session};
use crate::settings::{
    lemma_half_range_refused, lemma_single_setting_single_write, lemma_valid_plan_nonempty, plan_of, populated_count,
    spec_check, write_matches, Sets, SpecError, Write,
};
use crate::text::{decimal, push_decimal};

verus! {

/// Why applying a `Sets` to a device stopped.
#[derive(Clone, Debug)]
pub enum ApplyError {
    /// The bundle was refused before any device call.
    Invalid(SpecError),
    /// The device refused a write.
    Rejected { write: Write, fault: Fault },
    /// The device refused the power limit as out of range; `range` holds the
    /// supported bounds in milliwatts when they could be queried.
    PowerOutOfRange { requested: u32, range: Option<(u32, u32)> },
    /// Setting the target temperature failed; `range` holds the acoustic
    /// bounds in Celsius when both could be queried.
    TargetTemp { requested: u32, fault: Fault, range: Option<(u32, u32)> },
}

/// The writes `ws`, each addressed to the device `index`.
pub open spec fn tagged(index: u32, ws: Seq<Write>) -> Seq<(u32, Write)> {
    ws.map_values(|w: Write| (index, w))
}

/// The error for a refused write `w` that failed with `f`, given the power
/// limit range and the acoustic bounds as queried. Only an out-of-range
/// power limit is reported with its range, and only when that query worked;
/// a target temperature failure carries the acoustic range when both bounds
/// were obtained.
pub open spec fn spec_enriched(
    w: Write,
    f: Fault,
    power_range: Option<(u32, u32)>,
    acoustic: (Option<u32>, Option<u32>),
) -> ApplyError {
    match w {
        Write::PowerLimit(v) => match f {
            Fault::InvalidArgument => ApplyError::PowerOutOfRange { requested: v, range: power_range },
            _ => ApplyError::Rejected { write: w, fault: f },
        },
        Write::TargetTemp(v) => ApplyError::TargetTemp {
            requested: v,
            fault: f,
            range: match acoustic {
                (Some(a), Some(b)) => Some((a, b)),
                _ => None,
            },
        },
        _ => ApplyError::Rejected { write: w, fault: f },
    }
}

/// Builds the error for a refused write from the fault and the queried
/// bounds.
pub fn enriched(
    w: Write,
    f: Fault,
    power_range: Option<(u32, u32)>,
    acoustic: (Option<u32>, Option<u32>),
) -> (r: ApplyError)
    ensures
        r == spec_enriched(w, f, power_range, acoustic),
{
    match w {
        Write::PowerLimit(v) => match f {
            Fault::InvalidArgument => ApplyError::PowerOutOfRange { requested: v, range: power_range },
            other => ApplyError::Rejected { write: w, fault: other },
        },
        Write::TargetTemp(v) => {
            let range = match acoustic {
                (Some(a), Some(b)) => Some((a, b)),
                _ => None,
            };
            ApplyError::TargetTemp { requested: v, fault: f, range }
        },
        _ => ApplyError::Rejected { write: w, fault: f },
    }
}


/// The power limit range that the recorded queries `d` obtained.
pub open spec fn queried_power(d: Seq<(u32, Result<(u32, u32), Fault>)>) -> Option<(u32, u32)> {
    if d.len() == 1 && d[0].1 is Ok {
        Some(d[0].1->Ok_0)
    } else {
        None
    }
}

/// The acoustic bounds that the recorded queries `d` obtained.
pub open spec fn queried_acoustic(d: Seq<(u32, (Option<u32>, Option<u32>))>) -> (
    Option<u32>,
    Option<u32>,
) {
    if d.len() == 1 {
        d[0].1
    } else {
        (None, None)
    }
}

/// `e` is the error for the write `w` to device `index` refused with `f`,
/// where `dpow` and `dac` are the range queries made for it: the power limit
/// range is queried once exactly when an out-of-range power limit is
/// reported, the acoustic range once exactly for a target temperature, both
/// of that device, and `e` carries what they answered.
pub open spec fn error_from(
    w: Write,
    f: Fault,
    index: u32,
    dpow: Seq<(u32, Result<(u32, u32), Fault>)>,
    dac: Seq<(u32, (Option<u32>, Option<u32>))>,
    e: ApplyError,
) -> bool {
    &&& dpow.len() == (if w is PowerLimit && f is InvalidArgument { 1int } else { 0int })
    &&& dac.len() == (if w is TargetTemp { 1int } else { 0int })
    &&& dpow.len() == 1 ==> dpow[0].0 == index
    &&& dac.len() == 1 ==> dac[0].0 == index
    &&& e == spec_enriched(w, f, queried_power(dpow), queried_acoustic(dac))
}

/// Applying `s` to device `index` issued the writes `dlog`, got the answers
/// `dans`, made the range queries `dpow` and `dac`, and ended in `r`.
///
/// An invalid bundle is refused with no device call. Otherwise the writes are
/// a nonempty prefix of the plan, each answered; every answer but the last
/// was an acceptance; the result is `Ok` exactly when the whole plan was
/// issued and the last write accepted too; on failure the last write was
/// refused and the error is built from that fault and the queried ranges.
pub open spec fn apply_effect(
    index: u32,
    s: Sets,
    dlog: Seq<(u32, Write)>,
    dans: Seq<Result<(), Fault>>,
    dpow: Seq<(u32, Result<(u32, u32), Fault>)>,
    dac: Seq<(u32, (Option<u32>, Option<u32>))>,
    r: Result<(), ApplyError>,
) -> bool {
    if spec_check(s) is Err {
        &&& r == Err::<(), ApplyError>(ApplyError::Invalid(spec_check(s)->Err_0))
        &&& dlog.len() == 0 && dans.len() == 0 && dpow.len() == 0 && dac.len() == 0
    } else {
        let plan = plan_of(s);
        let n = dlog.len() as int;
        &&& 1 <= n <= plan.len()
        &&& dlog == tagged(index, plan.take(n))
        &&& dans.len() == n
        &&& forall|j: int| 0 <= j < n - 1 ==> (#[trigger] dans[j]) is Ok
        &&& r is Ok <==> (n == plan.len() && dans[n - 1] is Ok)
        &&& r is Ok ==> dpow.len() == 0 && dac.len() == 0
        &&& r is Err ==> dans[n - 1] is Err && error_from(
            plan[n - 1],
            dans[n - 1]->Err_0,
            index,
            dpow,
            dac,
            r->Err_0,
        )
    }
}

/// The session went from `s0` to `s1` by applying `s` to device `index`
/// with result `r`: its records grew by what `apply_effect` describes, and no
/// device was probed.
pub open spec fn applied<P: GpuPort>(
    s0: Session<P>,
    s1: Session<P>,
    index: u32,
    s: Sets,
    r: Result<(), ApplyError>,
) -> bool {
    &&& extends(s0.issued(), s1.issued())
    &&& extends(s0.answers(), s1.answers())
    &&& extends(s0.power_queries(), s1.power_queries())
    &&& extends(s0.acoustic_queries(), s1.acoustic_queries())
    &&& s1.probes() == s0.probes()
    &&& apply_effect(
        index,
        s,
        delta(s0.issued(), s1.issued()),
        delta(s0.answers(), s1.answers()),
        delta(s0.power_queries(), s1.power_queries()),
        delta(s0.acoustic_queries(), s1.acoustic_queries()),
        r,
    )
}

/// Appending `x` to `a` extends it by exactly `x`.
pub proof fn lemma_extends_by<T>(a: Seq<T>, x: Seq<T>)
    ensures
        extends(a, a + x),
        delta(a, a + x) == x,
{
    assert((a + x).subrange(a.len() as int, (a + x).len() as int) =~= x);
}

fn enrich<P: GpuPort>(port: &mut Session<P>, index: u32, w: Write, f: Fault) -> (r: ApplyError)
    ensures
        final(port).issued() == old(port).issued(),
        final(port).answers() == old(port).answers(),
        final(port).probes() == old(port).probes(),
        extends(old(port).power_queries(), final(port).power_queries()),
        extends(old(port).acoustic_queries(), final(port).acoustic_queries()),
        error_from(
            w,
            f,
            index,
            delta(old(port).power_queries(), final(port).power_queries()),
            delta(old(port).acoustic_queries(), final(port).acoustic_queries()),
            r,
        ),
{
    let ghost p0 = port.power_queries();
    let ghost a0 = port.acoustic_queries();
    let wants_power = match (w, &f) {
        (Write::PowerLimit(_), Fault::InvalidArgument) => true,
        _ => false,
    };
    let power_range = if wants_power {
        match port.power_limit_range(index) {
            Ok(rg) => Some(rg),
            Err(_) => None,
        }
    } else {
        None
    };
    let acoustic = match w {
        Write::TargetTemp(_) => port.acoustic_range(index),
        _ => (None, None),
    };
    proof {
        lemma_extends_by(p0, delta(p0, port.power_queries()));
        lemma_extends_by(a0, delta(a0, port.acoustic_queries()));
        assert(p0 + delta(p0, port.power_queries()) =~= port.power_queries());
        assert(a0 + delta(a0, port.acoustic_queries()) =~= port.acoustic_queries());
    }
    let ghost fg = f;
    let r = enriched(w, f, power_range, acoustic);
    assert(r == spec_enriched(w, fg, power_range, acoustic));
    r
}

/// Applies `spec` to the device `index`: validates it first, then issues its
/// writes in the fixed order and stops at the first one refused, querying
/// the bounds that the error reports.
pub fn apply<P: GpuPort>(port: &mut Session<P>, index: u32, spec: &Sets) -> (r: Result<
    (),
    ApplyError,
>)
    ensures
        applied(*old(port), *final(port), index, *spec, r),
{
    let ghost s0 = *port;
    proof {
        lemma_extends_by(s0.issued(), Seq::empty());
        lemma_extends_by(s0.answers(), Seq::empty());
        lemma_extends_by(s0.power_queries(), Seq::empty());
        lemma_extends_by(s0.acoustic_queries(), Seq::empty());
        assert(s0.issued() + Seq::<(u32, Write)>::empty() =~= s0.issued());
        assert(s0.answers() + Seq::<Result<(), Fault>>::empty() =~= s0.answers());
        assert(s0.power_queries() + Seq::<(u32, Result<(u32, u32), Fault>)>::empty()
            =~= s0.power_queries());
        assert(s0.acoustic_queries() + Seq::<(u32, (Option<u32>, Option<u32>))>::empty()
            =~= s0.acoustic_queries());
    }
    match spec.check() {
        Err(e) => {
            return Err(ApplyError::Invalid(e));
        },
        Ok(()) => {},
    }
    let ws = spec.writes();
    proof {
        lemma_valid_plan_nonempty(*spec);
    }
    let ghost mut acc: Seq<Result<(), Fault>> = Seq::empty();
    let mut i: usize = 0;
    while i < ws.len()
        invariant
            i <= ws@.len(),
            ws@ == plan_of(*spec),
            ws@.len() >= 1,
            spec_check(*spec) is Ok,
            s0 == *old(port),
            port.issued() == s0.issued() + tagged(index, ws@.take(i as int)),
            port.answers() == s0.answers() + acc,
            acc.len() == i,
            forall|j: int| 0 <= j < i ==> (#[trigger] acc[j]) is Ok,
            port.probes() == s0.probes(),
            port.power_queries() == s0.power_queries(),
            port.acoustic_queries() == s0.acoustic_queries(),
        decreases ws@.len() - i,
    {
        let w = ws[i];
        let res = port.write(index, w);
        proof {
            assert(tagged(index, ws@.take(i + 1)) =~= tagged(index, ws@.take(i as int)).push(
                (index, w),
            ));
            assert(s0.answers() + acc.push(res) =~= (s0.answers() + acc).push(res));
            acc = acc.push(res);
        }
        i = i + 1;
        match res {
            Err(f) => {
                let ghost fg = f;
                let ghost mid = *port;
                let e = enrich(port, index, w, f);
                proof {
                    lemma_extends_by(s0.issued(), tagged(index, ws@.take(i as int)));
                    lemma_extends_by(s0.answers(), acc);
                    lemma_extends_by(s0.power_queries(), delta(mid.power_queries(), port.power_queries()));
                    lemma_extends_by(s0.acoustic_queries(), delta(mid.acoustic_queries(), port.acoustic_queries()));
                    assert(s0.power_queries() + delta(mid.power_queries(), port.power_queries())
                        =~= port.power_queries());
                    assert(s0.acoustic_queries() + delta(mid.acoustic_queries(), port.acoustic_queries())
                        =~= port.acoustic_queries());
                    assert(acc[i - 1] == Err::<(), Fault>(fg));
                    assert(ws@[i - 1] == w);
                }
                return Err(e);
            },
            Ok(()) => {},
        }
    }
    proof {
        lemma_extends_by(s0.issued(), tagged(index, ws@.take(i as int)));
        lemma_extends_by(s0.answers(), acc);
    }
    Ok(())
}

/// Applying a valid bundle that populates exactly one setting issues exactly
/// one write call, to the addressed device and for that setting only,
/// whether or not the device accepts it.
pub proof fn lemma_single_setting_applied_once(
    s: Sets,
    index: u32,
    dlog: Seq<(u32, Write)>,
    dans: Seq<Result<(), Fault>>,
    dpow: Seq<(u32, Result<(u32, u32), Fault>)>,
    dac: Seq<(u32, (Option<u32>, Option<u32>))>,
    r: Result<(), ApplyError>,
)
    requires
        spec_check(s) is Ok,
        populated_count(s) == 1,
        apply_effect(index, s, dlog, dans, dpow, dac, r),
    ensures
        dlog.len() == 1,
        dlog[0].0 == index,
        write_matches(s, dlog[0].1),
{
    lemma_single_setting_single_write(s);
    assert(dlog[0] == tagged(index, plan_of(s).take(1))[0]);
}

/// When the device accepts every write, applying a valid bundle returns `Ok`
/// after issuing its whole plan, in order, with no range query.
pub proof fn lemma_all_accepted_is_ok(
    s: Sets,
    index: u32,
    dlog: Seq<(u32, Write)>,
    dans: Seq<Result<(), Fault>>,
    dpow: Seq<(u32, Result<(u32, u32), Fault>)>,
    dac: Seq<(u32, (Option<u32>, Option<u32>))>,
    r: Result<(), ApplyError>,
)
    requires
        spec_check(s) is Ok,
        forall|j: int| 0 <= j < dans.len() ==> (#[trigger] dans[j]) is Ok,
        apply_effect(index, s, dlog, dans, dpow, dac, r),
    ensures
        r is Ok,
        dlog == tagged(index, plan_of(s)),
        dpow.len() == 0 && dac.len() == 0,
{
    let n = dlog.len() as int;
    assert(dans[n - 1] is Ok);
    assert(plan_of(s).take(plan_of(s).len() as int) =~= plan_of(s));
}

/// When the device refuses a power limit as an invalid argument, the error is
/// an out-of-range error for that limit, carrying the range that the device
/// then reported for itself (none when that query failed).
pub proof fn lemma_power_refusal_reports_range(
    s: Sets,
    index: u32,
    dlog: Seq<(u32, Write)>,
    dans: Seq<Result<(), Fault>>,
    dpow: Seq<(u32, Result<(u32, u32), Fault>)>,
    dac: Seq<(u32, (Option<u32>, Option<u32>))>,
    r: Result<(), ApplyError>,
    v: u32,
)
    requires
        spec_check(s) is Ok,
        apply_effect(index, s, dlog, dans, dpow, dac, r),
        dlog.last() == (index, Write::PowerLimit(v)),
        dans.last() == Err::<(), Fault>(Fault::InvalidArgument),
    ensures
        dpow.len() == 1,
        dpow[0].0 == index,
        r == Err::<(), ApplyError>(
            ApplyError::PowerOutOfRange {
                requested: v,
                range: match dpow[0].1 {
                    Ok(rg) => Some(rg),
                    Err(_) => None,
                },
            },
        ),
{
    let n = dlog.len() as int;
    assert(dlog[n - 1] == tagged(index, plan_of(s).take(n))[n - 1]);
    assert(plan_of(s)[n - 1] == Write::PowerLimit(v));
}

/// A bundle with one bound of a locked clock range but not the other is
/// refused by `apply` before any call reaches the device.
pub proof fn lemma_half_range_no_write(
    s: Sets,
    index: u32,
    dlog: Seq<(u32, Write)>,
    dans: Seq<Result<(), Fault>>,
    dpow: Seq<(u32, Result<(u32, u32), Fault>)>,
    dac: Seq<(u32, (Option<u32>, Option<u32>))>,
    r: Result<(), ApplyError>,
)
    requires
        (s.min_clock is Some) != (s.max_clock is Some)
            || (s.min_mem_clock is Some) != (s.max_mem_clock is Some),
        apply_effect(index, s, dlog, dans, dpow, dac, r),
    ensures
        dlog.len() == 0 && dans.len() == 0 && dpow.len() == 0 && dac.len() == 0,
        r is Err && r->Err_0 is Invalid,
{
    lemma_half_range_refused(s);
}

/// The lead of the message for a refused write.
pub open spec fn write_label(w: Write) -> Seq<char> {
    match w {
        Write::CoreOffset(_) => "Failed to set GPU frequency offset"@,
        Write::MemOffset(_) => "Failed to set GPU memory frequency offset"@,
        Write::PowerLimit(_) => "Failed to set GPU power limit"@,
        Write::CoreClocks(_, _) => "Failed to set GPU min and max clocks"@,
        Write::MemClocks(_, _) => "Failed to set GPU min and max memory clocks"@,
        Write::TargetTemp(_) => "Failed to set target temperature"@,
    }
}

/// The message for a refused bundle.
pub open spec fn spec_error_text(e: SpecError) -> Seq<char> {
    match e {
        SpecError::Empty => "No setting was requested"@,
        SpecError::UnpairedCoreClock => "The min and max clocks must be given together"@,
        SpecError::UnpairedMemClock => "The min and max memory clocks must be given together"@,
    }
}

/// The power limit range part of a message, in milliwatts and watts.
pub open spec fn power_range_text(range: Option<(u32, u32)>) -> Seq<char> {
    match range {
        Some((lo, hi)) => " Valid range: "@ + decimal(lo as nat) + "-"@ + decimal(hi as nat)
            + " mW ("@ + decimal(lo as nat / 1000) + "-"@ + decimal(hi as nat / 1000) + " W)"@,
        None => Seq::empty(),
    }
}

/// The acoustic range part of a message, in Celsius.
pub open spec fn temp_range_text(range: Option<(u32, u32)>) -> Seq<char> {
    match range {
        Some((lo, hi)) => " Valid range: "@ + decimal(lo as nat) + "°C - "@ + decimal(hi as nat)
            + "°C"@,
        None => Seq::empty(),
    }
}

/// The message that describes an error.
pub open spec fn message_of(e: ApplyError) -> Seq<char> {
    match e {
        ApplyError::Invalid(s) => spec_error_text(s),
        ApplyError::Rejected { write, fault } => write_label(write) + ": "@ + fault_text(fault),
        ApplyError::PowerOutOfRange { requested, range } => "Failed to set GPU power limit: "@
            + decimal(requested as nat) + " mW is out of range."@ + power_range_text(range),
        ApplyError::TargetTemp { requested, fault, range } => "Failed to set target temperature: "@
            + decimal(requested as nat) + "°C - "@ + fault_text(fault) + temp_range_text(range),
    }
}

fn label(w: Write) -> (r: String)
    ensures
        r@ == write_label(w),
{
    match w {
        Write::CoreOffset(_) => String::from_str("Failed to set GPU frequency offset"),
        Write::MemOffset(_) => String::from_str("Failed to set GPU memory frequency offset"),
        Write::PowerLimit(_) => String::from_str("Failed to set GPU power limit"),
        Write::CoreClocks(_, _) => String::from_str("Failed to set GPU min and max clocks"),
        Write::MemClocks(_, _) => String::from_str("Failed to set GPU min and max memory clocks"),
        Write::TargetTemp(_) => String::from_str("Failed to set target temperature"),
    }
}

impl SpecError {
    /// The message that describes this refusal.
    pub fn message(&self) -> (r: String)
        ensures
            r@ == spec_error_text(*self),
    {
        match self {
            SpecError::Empty => String::from_str("No setting was requested"),
            SpecError::UnpairedCoreClock => String::from_str(
                "The min and max clocks must be given together",
            ),
            SpecError::UnpairedMemClock => String::from_str(
                "The min and max memory clocks must be given together",
            ),
        }
    }
}

fn push_power_range(s: &mut String, range: Option<(u32, u32)>)
    ensures
        final(s)@ == old(s)@ + power_range_text(range),
{
    if let Some((lo, hi)) = range {
        s.append(" Valid range: ");
        push_decimal(s, lo as u64);
        s.append("-");
        push_decimal(s, hi as u64);
        s.append(" mW (");
        push_decimal(s, (lo / 1000) as u64);
        s.append("-");
        push_decimal(s, (hi / 1000) as u64);
        s.append(" W)");
    }
    assert(final(s)@ =~= old(s)@ + power_range_text(range));
}

fn push_temp_range(s: &mut String, range: Option<(u32, u32)>)
    ensures
        final(s)@ == old(s)@ + temp_range_text(range),
{
    if let Some((lo, hi)) = range {
        s.append(" Valid range: ");
        push_decimal(s, lo as u64);
        s.append("°C - ");
        push_decimal(s, hi as u64);
        s.append("°C");
    }
    assert(final(s)@ =~= old(s)@ + temp_range_text(range));
}

impl ApplyError {
    /// The message that describes this error, with the queried bounds where
    /// they were obtained.
    pub fn message(&self) -> (r: String)
        ensures
            r@ == message_of(*self),
    {
        match self {
            ApplyError::Invalid(e) => e.message(),
            ApplyError::Rejected { write, fault } => {
                let mut s = label(*write);
                s.append(": ");
                let t = fault.text();
                s.append(t.as_str());
                s
            },
            ApplyError::PowerOutOfRange { requested, range } => {
                let mut s = String::from_str("Failed to set GPU power limit: ");
                push_decimal(&mut s, *requested as u64);
                s.append(" mW is out of range.");
                push_power_range(&mut s, *range);
                s
            },
            ApplyError::TargetTemp { requested, fault, range } => {
                let mut s = String::from_str("Failed to set target temperature: ");
                push_decimal(&mut s, *requested as u64);
                s.append("°C - ");
                let t = fault.text();
                s.append(t.as_str());
                push_temp_range(&mut s, *range);
                s
            },
        }
    }
}

} // verus!
