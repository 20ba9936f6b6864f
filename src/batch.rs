use vstd::prelude::*;
use crate::applier::{applied, apply, apply_effect, lemma_extends_by, tagged, ApplyError};
use crate::port::{delta, extends, Fault, GpuPort, Session};
use crate::settings::{plan_of, spec_check, Sets, Write};

verus! {

/// Why a batch stopped.
#[derive(Clone, Debug)]
pub enum BatchError {
    /// No device has this index.
    NotFound(u32),
    /// Applying the bundle of the device with this index failed.
    Failed { index: u32, error: ApplyError },
}

/// The writes that applying every entry in order issues when all succeed.
pub open spec fn batch_plan(entries: Seq<(u32, Sets)>) -> Seq<(u32, Write)>
    decreases entries.len(),
{
    if entries.len() == 0 {
        Seq::empty()
    } else {
        batch_plan(entries.drop_last()) + tagged(
            entries.last().0,
            plan_of(entries.last().1),
        )
    }
}

/// One successful probe for each entry, in order.
pub open spec fn found_all(entries: Seq<(u32, Sets)>) -> Seq<(u32, bool)> {
    entries.map_values(|e: (u32, Sets)| (e.0, true))
}

/// Every answer is an acceptance.
pub open spec fn all_ok(a: Seq<Result<(), Fault>>) -> bool {
    forall|j: int| 0 <= j < a.len() ==> (#[trigger] a[j]) is Ok
}

/// The session went from `s0` to `s1` by applying every entry of `entries`
/// in order: each bundle was valid, each device was found, and each write of
/// each plan was issued and accepted, with no range query.
pub open spec fn batch_done<P: GpuPort>(s0: Session<P>, s1: Session<P>, entries: Seq<(u32, Sets)>) -> bool {
    &&& forall|k: int| 0 <= k < entries.len() ==> spec_check((#[trigger] entries[k]).1) is Ok
    &&& s1.issued() == s0.issued() + batch_plan(entries)
    &&& extends(s0.answers(), s1.answers())
    &&& delta(s0.answers(), s1.answers()).len() == batch_plan(entries).len()
    &&& all_ok(delta(s0.answers(), s1.answers()))
    &&& s1.probes() == s0.probes() + found_all(entries)
    &&& s1.power_queries() == s0.power_queries()
    &&& s1.acoustic_queries() == s0.acoustic_queries()
}

/// The batch stopped with `err` at `entry`, the session having gone from
/// `mid` (all earlier entries applied) to `s1`: either the probe of its
/// device answered not found and nothing else happened, or the probe found it
/// and applying its bundle failed with the recorded effect.
pub open spec fn stopped_at<P: GpuPort>(
    mid: Session<P>,
    s1: Session<P>,
    entry: (u32, Sets),
    err: BatchError,
) -> bool {
    match err {
        BatchError::NotFound(i) => {
            &&& i == entry.0
            &&& s1.probes() == mid.probes().push((i, false))
            &&& s1.issued() == mid.issued()
            &&& s1.answers() == mid.answers()
            &&& s1.power_queries() == mid.power_queries()
            &&& s1.acoustic_queries() == mid.acoustic_queries()
        },
        BatchError::Failed { index, error } => {
            &&& index == entry.0
            &&& s1.probes() == mid.probes().push((index, true))
            &&& extends(mid.issued(), s1.issued())
            &&& extends(mid.answers(), s1.answers())
            &&& extends(mid.power_queries(), s1.power_queries())
            &&& extends(mid.acoustic_queries(), s1.acoustic_queries())
            &&& apply_effect(
                index,
                entry.1,
                delta(mid.issued(), s1.issued()),
                delta(mid.answers(), s1.answers()),
                delta(mid.power_queries(), s1.power_queries()),
                delta(mid.acoustic_queries(), s1.acoustic_queries()),
                Err(error),
            )
        },
    }
}

/// Nothing done is a completed batch of no entries.
pub proof fn lemma_done_nothing<P: GpuPort>(s0: Session<P>)
    ensures
        batch_done(s0, s0, Seq::empty()),
{
    let e = Seq::<(u32, Sets)>::empty();
    assert(found_all(e) =~= Seq::<(u32, bool)>::empty());
    assert(s0.issued() + batch_plan(e) =~= s0.issued());
    assert(s0.probes() + found_all(e) =~= s0.probes());
    lemma_extends_by(s0.answers(), Seq::empty());
    assert(s0.answers() + Seq::<Result<(), Fault>>::empty() =~= s0.answers());
}

/// A completed batch followed by a successful probe and a successful
/// application of one more entry is a completed batch of one entry more.
pub proof fn lemma_done_step<P: GpuPort>(
    s0: Session<P>,
    mid: Session<P>,
    m1: Session<P>,
    s2: Session<P>,
    es: Seq<(u32, Sets)>,
    index: u32,
    spec: Sets,
)
    requires
        batch_done(s0, mid, es),
        m1.probes() == mid.probes().push((index, true)),
        m1.issued() == mid.issued(),
        m1.answers() == mid.answers(),
        m1.power_queries() == mid.power_queries(),
        m1.acoustic_queries() == mid.acoustic_queries(),
        applied(m1, s2, index, spec, Ok(())),
    ensures
        batch_done(s0, s2, es.push((index, spec))),
{
    let p = plan_of(spec);
    let es2 = es.push((index, spec));
    assert(es2.drop_last() =~= es);
    assert(es2.last() == (index, spec));
    assert(p.take(p.len() as int) =~= p);
    assert(s2.issued() =~= s0.issued() + batch_plan(es2));
    assert(found_all(es2) =~= found_all(es).push((index, true)));
    assert(s2.probes() =~= s0.probes() + found_all(es2));
    let d1 = delta(s0.answers(), mid.answers());
    let d2 = delta(m1.answers(), s2.answers());
    assert(s2.answers() =~= s0.answers() + (d1 + d2));
    lemma_extends_by(s0.answers(), d1 + d2);
    assert forall|j: int| 0 <= j < (d1 + d2).len() implies (#[trigger] (d1 + d2)[j]) is Ok by {
        if j < d1.len() {
            assert(d1[j] is Ok);
        } else {
            let q = j - d1.len();
            if q < d2.len() - 1 {
                assert(d2[q] is Ok);
            }
        }
    }
    assert(s2.power_queries() =~= s0.power_queries());
    assert(s2.acoustic_queries() =~= s0.acoustic_queries());
    assert forall|k: int| 0 <= k < es2.len() implies spec_check((#[trigger] es2[k]).1) is Ok by {
        if k < es.len() {
            assert(es2[k] == es[k]);
        }
    }
}

/// A batch holding an invalid bundle never completes: no run over it ends in
/// the state that `run_batch` promises on `Ok`.
pub proof fn lemma_invalid_entry_excludes_ok<P: GpuPort>(
    s0: Session<P>,
    s1: Session<P>,
    entries: Seq<(u32, Sets)>,
    k: int,
)
    requires
        0 <= k < entries.len(),
        spec_check(entries[k].1) is Err,
    ensures
        !batch_done(s0, s1, entries),
{
}

/// Applies each bundle to its device, in the order of `entries`, and stops at
/// the first device that cannot be resolved or whose application fails.
/// Devices already updated keep their settings; later ones are not touched.
pub fn run_batch<P: GpuPort>(port: &mut Session<P>, entries: &Vec<(u32, Sets)>) -> (r: Result<
    (),
    BatchError,
>)
    ensures
        r is Ok ==> batch_done(*old(port), *final(port), entries@),
        r is Err ==> exists|k: int, mid: Session<P>|
            0 <= k < entries@.len() && #[trigger] batch_done(*old(port), mid, entries@.take(k))
                && stopped_at(mid, *final(port), entries@[k], r->Err_0),
{
    let ghost s0 = *port;
    let mut i: usize = 0;
    proof {
        lemma_done_nothing(s0);
        assert(entries@.take(0) =~= Seq::<(u32, Sets)>::empty());
    }
    while i < entries.len()
        invariant
            i <= entries@.len(),
            s0 == *old(port),
            batch_done(s0, *port, entries@.take(i as int)),
        decreases entries@.len() - i,
    {
        let (index, spec) = entries[i];
        let ghost mid = *port;
        if !port.has_device(index) {
            let e = BatchError::NotFound(index);
            assert(stopped_at(mid, *port, entries@[i as int], e));
            assert(batch_done(s0, mid, entries@.take(i as int)));
            return Err(e);
        }
        let ghost m1 = *port;
        match apply(port, index, &spec) {
            Err(error) => {
                let e = BatchError::Failed { index, error };
                assert(stopped_at(mid, *port, entries@[i as int], e));
                assert(batch_done(s0, mid, entries@.take(i as int)));
                return Err(e);
            },
            Ok(()) => {
                proof {
                    lemma_done_step(s0, mid, m1, *port, entries@.take(i as int), index, spec);
                    assert(entries@.take(i + 1) =~= entries@.take(i as int).push((index, spec)));
                }
            },
        }
        i = i + 1;
    }
    assert(entries@.take(i as int) =~= entries@);
    Ok(())
}

/// The session went from `s0` to `s1` by handling `entry` alone, with
/// outcome `o`: success applies it fully, a failure is what the fail-fast
/// run would report at that entry.
pub open spec fn entry_step<P: GpuPort>(
    s0: Session<P>,
    s1: Session<P>,
    entry: (u32, Sets),
    o: Option<BatchError>,
) -> bool {
    match o {
        None => batch_done(s0, s1, seq![entry]),
        Some(e) => stopped_at(s0, s1, entry, e),
    }
}

/// Applies each bundle to its device, in the order of `entries`, and goes on
/// after a failure: every entry is attempted, and each gets its outcome,
/// `None` for success.
pub fn run_batch_all<P: GpuPort>(port: &mut Session<P>, entries: &Vec<(u32, Sets)>) -> (r: Vec<
    Option<BatchError>,
>)
    ensures
        r@.len() == entries@.len(),
        exists|snaps: Seq<Session<P>>|
            #![trigger snaps.len()]
            snaps.len() == entries@.len() + 1 && snaps[0] == *old(port) && snaps.last()
                == *final(port) && forall|k: int|
                0 <= k < entries@.len() ==> entry_step(
                    snaps[k],
                    snaps[k + 1],
                    entries@[k],
                    #[trigger] r@[k],
                ),
{
    let ghost mut snaps: Seq<Session<P>> = seq![*port];
    let mut out: Vec<Option<BatchError>> = Vec::new();
    let mut i: usize = 0;
    while i < entries.len()
        invariant
            i <= entries@.len(),
            out@.len() == i,
            snaps.len() == i + 1,
            snaps[0] == *old(port),
            snaps.last() == *port,
            forall|k: int|
                0 <= k < i ==> entry_step(snaps[k], snaps[k + 1], entries@[k], #[trigger] out@[k]),
        decreases entries@.len() - i,
    {
        let (index, spec) = entries[i];
        let ghost mid = *port;
        let o = if !port.has_device(index) {
            Some(BatchError::NotFound(index))
        } else {
            let ghost m1 = *port;
            match apply(port, index, &spec) {
                Err(error) => Some(BatchError::Failed { index, error }),
                Ok(()) => {
                    proof {
                        lemma_done_nothing(mid);
                        lemma_done_step(mid, mid, m1, *port, Seq::empty(), index, spec);
                        assert(Seq::<(u32, Sets)>::empty().push((index, spec)) =~= seq![(index, spec)]);
                    }
                    None
                },
            }
        };
        assert(entries@[i as int] == (index, spec));
        assert(entry_step(mid, *port, entries@[i as int], o));
        let ghost prev = snaps;
        proof {
            snaps = snaps.push(*port);
        }
        out.push(o);
        assert forall|k: int| 0 <= k < i + 1 implies entry_step(
            snaps[k],
            snaps[k + 1],
            entries@[k],
            #[trigger] out@[k],
        ) by {
            if k < i {
                assert(snaps[k] == prev[k]);
                assert(snaps[k + 1] == prev[k + 1]);
            }
        }
        i = i + 1;
    }
    out
}

} // verus!
