use vstd::prelude::*;

verus! {

/// The changes requested for one device. Each field is optional; a locked
/// clock range is given by both of its bounds or by neither.
#[derive(Clone, Copy, Debug, PartialEq, Eq, Structural)]
pub struct Sets {
    /// Core clock offset in MHz; negative values underclock.
    pub freq_offset: Option<i32>,
    /// Memory clock offset in MHz.
    pub mem_offset: Option<i32>,
    /// Power limit in milliwatts.
    pub power_limit: Option<u32>,
    /// Lower bound of the locked core clock range, in MHz.
    pub min_clock: Option<u32>,
    /// Upper bound of the locked core clock range, in MHz.
    pub max_clock: Option<u32>,
    /// Lower bound of the locked memory clock range, in MHz.
    pub min_mem_clock: Option<u32>,
    /// Upper bound of the locked memory clock range, in MHz.
    pub max_mem_clock: Option<u32>,
    /// Fan target (acoustic) temperature in Celsius.
    pub target_temp: Option<u32>,
}

/// One hardware write call that applying a `Sets` issues.
#[derive(Clone, Copy, Debug, PartialEq, Eq, Structural)]
pub enum Write {
    CoreOffset(i32),
    MemOffset(i32),
    PowerLimit(u32),
    CoreClocks(u32, u32),
    MemClocks(u32, u32),
    TargetTemp(u32),
}

/// Why a `Sets` is refused before any device is touched.
#[derive(Clone, Copy, Debug, PartialEq, Eq, Structural)]
pub enum SpecError {
    /// No field is present.
    Empty,
    /// Only one bound of the locked core clock range is present.
    UnpairedCoreClock,
    /// Only one bound of the locked memory clock range is present.
    UnpairedMemClock,
}

/// Every field is absent.
pub open spec fn is_empty(s: Sets) -> bool {
    s.freq_offset is None && s.mem_offset is None && s.power_limit is None && s.min_clock is None
        && s.max_clock is None && s.min_mem_clock is None && s.max_mem_clock is None
        && s.target_temp is None
}

/// The verdict of validation: empty bundles and half ranges are refused.
pub open spec fn spec_check(s: Sets) -> Result<(), SpecError> {
    if is_empty(s) {
        Err(SpecError::Empty)
    } else if (s.min_clock is Some) != (s.max_clock is Some) {
        Err(SpecError::UnpairedCoreClock)
    } else if (s.min_mem_clock is Some) != (s.max_mem_clock is Some) {
        Err(SpecError::UnpairedMemClock)
    } else {
        Ok(())
    }
}

pub open spec fn one_if<T>(o: Option<T>) -> Seq<T> {
    match o {
        Some(v) => seq![v],
        None => seq![],
    }
}

pub open spec fn pair_write(lo: Option<u32>, hi: Option<u32>, core: bool) -> Option<Write> {
    match (lo, hi) {
        (Some(a), Some(b)) => Some(if core { Write::CoreClocks(a, b) } else { Write::MemClocks(a, b) }),
        _ => None,
    }
}

/// The writes that applying `s` issues, in the fixed order: core offset,
/// memory offset, power limit, core clock range, memory clock range,
/// target temperature.
pub open spec fn plan_of(s: Sets) -> Seq<Write> {
    one_if(match s.freq_offset { Some(v) => Some(Write::CoreOffset(v)), None => None })
        + one_if(match s.mem_offset { Some(v) => Some(Write::MemOffset(v)), None => None })
        + one_if(match s.power_limit { Some(v) => Some(Write::PowerLimit(v)), None => None })
        + one_if(pair_write(s.min_clock, s.max_clock, true))
        + one_if(pair_write(s.min_mem_clock, s.max_mem_clock, false))
        + one_if(match s.target_temp { Some(v) => Some(Write::TargetTemp(v)), None => None })
}

/// How many of the six settings `s` populates (a clock range counts when
/// both of its bounds are present).
pub open spec fn populated_count(s: Sets) -> nat {
    one_if(s.freq_offset).len() + one_if(s.mem_offset).len() + one_if(s.power_limit).len()
        + one_if(pair_write(s.min_clock, s.max_clock, true)).len()
        + one_if(pair_write(s.min_mem_clock, s.max_mem_clock, false)).len()
        + one_if(s.target_temp).len()
}

/// `w` carries exactly the value that `s` requests for the setting `w` writes.
pub open spec fn write_matches(s: Sets, w: Write) -> bool {
    match w {
        Write::CoreOffset(v) => s.freq_offset == Some(v),
        Write::MemOffset(v) => s.mem_offset == Some(v),
        Write::PowerLimit(v) => s.power_limit == Some(v),
        Write::CoreClocks(a, b) => s.min_clock == Some(a) && s.max_clock == Some(b),
        Write::MemClocks(a, b) => s.min_mem_clock == Some(a) && s.max_mem_clock == Some(b),
        Write::TargetTemp(v) => s.target_temp == Some(v),
    }
}

impl Sets {
    /// Validates the bundle: it must not be empty, and each locked clock
    /// range must have both bounds or neither.
    pub fn check(&self) -> (r: Result<(), SpecError>)
        ensures
            r == spec_check(*self),
    {
        if self.freq_offset.is_none() && self.mem_offset.is_none() && self.power_limit.is_none()
            && self.min_clock.is_none() && self.max_clock.is_none()
            && self.min_mem_clock.is_none() && self.max_mem_clock.is_none()
            && self.target_temp.is_none() {
            Err(SpecError::Empty)
        } else if self.min_clock.is_some() != self.max_clock.is_some() {
            Err(SpecError::UnpairedCoreClock)
        } else if self.min_mem_clock.is_some() != self.max_mem_clock.is_some() {
            Err(SpecError::UnpairedMemClock)
        } else {
            Ok(())
        }
    }

    /// The writes that applying this bundle issues, in their fixed order.
    pub fn writes(&self) -> (r: Vec<Write>)
        ensures
            r@ == plan_of(*self),
    {
        let mut v: Vec<Write> = Vec::new();
        if let Some(x) = self.freq_offset {
            v.push(Write::CoreOffset(x));
        }
        if let Some(x) = self.mem_offset {
            v.push(Write::MemOffset(x));
        }
        if let Some(x) = self.power_limit {
            v.push(Write::PowerLimit(x));
        }
        if let (Some(a), Some(b)) = (self.min_clock, self.max_clock) {
            v.push(Write::CoreClocks(a, b));
        }
        if let (Some(a), Some(b)) = (self.min_mem_clock, self.max_mem_clock) {
            v.push(Write::MemClocks(a, b));
        }
        if let Some(x) = self.target_temp {
            v.push(Write::TargetTemp(x));
        }
        assert(v@ =~= plan_of(*self));
        v
    }
}

/// Every write in the plan of `s` carries a value that `s` requests, and the
/// plan holds one write per populated setting.
pub proof fn lemma_plan_matches(s: Sets)
    ensures
        plan_of(s).len() == populated_count(s),
        forall|i: int| 0 <= i < plan_of(s).len() ==> write_matches(s, #[trigger] plan_of(s)[i]),
{
    let p = plan_of(s);
    assert forall|i: int| 0 <= i < p.len() implies write_matches(s, #[trigger] p[i]) by {
        let a = one_if(match s.freq_offset { Some(v) => Some(Write::CoreOffset(v)), None => None });
        let b = one_if(match s.mem_offset { Some(v) => Some(Write::MemOffset(v)), None => None });
        let c = one_if(match s.power_limit { Some(v) => Some(Write::PowerLimit(v)), None => None });
        let d = one_if(pair_write(s.min_clock, s.max_clock, true));
        let e = one_if(pair_write(s.min_mem_clock, s.max_mem_clock, false));
        let f = one_if(match s.target_temp { Some(v) => Some(Write::TargetTemp(v)), None => None });
        assert(p =~= a + b + c + d + e + f);
    }
}

/// A valid bundle always asks for at least one write.
pub proof fn lemma_valid_plan_nonempty(s: Sets)
    requires
        spec_check(s) is Ok,
    ensures
        plan_of(s).len() >= 1,
{
    lemma_plan_matches(s);
}

/// A valid bundle that populates exactly one setting is applied by exactly one
/// write, and that write is for the populated setting with its requested value.
pub proof fn lemma_single_setting_single_write(s: Sets)
    requires
        spec_check(s) is Ok,
        populated_count(s) == 1,
    ensures
        plan_of(s).len() == 1,
        write_matches(s, plan_of(s)[0]),
{
    lemma_plan_matches(s);
}

/// A bundle with one bound of a locked clock range but not the other is
/// refused by validation.
pub proof fn lemma_half_range_refused(s: Sets)
    requires
        (s.min_clock is Some) != (s.max_clock is Some)
            || (s.min_mem_clock is Some) != (s.max_mem_clock is Some),
    ensures
        spec_check(s) is Err,
        spec_check(s) != Err::<(), SpecError>(SpecError::Empty),
{
}

} // verus!
