use vstd::prelude::*;
use crate::settings::Write;

verus! {

/// Why the device management library refused a call.
#[derive(Clone, Debug)]
pub enum Fault {
    /// A value was outside what the device accepts.
    InvalidArgument,
    /// The device does not support the operation.
    NotSupported,
    /// The process lacks the privilege the operation needs.
    NoPermission,
    /// No device has the given index.
    NotFound,
    /// Any other failure, described in words.
    Other(String),
}

/// The words that describe a fault.
pub open spec fn fault_text(f: Fault) -> Seq<char> {
    match f {
        Fault::InvalidArgument => "invalid argument"@,
        Fault::NotSupported => "not supported"@,
        Fault::NoPermission => "insufficient permissions"@,
        Fault::NotFound => "no such device"@,
        Fault::Other(s) => s@,
    }
}

impl Fault {
    /// The words that describe this fault.
    pub fn text(&self) -> (r: String)
        ensures
            r@ == fault_text(*self),
    {
        match self {
            Fault::InvalidArgument => String::from_str("invalid argument"),
            Fault::NotSupported => String::from_str("not supported"),
            Fault::NoPermission => String::from_str("insufficient permissions"),
            Fault::NotFound => String::from_str("no such device"),
            Fault::Other(s) => s.clone(),
        }
    }
}

/// The capabilities of an open device-management session that the rest of
/// the library needs, with devices addressed by index.
pub trait GpuPort {
    /// Whether a device with this index can be resolved.
    fn has_device(&self, index: u32) -> bool;

    /// Issues one hardware write to the device with this index.
    fn write(&mut self, index: u32, w: Write) -> Result<(), Fault>;

    /// The supported power limit range, in milliwatts.
    fn power_limit_range(&self, index: u32) -> Result<(u32, u32), Fault>;

    /// The bounds of the acoustic threshold, in Celsius, each when obtainable.
    fn acoustic_range(&self, index: u32) -> (Option<u32>, Option<u32>);

    /// The current acoustic threshold in Celsius, when obtainable.
    fn acoustic_target(&self, index: u32) -> Option<u32>;

    /// The core clock offset in MHz.
    fn core_offset(&self, index: u32) -> Result<i32, Fault>;

    /// The memory clock offset in MHz.
    fn mem_offset(&self, index: u32) -> Result<i32, Fault>;

    /// The power limit the device enforces, in milliwatts.
    fn enforced_power_limit(&self, index: u32) -> Result<u32, Fault>;
}

/// `b` extends `a`: it holds `a` and then more.
pub open spec fn extends<T>(a: Seq<T>, b: Seq<T>) -> bool {
    a.len() <= b.len() && b == a + b.subrange(a.len() as int, b.len() as int)
}

/// What `b` holds after its prefix of the length of `a`.
pub open spec fn delta<T>(a: Seq<T>, b: Seq<T>) -> Seq<T> {
    b.subrange(a.len() as int, b.len() as int)
}

/// One recorded read of a device setting: the index and the answer.
pub enum Reading {
    CoreOffset(u32, Result<i32, Fault>),
    MemOffset(u32, Result<i32, Fault>),
    EnforcedPowerLimit(u32, Result<u32, Fault>),
    AcousticTarget(u32, Option<u32>),
}

/// A session over a port. It records every write issued through it, in
/// order, with the index of the device addressed, and what the device
/// answered; it records as well each device probe and each range query
/// made through it, with their answers.
pub struct Session<P> {
    port: P,
    log: Vec<(u32, Write)>,
    answers: Ghost<Seq<Result<(), Fault>>>,
    probes: Ghost<Seq<(u32, bool)>>,
    power_queries: Ghost<Seq<(u32, Result<(u32, u32), Fault>)>>,
    acoustic_queries: Ghost<Seq<(u32, (Option<u32>, Option<u32>))>>,
    reads: Ghost<Seq<Reading>>,
}

impl<P: GpuPort> Session<P> {
    /// The writes issued through this session so far.
    pub closed spec fn issued(&self) -> Seq<(u32, Write)> {
        self.log@
    }

    /// The device's answer to each issued write, in the same order.
    pub closed spec fn answers(&self) -> Seq<Result<(), Fault>> {
        self.answers@
    }

    /// Each device probe: the index and whether the device was found.
    pub closed spec fn probes(&self) -> Seq<(u32, bool)> {
        self.probes@
    }

    /// Each power limit range query: the index and the answer.
    pub closed spec fn power_queries(&self) -> Seq<(u32, Result<(u32, u32), Fault>)> {
        self.power_queries@
    }

    /// Each acoustic range query: the index and the bounds obtained.
    pub closed spec fn acoustic_queries(&self) -> Seq<(u32, (Option<u32>, Option<u32>))> {
        self.acoustic_queries@
    }

    /// Each read of a device setting made through the session.
    pub closed spec fn reads(&self) -> Seq<Reading> {
        self.reads@
    }

    /// The port this session drives.
    pub closed spec fn spec_port(&self) -> P {
        self.port
    }

    /// A session over `port` with nothing recorded yet.
    pub fn new(port: P) -> (r: Session<P>)
        ensures
            r.issued() == Seq::<(u32, Write)>::empty(),
            r.answers() == Seq::<Result<(), Fault>>::empty(),
            r.probes() == Seq::<(u32, bool)>::empty(),
            r.power_queries() == Seq::<(u32, Result<(u32, u32), Fault>)>::empty(),
            r.acoustic_queries() == Seq::<(u32, (Option<u32>, Option<u32>))>::empty(),
            r.reads() == Seq::<Reading>::empty(),
            r.spec_port() == port,
    {
        Session {
            port,
            log: Vec::new(),
            answers: Ghost(Seq::empty()),
            probes: Ghost(Seq::empty()),
            power_queries: Ghost(Seq::empty()),
            acoustic_queries: Ghost(Seq::empty()),
            reads: Ghost(Seq::empty()),
        }
    }

    /// Issues one hardware write to the device with this index.
    pub fn write(&mut self, index: u32, w: Write) -> (r: Result<(), Fault>)
        ensures
            final(self).issued() == old(self).issued().push((index, w)),
            final(self).answers() == old(self).answers().push(r),
            final(self).reads() == old(self).reads(),
            final(self).probes() == old(self).probes(),
            final(self).power_queries() == old(self).power_queries(),
            final(self).acoustic_queries() == old(self).acoustic_queries(),
    {
        self.log.push((index, w));
        let r = self.port.write(index, w);
        self.answers = Ghost(self.answers@.push(r));
        r
    }

    /// Whether a device with this index can be resolved.
    pub fn has_device(&mut self, index: u32) -> (r: bool)
        ensures
            final(self).probes() == old(self).probes().push((index, r)),
            final(self).reads() == old(self).reads(),
            final(self).issued() == old(self).issued(),
            final(self).answers() == old(self).answers(),
            final(self).power_queries() == old(self).power_queries(),
            final(self).acoustic_queries() == old(self).acoustic_queries(),
    {
        let r = self.port.has_device(index);
        self.probes = Ghost(self.probes@.push((index, r)));
        r
    }

    /// The supported power limit range of a device, in milliwatts.
    pub fn power_limit_range(&mut self, index: u32) -> (r: Result<(u32, u32), Fault>)
        ensures
            final(self).power_queries() == old(self).power_queries().push((index, r)),
            final(self).reads() == old(self).reads(),
            final(self).issued() == old(self).issued(),
            final(self).answers() == old(self).answers(),
            final(self).probes() == old(self).probes(),
            final(self).acoustic_queries() == old(self).acoustic_queries(),
    {
        let r = self.port.power_limit_range(index);
        self.power_queries = Ghost(self.power_queries@.push((index, r)));
        r
    }

    /// The bounds of the acoustic threshold of a device, each when obtainable.
    pub fn acoustic_range(&mut self, index: u32) -> (r: (Option<u32>, Option<u32>))
        ensures
            final(self).acoustic_queries() == old(self).acoustic_queries().push((index, r)),
            final(self).reads() == old(self).reads(),
            final(self).issued() == old(self).issued(),
            final(self).answers() == old(self).answers(),
            final(self).probes() == old(self).probes(),
            final(self).power_queries() == old(self).power_queries(),
    {
        let r = self.port.acoustic_range(index);
        self.acoustic_queries = Ghost(self.acoustic_queries@.push((index, r)));
        r
    }

    /// The core clock offset of a device, in MHz.
    pub fn core_offset(&mut self, index: u32) -> (r: Result<i32, Fault>)
        ensures
            final(self).reads() == old(self).reads().push(Reading::CoreOffset(index, r)),
            final(self).issued() == old(self).issued(),
            final(self).answers() == old(self).answers(),
            final(self).probes() == old(self).probes(),
            final(self).power_queries() == old(self).power_queries(),
            final(self).acoustic_queries() == old(self).acoustic_queries(),
    {
        let r = self.port.core_offset(index);
        self.reads = Ghost(self.reads@.push(Reading::CoreOffset(index, r)));
        r
    }

    /// The memory clock offset of a device, in MHz.
    pub fn mem_offset(&mut self, index: u32) -> (r: Result<i32, Fault>)
        ensures
            final(self).reads() == old(self).reads().push(Reading::MemOffset(index, r)),
            final(self).issued() == old(self).issued(),
            final(self).answers() == old(self).answers(),
            final(self).probes() == old(self).probes(),
            final(self).power_queries() == old(self).power_queries(),
            final(self).acoustic_queries() == old(self).acoustic_queries(),
    {
        let r = self.port.mem_offset(index);
        self.reads = Ghost(self.reads@.push(Reading::MemOffset(index, r)));
        r
    }

    /// The power limit a device enforces, in milliwatts.
    pub fn enforced_power_limit(&mut self, index: u32) -> (r: Result<u32, Fault>)
        ensures
            final(self).reads() == old(self).reads().push(Reading::EnforcedPowerLimit(index, r)),
            final(self).issued() == old(self).issued(),
            final(self).answers() == old(self).answers(),
            final(self).probes() == old(self).probes(),
            final(self).power_queries() == old(self).power_queries(),
            final(self).acoustic_queries() == old(self).acoustic_queries(),
    {
        let r = self.port.enforced_power_limit(index);
        self.reads = Ghost(self.reads@.push(Reading::EnforcedPowerLimit(index, r)));
        r
    }

    /// The current acoustic threshold of a device, when obtainable.
    pub fn acoustic_target(&mut self, index: u32) -> (r: Option<u32>)
        ensures
            final(self).reads() == old(self).reads().push(Reading::AcousticTarget(index, r)),
            final(self).issued() == old(self).issued(),
            final(self).answers() == old(self).answers(),
            final(self).probes() == old(self).probes(),
            final(self).power_queries() == old(self).power_queries(),
            final(self).acoustic_queries() == old(self).acoustic_queries(),
    {
        let r = self.port.acoustic_target(index);
        self.reads = Ghost(self.reads@.push(Reading::AcousticTarget(index, r)));
        r
    }

    /// The port, for queries.
    pub fn port(&self) -> (r: &P)
        ensures
            *r == self.spec_port(),
    {
        &self.port
    }

    /// The writes issued so far, in order.
    pub fn log(&self) -> (r: Vec<(u32, Write)>)
        ensures
            r@ == self.issued(),
    {
        let mut r: Vec<(u32, Write)> = Vec::new();
        let mut i: usize = 0;
        while i < self.log.len()
            invariant
                i <= self.log@.len(),
                r@ == self.log@.take(i as int),
            decreases self.log@.len() - i,
        {
            r.push(self.log[i]);
            i = i + 1;
            assert(r@ =~= self.log@.take(i as int));
        }
        assert(self.log@.take(i as int) =~= self.log@);
        r
    }

    /// Ends the session, handing back the port.
    pub fn into_port(self) -> (r: P)
        ensures
            r == self.spec_port(),
    {
        self.port
    }
}

} // verus!
