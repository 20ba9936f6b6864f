use nvidia_oc::applier::{apply, enriched, ApplyError};
use nvidia_oc::batch::{run_batch, run_batch_all, BatchError};
use nvidia_oc::port::{Fault, GpuPort, Session};
use nvidia_oc::settings::{Sets, SpecError, Write};

/// One simulated device: what it supports and its current settings.
#[derive(Clone, Copy, Debug)]
struct SimDevice {
    /// Accepted power limits, in milliwatts, inclusive.
    power_range: (u32, u32),
    /// The power limit queries fail on this device.
    power_queries_fail: bool,
    /// Accepted target temperatures, when the raw threshold access works.
    acoustic_range: Option<(u32, u32)>,
    core_offset: i32,
    mem_offset: i32,
    power_limit: u32,
    target_temp: u32,
}

/// Simulated devices held in memory, addressed by their position.
struct SimGpu {
    /// The devices, by index.
    devices: Vec<SimDevice>,
}

impl GpuPort for SimGpu {
    fn has_device(&self, index: u32) -> bool {
        (index as usize) < self.devices.len()
    }

    fn write(&mut self, index: u32, w: Write) -> Result<(), Fault> {
        let i = index as usize;
        if i >= self.devices.len() {
            return Err(Fault::NotFound);
        }
        let mut d = self.devices[i];
        match w {
            Write::CoreOffset(v) => {
                d.core_offset = v;
            }
            Write::MemOffset(v) => {
                d.mem_offset = v;
            }
            Write::PowerLimit(v) => {
                if v < d.power_range.0 || v > d.power_range.1 {
                    return Err(Fault::InvalidArgument);
                }
                d.power_limit = v;
            }
            Write::CoreClocks(a, b) | Write::MemClocks(a, b) => {
                if a > b {
                    return Err(Fault::InvalidArgument);
                }
            }
            Write::TargetTemp(v) => {
                match d.acoustic_range {
                    None => {
                        return Err(Fault::Other(String::from("NVML library unavailable")));
                    }
                    Some((lo, hi)) => {
                        if v < lo || v > hi {
                            return Err(Fault::InvalidArgument);
                        }
                        d.target_temp = v;
                    }
                }
            }
        }
        self.devices[i] = d;
        Ok(())
    }

    fn power_limit_range(&self, index: u32) -> Result<(u32, u32), Fault> {
        let i = index as usize;
        if i >= self.devices.len() {
            Err(Fault::NotFound)
        } else if self.devices[i].power_queries_fail {
            Err(Fault::NotSupported)
        } else {
            Ok(self.devices[i].power_range)
        }
    }

    fn acoustic_range(&self, index: u32) -> (Option<u32>, Option<u32>) {
        let i = index as usize;
        if i >= self.devices.len() {
            (None, None)
        } else {
            match self.devices[i].acoustic_range {
                Some((lo, hi)) => (Some(lo), Some(hi)),
                None => (None, None),
            }
        }
    }

    fn acoustic_target(&self, index: u32) -> Option<u32> {
        let i = index as usize;
        if i < self.devices.len() && self.devices[i].acoustic_range.is_some() {
            Some(self.devices[i].target_temp)
        } else {
            None
        }
    }

    fn core_offset(&self, index: u32) -> Result<i32, Fault> {
        let i = index as usize;
        if i >= self.devices.len() {
            Err(Fault::NotFound)
        } else {
            Ok(self.devices[i].core_offset)
        }
    }

    fn mem_offset(&self, index: u32) -> Result<i32, Fault> {
        let i = index as usize;
        if i >= self.devices.len() {
            Err(Fault::NotFound)
        } else {
            Ok(self.devices[i].mem_offset)
        }
    }

    fn enforced_power_limit(&self, index: u32) -> Result<u32, Fault> {
        let i = index as usize;
        if i >= self.devices.len() {
            Err(Fault::NotFound)
        } else if self.devices[i].power_queries_fail {
            Err(Fault::NotSupported)
        } else {
            Ok(self.devices[i].power_limit)
        }
    }
}


fn empty() -> Sets {
    Sets {
        freq_offset: None,
        mem_offset: None,
        power_limit: None,
        min_clock: None,
        max_clock: None,
        min_mem_clock: None,
        max_mem_clock: None,
        target_temp: None,
    }
}

fn device() -> SimDevice {
    SimDevice {
        power_range: (100000, 300000),
        power_queries_fail: false,
        acoustic_range: Some((65, 90)),
        core_offset: 0,
        mem_offset: 0,
        power_limit: 200000,
        target_temp: 83,
    }
}

fn gpu(n: usize) -> Session<SimGpu> {
    Session::new(SimGpu { devices: vec![device(); n] })
}

#[test]
fn empty_bundle_is_refused() {
    assert_eq!(empty().check(), Err(SpecError::Empty));
    let mut g = gpu(1);
    let r = apply(&mut g, 0, &empty());
    assert!(matches!(r, Err(ApplyError::Invalid(SpecError::Empty))));
    assert!(g.log().is_empty());
}

#[test]
fn half_core_range_is_refused_before_any_call() {
    let mut s = empty();
    s.min_clock = Some(300);
    s.freq_offset = Some(100);
    assert_eq!(s.check(), Err(SpecError::UnpairedCoreClock));
    let mut g = gpu(1);
    let r = apply(&mut g, 0, &s);
    assert!(matches!(r, Err(ApplyError::Invalid(SpecError::UnpairedCoreClock))));
    assert!(g.log().is_empty());
}

#[test]
fn half_mem_range_is_refused_before_any_call() {
    let mut s = empty();
    s.max_mem_clock = Some(9000);
    assert_eq!(s.check(), Err(SpecError::UnpairedMemClock));
    let mut g = gpu(1);
    let r = apply(&mut g, 0, &s);
    assert!(matches!(r, Err(ApplyError::Invalid(SpecError::UnpairedMemClock))));
    assert!(g.log().is_empty());
}

#[test]
fn every_single_setting_issues_one_write() {
    let mut bundles = Vec::new();
    let mut s = empty();
    s.freq_offset = Some(-150);
    bundles.push((s, Write::CoreOffset(-150)));
    let mut s = empty();
    s.mem_offset = Some(1000);
    bundles.push((s, Write::MemOffset(1000)));
    let mut s = empty();
    s.power_limit = Some(250000);
    bundles.push((s, Write::PowerLimit(250000)));
    let mut s = empty();
    s.min_clock = Some(210);
    s.max_clock = Some(2100);
    bundles.push((s, Write::CoreClocks(210, 2100)));
    let mut s = empty();
    s.min_mem_clock = Some(405);
    s.max_mem_clock = Some(9501);
    bundles.push((s, Write::MemClocks(405, 9501)));
    let mut s = empty();
    s.target_temp = Some(70);
    bundles.push((s, Write::TargetTemp(70)));
    for (s, w) in bundles {
        let mut g = gpu(2);
        assert!(apply(&mut g, 1, &s).is_ok());
        assert_eq!(g.log(), vec![(1, w)]);
    }
}

#[test]
fn writes_follow_the_fixed_order() {
    let s = Sets {
        freq_offset: Some(100),
        mem_offset: Some(-200),
        power_limit: Some(150000),
        min_clock: Some(300),
        max_clock: Some(1800),
        min_mem_clock: Some(405),
        max_mem_clock: Some(810),
        target_temp: Some(75),
    };
    let expected = vec![
        Write::CoreOffset(100),
        Write::MemOffset(-200),
        Write::PowerLimit(150000),
        Write::CoreClocks(300, 1800),
        Write::MemClocks(405, 810),
        Write::TargetTemp(75),
    ];
    assert_eq!(s.writes(), expected);
    let mut g = gpu(1);
    assert!(apply(&mut g, 0, &s).is_ok());
    let logged: Vec<Write> = g.log().into_iter().map(|(_, w)| w).collect();
    assert_eq!(logged, expected);
    assert_eq!(g.port().devices[0].core_offset, 100);
    assert_eq!(g.port().devices[0].mem_offset, -200);
    assert_eq!(g.port().devices[0].power_limit, 150000);
    assert_eq!(g.port().devices[0].target_temp, 75);
}

#[test]
fn power_limit_out_of_range_reports_bounds_in_mw_and_w() {
    let mut s = empty();
    s.power_limit = Some(400000);
    s.target_temp = Some(70);
    let mut g = gpu(1);
    let r = apply(&mut g, 0, &s);
    match &r {
        Err(ApplyError::PowerOutOfRange { requested, range }) => {
            assert_eq!(*requested, 400000);
            assert_eq!(*range, Some((100000, 300000)));
        }
        other => panic!("unexpected result {:?}", other),
    }
    let msg = r.unwrap_err().message();
    assert!(msg.contains("300000"));
    assert!(msg.contains("300"));
    assert_eq!(
        msg,
        "Failed to set GPU power limit: 400000 mW is out of range. Valid range: 100000-300000 mW (100-300 W)"
    );
    assert_eq!(g.log(), vec![(0, Write::PowerLimit(400000))]);
}

#[test]
fn power_limit_range_omitted_when_query_fails() {
    let mut d = device();
    d.power_queries_fail = true;
    let mut g = Session::new(SimGpu { devices: vec![d] });
    let mut s = empty();
    s.power_limit = Some(50);
    let r = apply(&mut g, 0, &s);
    let e = r.unwrap_err();
    assert!(matches!(e, ApplyError::PowerOutOfRange { requested: 50, range: None }));
    assert_eq!(e.message(), "Failed to set GPU power limit: 50 mW is out of range.");
}

#[test]
fn target_temp_failure_includes_acoustic_range() {
    let mut s = empty();
    s.target_temp = Some(100);
    let mut g = gpu(1);
    let e = apply(&mut g, 0, &s).unwrap_err();
    assert!(matches!(
        e,
        ApplyError::TargetTemp { requested: 100, fault: Fault::InvalidArgument, range: Some((65, 90)) }
    ));
    assert_eq!(
        e.message(),
        "Failed to set target temperature: 100°C - invalid argument Valid range: 65°C - 90°C"
    );
}

#[test]
fn target_temp_failure_without_range() {
    let mut d = device();
    d.acoustic_range = None;
    let mut g = Session::new(SimGpu { devices: vec![d] });
    let mut s = empty();
    s.target_temp = Some(70);
    let e = apply(&mut g, 0, &s).unwrap_err();
    assert!(matches!(e, ApplyError::TargetTemp { requested: 70, range: None, .. }));
    assert_eq!(
        e.message(),
        "Failed to set target temperature: 70°C - NVML library unavailable"
    );
}

#[test]
fn failure_stops_remaining_writes() {
    let mut s = empty();
    s.freq_offset = Some(50);
    s.min_clock = Some(2000);
    s.max_clock = Some(1000);
    s.target_temp = Some(70);
    let mut g = gpu(1);
    let e = apply(&mut g, 0, &s).unwrap_err();
    assert!(matches!(
        e,
        ApplyError::Rejected { write: Write::CoreClocks(2000, 1000), fault: Fault::InvalidArgument }
    ));
    assert_eq!(e.message(), "Failed to set GPU min and max clocks: invalid argument");
    assert_eq!(g.log(), vec![(0, Write::CoreOffset(50)), (0, Write::CoreClocks(2000, 1000))]);
}

#[test]
fn batch_stops_at_first_failing_device() {
    let mut valid = empty();
    valid.freq_offset = Some(100);
    let mut invalid = empty();
    invalid.min_mem_clock = Some(405);
    let entries = vec![(1u32, valid), (2u32, invalid), (3u32, valid)];
    let mut g = gpu(4);
    let r = run_batch(&mut g, &entries);
    match r {
        Err(BatchError::Failed { index, error }) => {
            assert_eq!(index, 2);
            assert!(matches!(error, ApplyError::Invalid(SpecError::UnpairedMemClock)));
        }
        other => panic!("unexpected result {:?}", other),
    }
    assert_eq!(g.log(), vec![(1, Write::CoreOffset(100))]);
    assert_eq!(g.port().devices[1].core_offset, 100);
    assert_eq!(g.port().devices[3].core_offset, 0);
}

#[test]
fn batch_stops_when_device_refuses() {
    let mut valid = empty();
    valid.freq_offset = Some(100);
    let mut too_much = empty();
    too_much.power_limit = Some(999999);
    let entries = vec![(1u32, valid), (2u32, too_much), (3u32, valid)];
    let mut g = gpu(4);
    let r = run_batch(&mut g, &entries);
    assert!(matches!(
        r,
        Err(BatchError::Failed { index: 2, error: ApplyError::PowerOutOfRange { .. } })
    ));
    assert_eq!(g.log(), vec![(1, Write::CoreOffset(100)), (2, Write::PowerLimit(999999))]);
}

#[test]
fn batch_reports_missing_device() {
    let mut valid = empty();
    valid.mem_offset = Some(500);
    let entries = vec![(0u32, valid), (7u32, valid)];
    let mut g = gpu(2);
    let r = run_batch(&mut g, &entries);
    assert!(matches!(r, Err(BatchError::NotFound(7))));
    assert_eq!(g.log(), vec![(0, Write::MemOffset(500))]);
}

#[test]
fn batch_applies_all_in_order() {
    let mut a = empty();
    a.freq_offset = Some(10);
    let mut b = empty();
    b.power_limit = Some(120000);
    b.mem_offset = Some(20);
    let entries = vec![(1u32, a), (0u32, b)];
    let mut g = gpu(2);
    assert!(run_batch(&mut g, &entries).is_ok());
    assert_eq!(
        g.log(),
        vec![(1, Write::CoreOffset(10)), (0, Write::MemOffset(20)), (0, Write::PowerLimit(120000))]
    );
}

#[test]
fn spec_error_messages() {
    assert_eq!(SpecError::Empty.message(), "No setting was requested");
    assert_eq!(
        SpecError::UnpairedCoreClock.message(),
        "The min and max clocks must be given together"
    );
    assert_eq!(
        ApplyError::Rejected { write: Write::MemOffset(1), fault: Fault::Other("boom".to_string()) }
            .message(),
        "Failed to set GPU memory frequency offset: boom"
    );
}

#[test]
fn enrichment_by_write_and_fault() {
    let e = enriched(Write::PowerLimit(5), Fault::NotSupported, Some((1, 2)), (None, None));
    assert!(matches!(
        e,
        ApplyError::Rejected { write: Write::PowerLimit(5), fault: Fault::NotSupported }
    ));
    let e = enriched(Write::PowerLimit(5), Fault::InvalidArgument, Some((1, 2)), (None, None));
    assert!(matches!(e, ApplyError::PowerOutOfRange { requested: 5, range: Some((1, 2)) }));
    let e = enriched(Write::TargetTemp(95), Fault::InvalidArgument, None, (Some(60), None));
    assert!(matches!(e, ApplyError::TargetTemp { requested: 95, range: None, .. }));
    let e = enriched(Write::TargetTemp(95), Fault::NoPermission, None, (Some(60), Some(90)));
    assert!(matches!(
        e,
        ApplyError::TargetTemp { requested: 95, fault: Fault::NoPermission, range: Some((60, 90)) }
    ));
    let e = enriched(Write::MemOffset(-3), Fault::InvalidArgument, Some((1, 2)), (Some(1), Some(2)));
    assert!(matches!(
        e,
        ApplyError::Rejected { write: Write::MemOffset(-3), fault: Fault::InvalidArgument }
    ));
}

#[test]
fn batch_going_on_attempts_every_device() {
    let mut valid = empty();
    valid.freq_offset = Some(100);
    let mut invalid = empty();
    invalid.min_mem_clock = Some(405);
    let mut refused = empty();
    refused.mem_offset = Some(7);
    refused.power_limit = Some(1);
    let entries = vec![(1u32, valid), (2u32, invalid), (3u32, valid), (9u32, valid), (0u32, refused)];
    let mut g = gpu(4);
    let out = run_batch_all(&mut g, &entries);
    assert_eq!(out.len(), 5);
    assert!(out[0].is_none());
    assert!(matches!(
        out[1],
        Some(BatchError::Failed { index: 2, error: ApplyError::Invalid(SpecError::UnpairedMemClock) })
    ));
    assert!(out[2].is_none());
    assert!(matches!(out[3], Some(BatchError::NotFound(9))));
    assert!(matches!(
        out[4],
        Some(BatchError::Failed { index: 0, error: ApplyError::PowerOutOfRange { requested: 1, .. } })
    ));
    assert_eq!(
        g.log(),
        vec![
            (1, Write::CoreOffset(100)),
            (3, Write::CoreOffset(100)),
            (0, Write::MemOffset(7)),
            (0, Write::PowerLimit(1)),
        ]
    );
    assert_eq!(g.port().devices[3].core_offset, 100);
}
