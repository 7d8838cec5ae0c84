//! Lazily-initialized calibration singleton.
//!
//! The factory constants live in read-only hardware storage; they are to be
//! fetched at most once per process lifetime, and every reader — including
//! concurrent first-time readers — must observe the one cached value. Under
//! the cooperative scheduler the fetch contains no suspension point, so the
//! whole first access runs without interleaving; this module makes the
//! protocol explicit: a reader asks whether the source still needs reading,
//! installs the fetched words exactly once, and from then on only reads the
//! cache. The access model at the bottom states the singleton guarantee for
//! any number of accesses.

use vstd::prelude::*;

use crate::calibration::TemperatureCalibration;

verus! {

/// The cache after one access that would read `source` on a miss.
pub open spec fn access_cached(
    cached: Option<TemperatureCalibration>,
    source: TemperatureCalibration,
) -> Option<TemperatureCalibration> {
    if cached is None {
        Some(source)
    } else {
        cached
    }
}

/// The number of underlying source reads after one access.
pub open spec fn access_reads(cached: Option<TemperatureCalibration>, reads: nat) -> nat {
    if cached is None {
        reads + 1
    } else {
        reads
    }
}

/// The value an access delivers: the fresh source value on a miss, the cached
/// value otherwise.
pub open spec fn access_value(
    cached: Option<TemperatureCalibration>,
    source: TemperatureCalibration,
) -> TemperatureCalibration {
    if cached is None {
        source
    } else {
        cached->0
    }
}

/// The cache after `n` accesses against a source that always yields `source`,
/// starting uninitialized.
pub open spec fn cached_after(source: TemperatureCalibration, n: nat) -> Option<
    TemperatureCalibration,
>
    decreases n,
{
    if n == 0 {
        None
    } else {
        access_cached(cached_after(source, (n - 1) as nat), source)
    }
}

/// The number of underlying source reads after `n` accesses, starting from
/// none.
pub open spec fn reads_after(source: TemperatureCalibration, n: nat) -> nat
    decreases n,
{
    if n == 0 {
        0
    } else {
        access_reads(cached_after(source, (n - 1) as nat), reads_after(source, (n - 1) as nat))
    }
}

/// Singleton guarantee: after any positive number of accesses, the underlying
/// read-only source has been read exactly once, the cache holds its value,
/// and every single access — first or later — delivered that same value.
pub proof fn lemma_calibration_singleton(source: TemperatureCalibration, n: nat)
    requires
        n >= 1,
    ensures
        cached_after(source, n) == Some(source),
        reads_after(source, n) == 1,
        forall|k: nat|
            1 <= k <= n ==> access_value(
                #[trigger] cached_after(source, (k - 1) as nat),
                source,
            ) == source,
    decreases n,
{
    if n == 1 {
        assert(cached_after(source, 0) is None);
        assert(reads_after(source, 0) == 0);
    } else {
        lemma_calibration_singleton(source, (n - 1) as nat);
        assert(access_value(cached_after(source, (n - 1) as nat), source) == source);
    }
}

/// Holder of the one-time calibration read.
pub struct CalibrationProvider {
    cached: Option<TemperatureCalibration>,
    source_reads: u64,
}

impl CalibrationProvider {
    /// The cached calibration, if the source has been read.
    pub closed spec fn cached(&self) -> Option<TemperatureCalibration> {
        self.cached
    }

    /// How many times the underlying source has been read.
    pub closed spec fn source_reads(&self) -> nat {
        self.source_reads as nat
    }

    /// The provider never reads the source more than once, and holds a value
    /// exactly when it has read.
    pub open spec fn wf(&self) -> bool {
        &&& self.source_reads() <= 1
        &&& (self.cached() is Some <==> self.source_reads() == 1)
    }

    /// Creates a provider that has not yet read the source.
    pub fn new() -> (p: Self)
        ensures
            p.cached() is None,
            p.source_reads() == 0,
            p.wf(),
    {
        CalibrationProvider { cached: None, source_reads: 0 }
    }

    /// Whether the underlying source still needs to be read. Exactly one
    /// reader will see `true` here and then install: under the cooperative
    /// scheduler no suspension point separates this test from the install.
    pub fn needs_read(&self) -> (b: bool)
        ensures
            b == (self.cached() is None),
    {
        self.cached.is_none()
    }

    /// Caches the words fetched from the source, counting the one read. Only
    /// an uninitialized provider accepts an install, which is what bounds the
    /// source reads to one.
    pub fn install(&mut self, data: TemperatureCalibration)
        requires
            old(self).cached() is None,
            old(self).wf(),
        ensures
            final(self).cached() == access_cached(old(self).cached(), data),
            final(self).cached() == Some(data),
            final(self).source_reads() == access_reads(old(self).cached(), old(
                self,
            ).source_reads()),
            final(self).source_reads() == old(self).source_reads() + 1,
            final(self).wf(),
    {
        self.cached = Some(data);
        self.source_reads = self.source_reads + 1;
    }

    /// The cached calibration; callers come here only once a value exists.
    pub fn get(&self) -> (data: TemperatureCalibration)
        requires
            self.cached() is Some,
        ensures
            Some(data) == self.cached(),
    {
        self.cached.unwrap()
    }

    /// The cached calibration, or nothing before the first read.
    pub fn try_get(&self) -> (r: Option<TemperatureCalibration>)
        ensures
            r == self.cached(),
    {
        self.cached
    }

    /// How many times the source has been read, for a supervising harness.
    pub fn read_count(&self) -> (n: u64)
        ensures
            n == self.source_reads(),
    {
        self.source_reads
    }
}

} // verus!
