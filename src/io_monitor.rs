use crate::mapping::{mapped_value, Mapping};
use crate::{AnalogRead, LoadCell};
use core::sync::atomic::{AtomicI16, Ordering};
use vstd::prelude::*;

verus! {

/// What an [`AnalogMonitor`] is built from.
#[verifier::reject_recursive_types(Adc)]
#[verifier::reject_recursive_types(Pin)]
#[verifier::reject_recursive_types(T)]
pub struct AnalogMonitorConfig<Adc, Pin, T> where Adc: AnalogRead<Pin, ReturnType = T>, T: Mapping {
    pub range_min: T,
    pub range_max: T,
    pub adc: Adc,
    pub pin: Pin,
    pub output_channel: &'static AtomicI16,
}

/// Samples one analog channel, maps the reading and publishes it into an
/// axis slot.
#[verifier::reject_recursive_types(Adc)]
#[verifier::reject_recursive_types(Pin)]
#[verifier::reject_recursive_types(T)]
pub struct AnalogMonitor<Adc, Pin, T> where Adc: AnalogRead<Pin, ReturnType = T>, T: Mapping {
    name: &'static str,
    range_min: T,
    range_max: T,
    adc: Adc,
    pin: Pin,
    output_channel: &'static AtomicI16,
}

impl<Adc, Pin, T> AnalogMonitor<Adc, Pin, T> where Adc: AnalogRead<Pin, ReturnType = T>, T: Mapping {
    /// The configured input range is ordered.
    pub open spec fn wf(&self) -> bool {
        self.spec_range_min().wide() <= self.spec_range_max().wide()
    }

    pub closed spec fn spec_name(&self) -> &'static str {
        self.name
    }

    pub closed spec fn spec_range_min(&self) -> T {
        self.range_min
    }

    pub closed spec fn spec_range_max(&self) -> T {
        self.range_max
    }

    pub closed spec fn spec_adc(&self) -> Adc {
        self.adc
    }

    pub closed spec fn spec_pin(&self) -> Pin {
        self.pin
    }

    pub closed spec fn spec_output_channel(&self) -> &'static AtomicI16 {
        self.output_channel
    }

    pub fn new(name: &'static str, config: AnalogMonitorConfig<Adc, Pin, T>) -> (r: AnalogMonitor<
        Adc,
        Pin,
        T,
    >)
        requires
            config.range_min.wide() <= config.range_max.wide(),
        ensures
            r.wf(),
            r.spec_name() == name,
            r.spec_range_min() == config.range_min,
            r.spec_range_max() == config.range_max,
            r.spec_adc() == config.adc,
            r.spec_pin() == config.pin,
            r.spec_output_channel() == config.output_channel,
    {
        AnalogMonitor {
            name,
            adc: config.adc,
            pin: config.pin,
            range_min: config.range_min,
            range_max: config.range_max,
            output_channel: config.output_channel,
        }
    }

    pub fn name(&self) -> (r: &'static str)
        ensures
            r == self.spec_name(),
    {
        self.name
    }

    pub fn range_min(&self) -> (r: T)
        ensures
            r == self.spec_range_min(),
    {
        self.range_min
    }

    pub fn range_max(&self) -> (r: T)
        ensures
            r == self.spec_range_max(),
    {
        self.range_max
    }

    pub fn adc(&self) -> (r: &Adc)
        ensures
            *r == self.spec_adc(),
    {
        &self.adc
    }

    pub fn pin(&self) -> (r: &Pin)
        ensures
            *r == self.spec_pin(),
    {
        &self.pin
    }

    /// The value this monitor publishes for the raw reading `raw`.
    pub fn map_reading(&self, raw: T) -> (r: i16)
        requires
            self.wf(),
        ensures
            r as int == mapped_value(raw.wide(), self.spec_range_min().wide(), self.spec_range_max().wide()),
    {
        raw.map_to_i16(self.range_min, self.range_max)
    }

    /// Takes one sample, maps it, stores it into the axis slot and returns
    /// the stored value.
    pub fn run(&mut self) -> (published: i16)
        requires
            old(self).wf(),
        ensures
            final(self).wf(),
            final(self).spec_name() == old(self).spec_name(),
            final(self).spec_range_min() == old(self).spec_range_min(),
            final(self).spec_range_max() == old(self).spec_range_max(),
            final(self).spec_output_channel() == old(self).spec_output_channel(),
            exists|raw: T|
                published as int == mapped_value(
                    raw.wide(),
                    old(self).spec_range_min().wide(),
                    old(self).spec_range_max().wide(),
                ),
    {
        let raw_reading = self.adc.read(&mut self.pin);
        let mapped_reading = self.map_reading(raw_reading);
        self.output_channel.store(mapped_reading, Ordering::Relaxed);
        mapped_reading
    }
}

/// What a [`LoadCellMonitor`] is built from.
#[verifier::reject_recursive_types(L)]
#[verifier::reject_recursive_types(T)]
pub struct LoadCellMonitorConfig<L, T> where L: LoadCell<ReturnType = T>, T: Mapping {
    pub range_min: T,
    pub range_max: T,
    pub load_cell: L,
    pub output_channel: &'static AtomicI16,
}

/// Reads a weight cell, maps each successful reading and publishes it into
/// an axis slot; a failed read leaves the slot as it was.
#[verifier::reject_recursive_types(L)]
#[verifier::reject_recursive_types(T)]
pub struct LoadCellMonitor<L, T> where L: LoadCell<ReturnType = T>, T: Mapping {
    name: &'static str,
    range_min: T,
    range_max: T,
    load_cell: L,
    output_channel: &'static AtomicI16,
}

impl<L, T> LoadCellMonitor<L, T> where L: LoadCell<ReturnType = T>, T: Mapping {
    /// The configured input range is ordered.
    pub open spec fn wf(&self) -> bool {
        self.spec_range_min().wide() <= self.spec_range_max().wide()
    }

    pub closed spec fn spec_name(&self) -> &'static str {
        self.name
    }

    pub closed spec fn spec_range_min(&self) -> T {
        self.range_min
    }

    pub closed spec fn spec_range_max(&self) -> T {
        self.range_max
    }

    pub closed spec fn spec_load_cell(&self) -> L {
        self.load_cell
    }

    pub closed spec fn spec_output_channel(&self) -> &'static AtomicI16 {
        self.output_channel
    }

    pub fn new(name: &'static str, config: LoadCellMonitorConfig<L, T>) -> (r: LoadCellMonitor<
        L,
        T,
    >)
        requires
            config.range_min.wide() <= config.range_max.wide(),
        ensures
            r.wf(),
            r.spec_name() == name,
            r.spec_range_min() == config.range_min,
            r.spec_range_max() == config.range_max,
            r.spec_load_cell() == config.load_cell,
            r.spec_output_channel() == config.output_channel,
    {
        LoadCellMonitor {
            name,
            range_min: config.range_min,
            range_max: config.range_max,
            load_cell: config.load_cell,
            output_channel: config.output_channel,
        }
    }

    pub fn name(&self) -> (r: &'static str)
        ensures
            r == self.spec_name(),
    {
        self.name
    }

    pub fn range_min(&self) -> (r: T)
        ensures
            r == self.spec_range_min(),
    {
        self.range_min
    }

    pub fn range_max(&self) -> (r: T)
        ensures
            r == self.spec_range_max(),
    {
        self.range_max
    }

    pub fn load_cell(&self) -> (r: &L)
        ensures
            *r == self.spec_load_cell(),
    {
        &self.load_cell
    }

    /// The value this monitor publishes for the outcome of one read:
    /// the mapped reading on success, nothing on failure.
    pub fn map_outcome(&self, reading: Result<T, L::Error>) -> (r: Option<i16>)
        requires
            self.wf(),
        ensures
            match reading {
                Ok(raw) => r matches Some(v) && v as int == mapped_value(
                    raw.wide(),
                    self.spec_range_min().wide(),
                    self.spec_range_max().wide(),
                ),
                Err(_) => r is None,
            },
    {
        match reading {
            Ok(raw) => Some(raw.map_to_i16(self.range_min, self.range_max)),
            Err(_) => None,
        }
    }

    /// Reads the weight cell once. On success the mapped reading is stored
    /// into the axis slot and returned; on failure the slot is left
    /// untouched and `None` is returned.
    pub fn run(&mut self) -> (published: Option<i16>)
        requires
            old(self).wf(),
        ensures
            final(self).wf(),
            final(self).spec_name() == old(self).spec_name(),
            final(self).spec_range_min() == old(self).spec_range_min(),
            final(self).spec_range_max() == old(self).spec_range_max(),
            final(self).spec_output_channel() == old(self).spec_output_channel(),
            published matches Some(v) ==> exists|raw: T|
                v as int == mapped_value(
                    raw.wide(),
                    old(self).spec_range_min().wide(),
                    old(self).spec_range_max().wide(),
                ),
    {
        let reading = self.load_cell.read();
        let outcome = self.map_outcome(reading);
        if let Some(mapped_reading) = outcome {
            self.output_channel.store(mapped_reading, Ordering::Relaxed);
        }
        outcome
    }
}

} // verus!
