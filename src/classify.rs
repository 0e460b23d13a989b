use vstd::prelude::*;

verus! {

#[derive(Debug, Clone, Copy, PartialEq, Eq, Structural)]
pub enum TemperatureCategory {
    Cool,
    Normal,
    Warm,
    Hot,
    Critical,
}

#[derive(Debug, Clone, Copy, PartialEq, Eq, Structural)]
pub enum DiskUsageCategory {
    Normal,
    Warning,
    Critical,
    Full,
}

/// Bands over whole degrees: up to 40 cool, 41 to 60 normal, 61 to 75 warm,
/// 76 to 85 hot, from 86 critical.
pub open spec fn temperature_band(celsius: nat) -> TemperatureCategory {
    if celsius <= 40 {
        TemperatureCategory::Cool
    } else if celsius <= 60 {
        TemperatureCategory::Normal
    } else if celsius <= 75 {
        TemperatureCategory::Warm
    } else if celsius <= 85 {
        TemperatureCategory::Hot
    } else {
        TemperatureCategory::Critical
    }
}

/// Bands over whole percent: up to 70 normal, 71 to 85 warning, 86 to 95
/// critical, from 96 full.
pub open spec fn disk_band(percent: nat) -> DiskUsageCategory {
    if percent <= 70 {
        DiskUsageCategory::Normal
    } else if percent <= 85 {
        DiskUsageCategory::Warning
    } else if percent <= 95 {
        DiskUsageCategory::Critical
    } else {
        DiskUsageCategory::Full
    }
}

/// Classifies a temperature given in whole degrees Celsius (a fractional
/// reading is truncated toward zero first, a negative one taken as zero).
pub fn categorize_temperature(temp: u32) -> (r: TemperatureCategory)
    ensures
        r == temperature_band(temp as nat),
{
    if temp <= 40 {
        TemperatureCategory::Cool
    } else if temp <= 60 {
        TemperatureCategory::Normal
    } else if temp <= 75 {
        TemperatureCategory::Warm
    } else if temp <= 85 {
        TemperatureCategory::Hot
    } else {
        TemperatureCategory::Critical
    }
}

/// Classifies a disk usage given in whole percent (a fractional reading is
/// truncated toward zero first).
pub fn categorize_disk_usage(usage_percent: u32) -> (r: DiskUsageCategory)
    ensures
        r == disk_band(usage_percent as nat),
{
    if usage_percent <= 70 {
        DiskUsageCategory::Normal
    } else if usage_percent <= 85 {
        DiskUsageCategory::Warning
    } else if usage_percent <= 95 {
        DiskUsageCategory::Critical
    } else {
        DiskUsageCategory::Full
    }
}

/// `part / whole` in hundredths of a percent, rounded down; zero when
/// `whole` is zero.
pub open spec fn hundredths_of(part: nat, whole: nat) -> nat {
    if whole == 0 { 0 } else { part * 10000 / whole }
}

/// `part / whole` in hundredths of a percent, rounded down and capped at
/// `u64::MAX`; zero when `whole` is zero.
pub fn percent_hundredths(part: u64, whole: u64) -> (r: u64)
    ensures
        r == if hundredths_of(part as nat, whole as nat) > 0xffff_ffff_ffff_ffff {
            0xffff_ffff_ffff_ffff
        } else {
            hundredths_of(part as nat, whole as nat)
        },
{
    if whole == 0 {
        0
    } else {
        assert((part as int) * 10000 <= 0xffff_ffff_ffff_ffff * 10000) by (nonlinear_arith)
            requires
                part <= 0xffff_ffff_ffff_ffff,
        ;
        let q: u128 = (part as u128) * 10000 / (whole as u128);
        if q > u64::MAX as u128 { u64::MAX } else { q as u64 }
    }
}

/// One mounted disk.
pub struct DiskInfo {
    pub name: String,
    pub mount_point: String,
    pub total_space: u64,
    pub available_space: u64,
    pub used_space: u64,
    /// Hundredths of a percent of `total_space` in use.
    pub usage_percent: u32,
    pub file_system: String,
}

impl DiskInfo {
    /// Describes a disk from its sizes in bytes. Used space is what is not
    /// available, and zero where the available space exceeds the total.
    pub fn from_space(
        name: String,
        mount_point: String,
        total_space: u64,
        available_space: u64,
        file_system: String,
    ) -> (r: DiskInfo)
        ensures
            r.name == name,
            r.mount_point == mount_point,
            r.file_system == file_system,
            r.total_space == total_space,
            r.available_space == available_space,
            r.used_space == if available_space <= total_space {
                total_space - available_space
            } else {
                0
            },
            r.usage_percent == hundredths_of(r.used_space as nat, total_space as nat),
            r.usage_percent <= 10000,
    {
        let used = total_space.saturating_sub(available_space);
        let usage: u32 = if total_space > 0 {
            assert((used as int) * 10000 / (total_space as int) <= 10000) by (nonlinear_arith)
                requires
                    used <= total_space,
                    total_space > 0,
            ;
            ((used as u128) * 10000 / (total_space as u128)) as u32
        } else {
            0
        };
        DiskInfo {
            name,
            mount_point,
            total_space,
            available_space,
            used_space: used,
            usage_percent: usage,
            file_system,
        }
    }

    /// The usage category of this disk.
    pub fn category(&self) -> (r: DiskUsageCategory)
        ensures
            r == disk_band(self.usage_percent as nat / 100),
    {
        categorize_disk_usage(self.usage_percent / 100)
    }
}

/// One temperature sensor, in hundredths of a degree Celsius.
pub struct TemperatureInfo {
    pub component_name: String,
    pub current_temp: i32,
    /// The highest reading seen, when the sensor reports a positive one.
    pub max_temp: Option<i32>,
    /// The critical threshold, when the sensor reports a positive one.
    pub critical_temp: Option<i32>,
}

impl TemperatureInfo {
    /// Describes a sensor from its readings; a maximum or critical value
    /// that is not positive counts as unknown.
    pub fn from_reading(
        component_name: String,
        current_temp: i32,
        max_temp: i32,
        critical_temp: Option<i32>,
    ) -> (r: TemperatureInfo)
        ensures
            r.component_name == component_name,
            r.current_temp == current_temp,
            r.max_temp == if max_temp > 0 { Some(max_temp) } else { None::<i32> },
            r.critical_temp == match critical_temp {
                Some(c) => if c > 0 { Some(c) } else { None::<i32> },
                None => None::<i32>,
            },
    {
        let max = if max_temp > 0 { Some(max_temp) } else { None };
        let critical = match critical_temp {
            Some(c) => if c > 0 { Some(c) } else { None },
            None => None,
        };
        TemperatureInfo { component_name, current_temp, max_temp: max, critical_temp: critical }
    }

    /// The category of the current reading, by whole degrees (below zero
    /// counts as zero).
    pub fn category(&self) -> (r: TemperatureCategory)
        ensures
            r == temperature_band(if self.current_temp < 0 { 0 } else { self.current_temp as nat / 100 }),
    {
        let whole: u32 = if self.current_temp < 0 { 0 } else { (self.current_temp / 100) as u32 };
        categorize_temperature(whole)
    }
}

} // verus!
