use vstd::prelude::*;
use crate::geo::{GeoResult, IpLocation};

verus! {

/// Which temperature the tray tooltip shows.
#[derive(Debug, Clone, Copy, PartialEq, Eq, Structural)]
pub enum TrayTemp {
    Actual,
    FeelsLike,
}

impl Default for TrayTemp {
    fn default() -> (r: Self)
        ensures
            r == TrayTemp::Actual,
    {
        TrayTemp::Actual
    }
}

/// Unit in which temperatures are shown.
#[derive(Debug, Clone, Copy, PartialEq, Eq, Structural)]
pub enum TempUnit {
    Celsius,
    Fahrenheit,
}

impl Default for TempUnit {
    fn default() -> (r: Self)
        ensures
            r == TempUnit::Celsius,
    {
        TempUnit::Celsius
    }
}

/// How often the weather is fetched again.
#[derive(Debug, Clone, Copy, PartialEq, Eq, Structural)]
pub enum RefreshInterval {
    Min15,
    Min30,
    Min60,
}

impl Default for RefreshInterval {
    fn default() -> (r: Self)
        ensures
            r == RefreshInterval::Min30,
    {
        RefreshInterval::Min30
    }
}

/// The number of minutes an interval stands for.
pub open spec fn interval_minutes(iv: RefreshInterval) -> nat {
    match iv {
        RefreshInterval::Min15 => 15,
        RefreshInterval::Min30 => 30,
        RefreshInterval::Min60 => 60,
    }
}

/// The label an interval is shown under.
pub open spec fn interval_label(iv: RefreshInterval) -> Seq<char> {
    match iv {
        RefreshInterval::Min15 => "15 хв"@,
        RefreshInterval::Min30 => "30 хв"@,
        RefreshInterval::Min60 => "60 хв"@,
    }
}

/// Every interval, in the order in which the settings offer them.
pub open spec fn all_intervals() -> Seq<RefreshInterval> {
    seq![RefreshInterval::Min15, RefreshInterval::Min30, RefreshInterval::Min60]
}

impl RefreshInterval {
    pub fn minutes(self) -> (r: u64)
        ensures
            r == interval_minutes(self),
    {
        match self {
            RefreshInterval::Min15 => 15,
            RefreshInterval::Min30 => 30,
            RefreshInterval::Min60 => 60,
        }
    }

    pub fn label(self) -> (r: &'static str)
        ensures
            r@ == interval_label(self),
    {
        match self {
            RefreshInterval::Min15 => "15 хв",
            RefreshInterval::Min30 => "30 хв",
            RefreshInterval::Min60 => "60 хв",
        }
    }

    pub fn all() -> (r: &'static [Self])
        ensures
            r@ == all_intervals(),
    {
        &[RefreshInterval::Min15, RefreshInterval::Min30, RefreshInterval::Min60]
    }
}


/// The settings offer every interval, each once.
pub proof fn law_all_intervals_offered(iv: RefreshInterval)
    ensures
        all_intervals().contains(iv),
        all_intervals().len() == 3,
        forall|i: int, j: int|
            0 <= i < j < 3 ==> all_intervals()[i] != all_intervals()[j],
{
    match iv {
        RefreshInterval::Min15 => assert(all_intervals()[0] == iv),
        RefreshInterval::Min30 => assert(all_intervals()[1] == iv),
        RefreshInterval::Min60 => assert(all_intervals()[2] == iv),
    }
}

/// Intervals are 15, 30 or 60 minutes, distinct intervals last differently long,
/// and each is labelled with its number of minutes.
pub proof fn law_interval_minutes(a: RefreshInterval, b: RefreshInterval)
    ensures
        interval_minutes(a) == 15 || interval_minutes(a) == 30 || interval_minutes(a) == 60,
        a != b ==> interval_minutes(a) != interval_minutes(b),
        interval_label(a) == crate::text::decimal(interval_minutes(a)) + " хв"@,
{
    reveal_with_fuel(crate::text::decimal, 2);
    reveal_strlit("15 хв");
    reveal_strlit("30 хв");
    reveal_strlit("60 хв");
    reveal_strlit(" хв");
    assert(interval_label(a) =~= crate::text::decimal(interval_minutes(a)) + " хв"@);
}

/// The application settings.
#[derive(Debug, Clone)]
pub struct Config<T> {
    pub city_name: String,
    pub latitude: T,
    pub longitude: T,
    pub tray_temp: TrayTemp,
    pub refresh_interval: RefreshInterval,
    pub temp_unit: TempUnit,
}

impl<T> Config<T> {
    /// First-run settings for a detected location; every choice at its default.
    pub fn for_location(loc: IpLocation<T>) -> (r: Config<T>)
        ensures
            r.city_name@ == loc.city@,
            r.latitude == loc.lat,
            r.longitude == loc.lon,
            r.tray_temp == TrayTemp::Actual,
            r.refresh_interval == RefreshInterval::Min30,
            r.temp_unit == TempUnit::Celsius,
    {
        Config {
            city_name: loc.city,
            latitude: loc.lat,
            longitude: loc.lon,
            tray_temp: TrayTemp::default(),
            refresh_interval: RefreshInterval::default(),
            temp_unit: TempUnit::default(),
        }
    }

    /// The settings with a newly chosen city; the other choices stay.
    pub fn with_city(&self, city: &GeoResult<T>) -> (r: Config<T>)
        where T: Copy,
        ensures
            r.city_name@ == city.name@,
            r.latitude == city.latitude,
            r.longitude == city.longitude,
            r.tray_temp == self.tray_temp,
            r.refresh_interval == self.refresh_interval,
            r.temp_unit == self.temp_unit,
    {
        Config {
            city_name: city.name.clone(),
            latitude: city.latitude,
            longitude: city.longitude,
            tray_temp: self.tray_temp,
            refresh_interval: self.refresh_interval,
            temp_unit: self.temp_unit,
        }
    }
}

} // verus!
