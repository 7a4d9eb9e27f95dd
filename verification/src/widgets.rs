//! Widget bookkeeping that the render loop relies on: which togglable
//! windows are open, and the cached state of the sun & moon display.
//!
//! Rendering itself — windows, charts, colors — belongs to the embedding
//! application; this module keeps the data those renderers read.

use vstd::prelude::*;

verus! {

/// The togglable data widgets of the weather view.
#[derive(Clone, Copy, Debug, PartialEq, Eq, Structural)]
pub enum WidgetKind {
    /// The hourly/daily temperature chart.
    Temperature,
    /// The current-conditions table.
    Current,
    /// The sun & moon arc.
    SunMoon,
}

/// Which widgets are currently shown.
#[derive(Clone, Copy, Debug, PartialEq, Eq, Structural)]
pub struct OpenWidgets {
    pub temperature: bool,
    pub current: bool,
    pub sun_moon: bool,
}

impl OpenWidgets {
    /// Whether the given widget is shown.
    pub open spec fn contains_kind(self, kind: WidgetKind) -> bool {
        match kind {
            WidgetKind::Temperature => self.temperature,
            WidgetKind::Current => self.current,
            WidgetKind::SunMoon => self.sun_moon,
        }
    }

    /// The shown widgets, as a set.
    pub open spec fn as_set(self) -> Set<WidgetKind> {
        Set::new(|kind: WidgetKind| self.contains_kind(kind))
    }

    /// All widgets hidden.
    pub fn new() -> (r: Self)
        ensures
            r.as_set() == Set::<WidgetKind>::empty(),
    {
        let r = OpenWidgets { temperature: false, current: false, sun_moon: false };
        proof {
            assert(r.as_set() =~= Set::<WidgetKind>::empty());
        }
        r
    }

    /// Whether the given widget is shown.
    pub fn contains(&self, kind: WidgetKind) -> (r: bool)
        ensures
            r == self.contains_kind(kind),
    {
        match kind {
            WidgetKind::Temperature => self.temperature,
            WidgetKind::Current => self.current,
            WidgetKind::SunMoon => self.sun_moon,
        }
    }
}

/// Record whether one widget is open: inserts the key when `is_open`,
/// removes it otherwise, leaving every other widget as it was.
pub fn set_open(open: &mut OpenWidgets, key: WidgetKind, is_open: bool)
    ensures
        final(open).contains_kind(key) == is_open,
        forall|k: WidgetKind| k != key ==> final(open).contains_kind(k) == old(
            open,
        ).contains_kind(k),
        final(open).as_set() == if is_open {
            old(open).as_set().insert(key)
        } else {
            old(open).as_set().remove(key)
        },
{
    match key {
        WidgetKind::Temperature => {
            open.temperature = is_open;
        },
        WidgetKind::Current => {
            open.current = is_open;
        },
        WidgetKind::SunMoon => {
            open.sun_moon = is_open;
        },
    }
    proof {
        if is_open {
            assert(open.as_set() =~= old(open).as_set().insert(key));
        } else {
            assert(open.as_set() =~= old(open).as_set().remove(key));
        }
    }
}

/// The sun-related fields of the first daily forecast entry.
#[derive(Clone, Copy, Debug, PartialEq, Eq, Structural)]
pub struct SunTimes {
    /// Unix time of today's sunrise, when the provider reports one.
    pub sunrise_time: Option<i64>,
    /// Unix time of today's sunset, when the provider reports one.
    pub sunset_time: Option<i64>,
    /// Unix time the daily entry refers to.
    pub time: i64,
}

/// Cached state of the sun & moon widget: everything its renderer needs,
/// captured once per completed fetch.
#[derive(Clone, Copy, Debug, PartialEq, Eq, Structural)]
pub struct SunMoon {
    /// Unix time of today's sunrise.
    pub sunrise: Option<i64>,
    /// Unix time of today's sunset.
    pub sunset: Option<i64>,
    /// Timezone offset from UTC, in hours.
    pub offset: i64,
    /// Unix time the cached daily entry refers to.
    pub now: i64,
}

impl Default for SunMoon {
    fn default() -> (r: Self)
        ensures
            r.sunrise is None,
            r.sunset is None,
            r.offset == 0,
            r.now == 0,
    {
        SunMoon { sunrise: None, sunset: None, offset: 0, now: 0 }
    }
}

impl SunMoon {
    /// Name of the widget.
    pub fn name(&self) -> (r: &'static str)
        ensures
            r@ == "sun & moon"@,
    {
        "sun & moon"
    }

    /// Take what the widget needs from the latest weather data and cache
    /// it: the timezone offset always, and the sun times whenever a daily
    /// forecast entry is present — otherwise the previous times are kept.
    pub fn update_data(&mut self, offset: i64, today: Option<SunTimes>)
        ensures
            final(self).offset == offset,
            today matches Some(t) ==> {
                &&& final(self).sunrise == t.sunrise_time
                &&& final(self).sunset == t.sunset_time
                &&& final(self).now == t.time
            },
            today is None ==> {
                &&& final(self).sunrise == old(self).sunrise
                &&& final(self).sunset == old(self).sunset
                &&& final(self).now == old(self).now
            },
    {
        self.offset = offset;
        if let Some(t) = today {
            self.sunrise = t.sunrise_time;
            self.sunset = t.sunset_time;
            self.now = t.time;
        }
    }
}

} // verus!
