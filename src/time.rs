//! The local time source.

use vstd::prelude::*;
use vstd::string::*;
use crate::text::{two_digit_text, two_digits};

verus! {

broadcast use vstd::string::group_string_axioms;

#[verifier::external_type_specification]
#[verifier::external_body]
pub struct ExTz(chrono_tz::Tz);

/// Whether the IANA database that chrono-tz carries holds a zone of this name.
pub uninterp spec fn tz_known(name: Seq<char>) -> bool;

/// Relies on chrono-tz's `FromStr for Tz`, a lookup of the name in its zone table.
#[verifier::external_body]
fn parse_timezone(name: &str) -> (r: Option<chrono_tz::Tz>)
    ensures
        r is Some == tz_known(name@),
{
    name.parse::<chrono_tz::Tz>().ok()
}

/// Relies on chrono::Local::now: the hour (0 to 23) and minute (0 to 59) of the
/// local time now.
#[verifier::external_body]
fn local_clock() -> (r: (u32, u32))
    ensures
        r.0 < 24,
        r.1 < 60,
{
    let now = chrono::Local::now();
    (chrono::Timelike::hour(&now), chrono::Timelike::minute(&now))
}

/// Relies on chrono's `with_timezone`: the hour (0 to 23) and minute (0 to 59)
/// now in the zone `tz`.
#[verifier::external_body]
fn zoned_clock(tz: &chrono_tz::Tz) -> (r: (u32, u32))
    ensures
        r.0 < 24,
        r.1 < 60,
{
    let now = chrono::Local::now().with_timezone(tz);
    (chrono::Timelike::hour(&now), chrono::Timelike::minute(&now))
}

/// Settings of the time source.
#[derive(Clone, Debug)]
pub struct TimeConfig {
    pub enabled: bool,
    pub show_my_time_prefix: bool,
    pub use_24_hour: bool,
    pub use_system_culture: bool,
    pub auto_dst: bool,
    /// An IANA zone name; the local zone when `None`.
    pub custom_timezone: Option<String>,
}

#[derive(Clone, Debug)]
pub struct TimeOptions {
    pub config: TimeConfig,
}

/// The hour on a 12-hour dial: 12 for midnight and noon.
pub open spec fn hour12(hour: nat) -> nat {
    if hour % 12 == 0 {
        12
    } else {
        hour % 12
    }
}

/// The time as `HH:MM`, or as `hh:MM AM` / `hh:MM PM` on the 12-hour dial.
pub open spec fn clock_text(hour: nat, minute: nat, use_24_hour: bool) -> Seq<char> {
    if use_24_hour {
        two_digits(hour) + seq![':'] + two_digits(minute)
    } else {
        two_digits(hour12(hour)) + seq![':'] + two_digits(minute) + seq![' '] + if hour < 12 {
            seq!['A', 'M']
        } else {
            seq!['P', 'M']
        }
    }
}

/// The prefix `"My time: "`.
pub open spec fn my_time_prefix() -> Seq<char> {
    seq!['M', 'y', ' ', 't', 'i', 'm', 'e', ':', ' ']
}

/// The time text for a clock reading: a custom zone that is not known falls
/// back to the 24-hour form; the prefix is added when it is on.
pub open spec fn time_text(config: TimeConfig, zone_known: bool, hour: nat, minute: nat) -> Seq<char> {
    let h24 = config.use_24_hour || (config.custom_timezone is Some && !zone_known);
    let t = clock_text(hour, minute, h24);
    if config.show_my_time_prefix {
        my_time_prefix() + t
    } else {
        t
    }
}

/// Whether a custom zone is set and known.
pub open spec fn zone_found(config: TimeConfig) -> bool {
    config.custom_timezone matches Some(z) && tz_known(z@)
}

/// The time source; it holds no state.
pub struct TimeModule;

impl TimeModule {
    /// The time text for the reading `hour:minute`; `zone_known` says whether the
    /// custom zone, if one is set, was found.
    pub fn format_time(options: &TimeOptions, zone_known: bool, hour: u32, minute: u32) -> (r: String)
        requires
            hour < 24,
            minute < 60,
        ensures
            r@ == time_text(options.config, zone_known, hour as nat, minute as nat),
    {
        let h24 = options.config.use_24_hour || (options.config.custom_timezone.is_some() && !zone_known);
        proof {
            reveal_strlit(":");
            reveal_strlit(" AM");
            reveal_strlit(" PM");
            reveal_strlit("My time: ");
        }
        let mut t = if h24 {
            two_digit_text(hour)
        } else {
            let h = if hour % 12 == 0 {
                12
            } else {
                hour % 12
            };
            two_digit_text(h)
        };
        t.append(":");
        let m = two_digit_text(minute);
        t.append(m.as_str());
        if !h24 {
            if hour < 12 {
                t.append(" AM");
            } else {
                t.append(" PM");
            }
        }
        assert(t@ =~= clock_text(hour as nat, minute as nat, h24));
        if options.config.show_my_time_prefix {
            let p = String::from_str("My time: ");
            let r = p.concat(t.as_str());
            assert(r@ =~= my_time_prefix() + clock_text(hour as nat, minute as nat, h24));
            r
        } else {
            t
        }
    }

    /// The time now, in the custom zone when one is set.
    pub fn get_local_time(options: &TimeOptions) -> (r: String)
        ensures
            exists|hour: nat, minute: nat|
                hour < 24 && minute < 60 && r@ == #[trigger] time_text(
                    options.config,
                    zone_found(options.config),
                    hour,
                    minute,
                ),
    {
        match &options.config.custom_timezone {
            Some(name) => match parse_timezone(name.as_str()) {
                Some(tz) => {
                    let (h, m) = zoned_clock(&tz);
                    let r = Self::format_time(options, true, h, m);
                    assert(r@ == time_text(options.config, zone_found(options.config), h as nat, m as nat));
                    r
                },
                None => {
                    let (h, m) = local_clock();
                    let r = Self::format_time(options, false, h, m);
                    assert(r@ == time_text(options.config, zone_found(options.config), h as nat, m as nat));
                    r
                },
            },
            None => {
                let (h, m) = local_clock();
                let r = Self::format_time(options, false, h, m);
                assert(r@ == time_text(options.config, zone_found(options.config), h as nat, m as nat));
                r
            },
        }
    }
}

} // verus!
