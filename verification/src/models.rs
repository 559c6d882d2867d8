//! The service's data: telemetry samples, history ranges, nodes, and the
//! request and response bodies of the HTTP API.
use vstd::prelude::*;

use crate::text::str_equal;
use crate::time::{Timestamp, seconds_delta, time_delta_seconds};

verus! {

/// One telemetry snapshot of a node.
///
/// The CPU usage, a percentage in `f32`, travels as its IEEE-754 bit pattern
/// (`f32::to_bits`); nothing here computes with it.
#[derive(Clone, Copy, Debug, PartialEq, Eq, Structural)]
pub struct SystemMetrics {
    pub timestamp: Timestamp,
    pub cpu_usage_bits: u32,
    pub memory_used: u64,
    pub memory_total: u64,
    pub disk_used: u64,
    pub disk_total: u64,
    pub network_received: u64,
    pub network_transmitted: u64,
}

/// Supported historical time ranges for telemetry queries.
#[derive(Clone, Copy, Debug, PartialEq, Eq, Structural)]
pub enum MetricsRange {
    FiveMinutes,
    FifteenMinutes,
    ThirtyMinutes,
    OneHour,
    SixHours,
    TwelveHours,
    TwentyFourHours,
    SevenDays,
}

impl MetricsRange {
    /// Supported range error message string.
    pub const INVALID_RANGE_MESSAGE: &'static str =
        "Supported ranges are 5m, 15m, 30m, 1h, 6h, 12h, 24h, and 7d";

    /// The text that names the range in queries and responses.
    pub open spec fn text(self) -> Seq<char> {
        match self {
            MetricsRange::FiveMinutes => seq!['5', 'm'],
            MetricsRange::FifteenMinutes => seq!['1', '5', 'm'],
            MetricsRange::ThirtyMinutes => seq!['3', '0', 'm'],
            MetricsRange::OneHour => seq!['1', 'h'],
            MetricsRange::SixHours => seq!['6', 'h'],
            MetricsRange::TwelveHours => seq!['1', '2', 'h'],
            MetricsRange::TwentyFourHours => seq!['2', '4', 'h'],
            MetricsRange::SevenDays => seq!['7', 'd'],
        }
    }

    /// The range that the text `s` names, if any: exactly one of the eight
    /// texts, with no other characters around it.
    pub open spec fn from_text(s: Seq<char>) -> Option<MetricsRange> {
        if s == seq!['5', 'm'] {
            Some(MetricsRange::FiveMinutes)
        } else if s == seq!['1', '5', 'm'] {
            Some(MetricsRange::FifteenMinutes)
        } else if s == seq!['3', '0', 'm'] {
            Some(MetricsRange::ThirtyMinutes)
        } else if s == seq!['1', 'h'] {
            Some(MetricsRange::OneHour)
        } else if s == seq!['6', 'h'] {
            Some(MetricsRange::SixHours)
        } else if s == seq!['1', '2', 'h'] {
            Some(MetricsRange::TwelveHours)
        } else if s == seq!['2', '4', 'h'] {
            Some(MetricsRange::TwentyFourHours)
        } else if s == seq!['7', 'd'] {
            Some(MetricsRange::SevenDays)
        } else {
            None
        }
    }

    /// The length of the range in seconds.
    pub open spec fn seconds(self) -> i64 {
        match self {
            MetricsRange::FiveMinutes => 300,
            MetricsRange::FifteenMinutes => 900,
            MetricsRange::ThirtyMinutes => 1800,
            MetricsRange::OneHour => 3600,
            MetricsRange::SixHours => 21600,
            MetricsRange::TwelveHours => 43200,
            MetricsRange::TwentyFourHours => 86400,
            MetricsRange::SevenDays => 604800,
        }
    }

    /// Parse a string slice into a `MetricsRange`.
    pub fn parse(input: &str) -> (r: Result<Self, &'static str>)
        ensures
            r == (match Self::from_text(input@) {
                Some(v) => Ok(v),
                None => Err(Self::INVALID_RANGE_MESSAGE),
            }),
    {
        proof {
            reveal_strlit("5m");
            reveal_strlit("15m");
            reveal_strlit("30m");
            reveal_strlit("1h");
            reveal_strlit("6h");
            reveal_strlit("12h");
            reveal_strlit("24h");
            reveal_strlit("7d");
            assert("5m"@ =~= seq!['5', 'm']);
            assert("15m"@ =~= seq!['1', '5', 'm']);
            assert("30m"@ =~= seq!['3', '0', 'm']);
            assert("1h"@ =~= seq!['1', 'h']);
            assert("6h"@ =~= seq!['6', 'h']);
            assert("12h"@ =~= seq!['1', '2', 'h']);
            assert("24h"@ =~= seq!['2', '4', 'h']);
            assert("7d"@ =~= seq!['7', 'd']);
        }
        if str_equal(input, "5m") {
            Ok(MetricsRange::FiveMinutes)
        } else if str_equal(input, "15m") {
            Ok(MetricsRange::FifteenMinutes)
        } else if str_equal(input, "30m") {
            Ok(MetricsRange::ThirtyMinutes)
        } else if str_equal(input, "1h") {
            Ok(MetricsRange::OneHour)
        } else if str_equal(input, "6h") {
            Ok(MetricsRange::SixHours)
        } else if str_equal(input, "12h") {
            Ok(MetricsRange::TwelveHours)
        } else if str_equal(input, "24h") {
            Ok(MetricsRange::TwentyFourHours)
        } else if str_equal(input, "7d") {
            Ok(MetricsRange::SevenDays)
        } else {
            Err(Self::INVALID_RANGE_MESSAGE)
        }
    }

    /// Return string representation of the range.
    pub fn as_str(&self) -> (s: &'static str)
        ensures
            s@ == self.text(),
    {
        proof {
            reveal_strlit("5m");
            reveal_strlit("15m");
            reveal_strlit("30m");
            reveal_strlit("1h");
            reveal_strlit("6h");
            reveal_strlit("12h");
            reveal_strlit("24h");
            reveal_strlit("7d");
        }
        match self {
            MetricsRange::FiveMinutes => {
                assert("5m"@ =~= seq!['5', 'm']);
                "5m"
            },
            MetricsRange::FifteenMinutes => {
                assert("15m"@ =~= seq!['1', '5', 'm']);
                "15m"
            },
            MetricsRange::ThirtyMinutes => {
                assert("30m"@ =~= seq!['3', '0', 'm']);
                "30m"
            },
            MetricsRange::OneHour => {
                assert("1h"@ =~= seq!['1', 'h']);
                "1h"
            },
            MetricsRange::SixHours => {
                assert("6h"@ =~= seq!['6', 'h']);
                "6h"
            },
            MetricsRange::TwelveHours => {
                assert("12h"@ =~= seq!['1', '2', 'h']);
                "12h"
            },
            MetricsRange::TwentyFourHours => {
                assert("24h"@ =~= seq!['2', '4', 'h']);
                "24h"
            },
            MetricsRange::SevenDays => {
                assert("7d"@ =~= seq!['7', 'd']);
                "7d"
            },
        }
    }

    /// The range's text as an owned string (what `Display` writes).
    pub fn to_string(&self) -> (s: String)
        ensures
            s@ == self.text(),
    {
        String::from_str(self.as_str())
    }

    /// The length of the range in whole seconds.
    pub fn duration_secs(&self) -> (secs: i64)
        ensures
            secs == self.seconds(),
    {
        match self {
            MetricsRange::FiveMinutes => 300,
            MetricsRange::FifteenMinutes => 900,
            MetricsRange::ThirtyMinutes => 1800,
            MetricsRange::OneHour => 3600,
            MetricsRange::SixHours => 21600,
            MetricsRange::TwelveHours => 43200,
            MetricsRange::TwentyFourHours => 86400,
            MetricsRange::SevenDays => 604800,
        }
    }

    /// Convert range into a chrono Duration.
    pub fn duration(&self) -> (d: chrono::TimeDelta)
        ensures
            d == seconds_delta(self.seconds()),
    {
        time_delta_seconds(self.duration_secs())
    }
}

impl std::str::FromStr for MetricsRange {
    type Err = &'static str;

    fn from_str(s: &str) -> (r: Result<Self, Self::Err>)
        ensures
            r == (match Self::from_text(s@) {
                Some(v) => Ok(v),
                None => Err(Self::INVALID_RANGE_MESSAGE),
            }),
    {
        Self::parse(s)
    }
}

/// Parsing the text of a range gives that range back.
pub proof fn lemma_parse_text_roundtrip(r: MetricsRange)
    ensures
        MetricsRange::from_text(r.text()) == Some(r),
{
    let t = r.text();
    assert(t.len() >= 2);
    assert(seq!['5', 'm'].len() == 2);
    match r {
        MetricsRange::FiveMinutes => {},
        MetricsRange::FifteenMinutes => {
            assert(t[0] != '5');
            assert(t != seq!['5', 'm']);
        },
        MetricsRange::ThirtyMinutes => {
            assert(t != seq!['5', 'm'] && t != seq!['1', '5', 'm']) by {
                assert(t[0] == '3');
            }
        },
        MetricsRange::OneHour => {
            assert(t[1] == 'h');
        },
        MetricsRange::SixHours => {
            assert(t[0] == '6' && t[1] == 'h');
        },
        MetricsRange::TwelveHours => {
            assert(t[1] == '2');
        },
        MetricsRange::TwentyFourHours => {
            assert(t[0] == '2');
        },
        MetricsRange::SevenDays => {
            assert(t[0] == '7');
        },
    }
}

/// A text that parses names the range that it parses to, and no other text
/// does: parsing accepts exactly the eight range texts.
pub proof fn lemma_parse_accepts_only_texts(s: Seq<char>)
    ensures
        MetricsRange::from_text(s) matches Some(r) ==> s == r.text(),
        (exists|r: MetricsRange| s == r.text()) ==> MetricsRange::from_text(s) is Some,
{
    if exists|r: MetricsRange| s == r.text() {
        let r = choose|r: MetricsRange| s == r.text();
        lemma_parse_text_roundtrip(r);
    }
}

/// Two ranges with the same text are the same range.
pub proof fn lemma_text_injective(a: MetricsRange, b: MetricsRange)
    ensures
        a.text() == b.text() ==> a == b,
{
    lemma_parse_text_roundtrip(a);
    lemma_parse_text_roundtrip(b);
}

/// Query parameters for GET /api/metrics/history.
#[derive(Clone, Debug, Default)]
pub struct HistoryQueryParams {
    pub range: Option<String>,
}

/// Response payload for GET /api/metrics/history.
#[derive(Clone, Debug)]
pub struct HistoricalMetricsResponse {
    pub range: String,
    pub start_time: Timestamp,
    pub end_time: Timestamp,
    pub count: usize,
    pub metrics: Vec<SystemMetrics>,
}

/// Consistent JSON error response format.
#[derive(Clone, Debug)]
pub struct ErrorResponse {
    pub error: String,
    pub message: String,
}

/// A registered node; its status is `online` or `offline`, computed when it
/// is read.
#[derive(Clone, Debug)]
pub struct Node {
    pub node_id: String,
    pub hostname: String,
    pub os: String,
    pub architecture: String,
    pub agent_version: String,
    pub status: String,
    pub last_seen: Timestamp,
    pub created_at: Timestamp,
    pub updated_at: Timestamp,
}

/// What an agent sends to register its node.
#[derive(Clone, Debug)]
pub struct RegisterNodeRequest {
    pub node_id: String,
    pub hostname: String,
    pub os: String,
    pub architecture: String,
    pub agent_version: String,
}

/// A telemetry snapshot sent by an agent for its node.
#[derive(Clone, Debug)]
pub struct TelemetryPayload {
    pub node_id: String,
    pub metrics: SystemMetrics,
}


/// Each range's text is a count and a unit (`m` minutes, `h` hours, `d`
/// days), and the range lasts that many units.
pub proof fn lemma_text_is_count_and_unit(r: MetricsRange)
    ensures
        ({
            let t = r.text();
            let unit = t.last();
            let count = crate::numbers::digits_value(t.drop_last());
            &&& t.len() >= 2
            &&& crate::numbers::all_digits(t.drop_last())
            &&& (unit == 'm' || unit == 'h' || unit == 'd')
            &&& r.seconds() == count * (if unit == 'm' {
                60int
            } else if unit == 'h' {
                3600int
            } else {
                86400int
            })
        }),
{
    let t = r.text();
    let n = t.drop_last();
    match r {
        MetricsRange::FiveMinutes => {
            assert(n =~= seq!['5']);
            crate::numbers::lemma_short_digits_value('5', '5');
        },
        MetricsRange::FifteenMinutes => {
            assert(n =~= seq!['1', '5']);
            crate::numbers::lemma_short_digits_value('1', '5');
        },
        MetricsRange::ThirtyMinutes => {
            assert(n =~= seq!['3', '0']);
            crate::numbers::lemma_short_digits_value('3', '0');
        },
        MetricsRange::OneHour => {
            assert(n =~= seq!['1']);
            crate::numbers::lemma_short_digits_value('1', '1');
        },
        MetricsRange::SixHours => {
            assert(n =~= seq!['6']);
            crate::numbers::lemma_short_digits_value('6', '6');
        },
        MetricsRange::TwelveHours => {
            assert(n =~= seq!['1', '2']);
            crate::numbers::lemma_short_digits_value('1', '2');
        },
        MetricsRange::TwentyFourHours => {
            assert(n =~= seq!['2', '4']);
            crate::numbers::lemma_short_digits_value('2', '4');
        },
        MetricsRange::SevenDays => {
            assert(n =~= seq!['7']);
            crate::numbers::lemma_short_digits_value('7', '7');
        },
    }
}

} // verus!
