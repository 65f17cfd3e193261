//! The run's configuration: the scan window, given as a human-readable
//! duration such as `10s` or `2m`.
use vstd::prelude::*;
use crate::text::decimal;

verus! {

/// Seconds in the scan window when none is given.
pub const DEFAULT_SCAN_SECS: u64 = 10;

/// A scan window: whole seconds plus nanoseconds below one second.
#[derive(Clone, Copy, Debug, PartialEq, Eq, Structural)]
pub struct ScanLength {
    pub secs: u64,
    pub nanos: u32,
}

/// The run's configuration.
#[derive(Clone, Copy, Debug, PartialEq, Eq, Structural)]
pub struct Cli {
    pub scan_length: ScanLength,
}

/// What `duration-string` parses a text to, as whole seconds and
/// subsecond nanoseconds, or `None` where it refuses the text.
pub uninterp spec fn duration_of(s: Seq<char>) -> Option<(u64, u32)>;

/// Relies on `duration_string::DurationString::from_string` and its
/// conversion into `std::time::Duration`, read out with `as_secs` and
/// `subsec_nanos` (below one billion); a refusal gives that crate's message.
#[verifier::external_body]
fn parse_duration(s: &str) -> (r: Result<(u64, u32), String>)
    ensures
        r is Ok <==> duration_of(s@) is Some,
        r matches Ok(d) ==> duration_of(s@) == Some(d) && d.1 < 1_000_000_000,
{
    match duration_string::DurationString::from_string(s.to_string()) {
        Ok(d) => {
            let d: std::time::Duration = d.into();
            Ok((d.as_secs(), d.subsec_nanos()))
        },
        Err(e) => Err(e.to_string()),
    }
}

/// Nanoseconds in one of the units `y`, `w`, `d`, `h` and `m`; one second
/// for any other character.
pub open spec fn ns_per(unit: char) -> nat {
    if unit == 'y' {
        31_556_926_000_000_000
    } else if unit == 'w' {
        604_800_000_000_000
    } else if unit == 'd' {
        86_400_000_000_000
    } else if unit == 'h' {
        3_600_000_000_000
    } else if unit == 'm' {
        60_000_000_000
    } else {
        1_000_000_000
    }
}

/// The text of a duration of `ns` nanoseconds: its count in the largest
/// unit that divides it exactly, then the unit.
pub open spec fn duration_text(ns: nat) -> Seq<char> {
    if ns % ns_per('y') == 0 {
        decimal(ns / ns_per('y')) + "y"@
    } else if ns % ns_per('w') == 0 {
        decimal(ns / ns_per('w')) + "w"@
    } else if ns % ns_per('d') == 0 {
        decimal(ns / ns_per('d')) + "d"@
    } else if ns % ns_per('h') == 0 {
        decimal(ns / ns_per('h')) + "h"@
    } else if ns % ns_per('m') == 0 {
        decimal(ns / ns_per('m')) + "m"@
    } else if ns % 1_000_000_000 == 0 {
        decimal(ns / 1_000_000_000) + "s"@
    } else if ns % 1_000_000 == 0 {
        decimal(ns / 1_000_000) + "ms"@
    } else if ns % 1_000 == 0 {
        decimal(ns / 1_000) + "us"@
    } else {
        decimal(ns) + "ns"@
    }
}

/// Relies on `duration_string`'s conversion of a `DurationString` into a
/// `String` (the `Display` of `DurationString` writes the same text).
#[verifier::external_body]
fn format_duration(secs: u64, nanos: u32) -> (r: String)
    requires
        nanos < 1_000_000_000,
    ensures
        r@ == duration_text(secs as nat * 1_000_000_000 + nanos as nat),
{
    String::from(duration_string::DurationString::from(std::time::Duration::new(secs, nanos)))
}

impl ScanLength {
    pub open spec fn wf(&self) -> bool {
        self.nanos < 1_000_000_000
    }

    /// The window's length in nanoseconds.
    pub open spec fn total_nanos(&self) -> nat {
        self.secs as nat * 1_000_000_000 + self.nanos as nat
    }

    /// The window used when none is given.
    pub fn default_window() -> (r: ScanLength)
        ensures
            r.wf(),
            r.secs == DEFAULT_SCAN_SECS && r.nanos == 0,
    {
        ScanLength { secs: DEFAULT_SCAN_SECS, nanos: 0 }
    }

    /// The window as text, such as `10s` or `2m`.
    pub fn to_text(&self) -> (r: String)
        requires
            self.wf(),
        ensures
            r@ == duration_text(self.total_nanos()),
    {
        format_duration(self.secs, self.nanos)
    }
}

/// Parses a scan window such as `10s`, `2m` or `1m30s`.
pub fn parse_scan_length(arg: &str) -> (r: Result<ScanLength, String>)
    ensures
        r is Ok <==> duration_of(arg@) is Some,
        r matches Ok(l) ==> l.wf() && duration_of(arg@) == Some((l.secs, l.nanos)),
{
    let (secs, nanos) = parse_duration(arg)?;
    Ok(ScanLength { secs, nanos })
}

/// Builds the configuration from the text of the scan-length option, if it
/// was given; without it the window is ten seconds.
pub fn parse(scan_length: Option<&str>) -> (r: Result<Cli, String>)
    ensures
        match scan_length {
            None => r == Ok::<Cli, String>(
                Cli { scan_length: ScanLength { secs: DEFAULT_SCAN_SECS, nanos: 0 } },
            ),
            Some(s) => (r is Ok <==> duration_of(s@) is Some) && (r matches Ok(c) ==> c.scan_length.wf()
                && duration_of(s@) == Some((c.scan_length.secs, c.scan_length.nanos))),
        },
{
    match scan_length {
        None => Ok(Cli { scan_length: ScanLength::default_window() }),
        Some(s) => {
            let l = parse_scan_length(s)?;
            Ok(Cli { scan_length: l })
        },
    }
}

} // verus!
