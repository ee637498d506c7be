use vstd::prelude::*;
use crate::run::RunError;

verus! {

/// Where the manifest is written, relative to the working directory.
pub open spec fn manifest_path_text() -> Seq<char> {
    "./_stitcher_tmp_.txt"@
}

/// The `strftime` pattern of the timestamp in a default output name: day,
/// abbreviated month, year, hours and minutes.
pub open spec fn stamp_pattern() -> Seq<char> {
    "%d-%h-%Y %H:%M"@
}

/// The arguments that make the tool join the files listed in the manifest at
/// `manifest` into `output`: overwrite without asking, no video, the concat
/// demuxer, paths outside the tool's safe set allowed, the manifest as input,
/// streams copied without re-encoding, then the destination.
pub open spec fn tool_args(manifest: Seq<char>, output: Seq<char>) -> Seq<Seq<char>> {
    seq![
        "-y"@,
        "-vn"@,
        "-f"@,
        "concat"@,
        "-safe"@,
        "0"@,
        "-i"@,
        manifest,
        "-c"@,
        "copy"@,
        output,
    ]
}

/// The output name used when none is given, around a timestamp.
pub open spec fn default_name(stamp: Seq<char>) -> Seq<char> {
    "STITCH_OUTPUT_"@ + stamp + ".wav"@
}

/// The path of the manifest file.
pub fn manifest_path() -> (r: String)
    ensures
        r@ == manifest_path_text(),
{
    String::from_str("./_stitcher_tmp_.txt")
}

/// The arguments for the tool, as `tool_args` gives them.
pub fn tool_arguments(manifest: &str, output: &str) -> (r: Vec<String>)
    ensures
        r.deep_view() == tool_args(manifest@, output@),
{
    let mut r: Vec<String> = Vec::new();
    r.push(String::from_str("-y"));
    r.push(String::from_str("-vn"));
    r.push(String::from_str("-f"));
    r.push(String::from_str("concat"));
    r.push(String::from_str("-safe"));
    r.push(String::from_str("0"));
    r.push(String::from_str("-i"));
    r.push(String::from_str(manifest));
    r.push(String::from_str("-c"));
    r.push(String::from_str("copy"));
    r.push(String::from_str(output));
    assert(r.deep_view() =~= tool_args(manifest@, output@));
    r
}

/// The default output name for the timestamp `stamp`.
pub fn default_output_name(stamp: &str) -> (r: String)
    ensures
        r@ == default_name(stamp@),
{
    let mut r = String::from_str("STITCH_OUTPUT_");
    r.append(stamp);
    r.append(".wav");
    r
}

/// The timestamp that chrono writes, by the stamp pattern, for the wall-clock
/// time `local_secs` seconds after 1970-01-01 00:00; `None` where chrono holds
/// no date for it.
pub uninterp spec fn stamp_of(local_secs: int) -> Option<Seq<char>>;

pub open spec fn is_digit(c: char) -> bool {
    '0' <= c && c <= '9'
}

/// An abbreviated English month name.
pub open spec fn is_month_abbrev(m: Seq<char>) -> bool {
    ||| m == "Jan"@
    ||| m == "Feb"@
    ||| m == "Mar"@
    ||| m == "Apr"@
    ||| m == "May"@
    ||| m == "Jun"@
    ||| m == "Jul"@
    ||| m == "Aug"@
    ||| m == "Sep"@
    ||| m == "Oct"@
    ||| m == "Nov"@
    ||| m == "Dec"@
}

/// The shape of a timestamp to the minute, `DD-Mon-YYYY HH:MM`: two digits of
/// day, a month name, a year of at least four characters, then hours and
/// minutes of two digits each.
pub open spec fn minute_stamp(s: Seq<char>) -> bool {
    let n = s.len() as int;
    &&& n >= 17
    &&& is_digit(s[0]) && is_digit(s[1]) && s[2] == '-'
    &&& is_month_abbrev(s.subrange(3, 6))
    &&& s[6] == '-'
    &&& s[n - 6] == ' ' && is_digit(s[n - 5]) && is_digit(s[n - 4])
    &&& s[n - 3] == ':' && is_digit(s[n - 2]) && is_digit(s[n - 1])
}

/// Relies on `chrono::DateTime::from_timestamp`, which gives `None` out of
/// its range, and `DateTime::format`: with this pattern, `%d` and `%H`, `%M`
/// are written with two digits, `%h` is the short month name and `%Y` takes
/// at least four characters.
#[verifier::external_body]
fn local_stamp(local_secs: i64, pattern: &str) -> (r: Option<String>)
    requires
        pattern@ == stamp_pattern(),
    ensures
        match r {
            Some(s) => stamp_of(local_secs as int) == Some(s@),
            None => stamp_of(local_secs as int) is None,
        },
        r matches Some(s) ==> minute_stamp(s@),
{
    match chrono::DateTime::from_timestamp(local_secs, 0) {
        Some(t) => Some(t.format(pattern).to_string()),
        None => None,
    }
}

/// The output path: the one given, or else a name stamped with the
/// wall-clock time `local_secs` (seconds after 1970-01-01 00:00, local time)
/// to the minute. A time that has no date fails with `NoTimestamp`.
pub fn resolve_output_path(out: Option<String>, local_secs: i64) -> (r: Result<String, RunError>)
    ensures
        out matches Some(o) ==> r == Ok::<String, RunError>(o),
        out is None ==> match stamp_of(local_secs as int) {
            Some(stamp) => r matches Ok(name) && name@ == default_name(stamp),
            None => r == Err::<String, RunError>(RunError::NoTimestamp),
        },
        out is None ==> (r matches Ok(name) ==> exists|stamp: Seq<char>|
            name@ == default_name(stamp) && minute_stamp(stamp)),
{
    match out {
        Some(o) => Ok(o),
        None => match local_stamp(local_secs, "%d-%h-%Y %H:%M") {
            Some(stamp) => Ok(default_output_name(stamp.as_str())),
            None => Err(RunError::NoTimestamp),
        },
    }
}

} // verus!
