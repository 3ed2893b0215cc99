//! The hosts list: one station per line, as number, user name and address,
//! each of the latter two behind a blank and a hyphen:
//!
//! ```text
//! # a comment
//! 1 -pi -10.10.1.2
//! ```
//!
//! Empty lines and lines that begin with `#` are passed over.

use crate::errors::CommandError;
use crate::pattern::{regex_search, search};
use crate::station::{Station, StationModel};
use crate::text::{number_value, parse_number, split_fields, split_text, texts};
use vstd::prelude::*;

verus! {

/// The regular expression that tells a comment in the hosts list: a `#` at
/// the start.
pub open spec fn comment_pattern() -> Seq<char> {
    "^[#]"@
}

/// The regular expression that tells a comment in the hosts list.
pub fn hosts_comment() -> (pattern: &'static str)
    ensures
        pattern@ == comment_pattern(),
{
    "^[#]"
}

/// What separates the parts of an entry: a blank and a hyphen.
pub open spec fn host_delimiter() -> Seq<char> {
    " -"@
}

/// The text that a new hosts list begins with: comments that show the
/// pattern of an entry.
pub open spec fn template_text() -> Seq<char> {
    "# To configure the station list use the following pattern:\n# StationNo -UserName -StationIP\n# Example:\n# 1 -pi -10.10.1.2"@
}

/// The text that a new hosts list begins with.
pub fn hosts_template() -> (text: &'static str)
    ensures
        text@ == template_text(),
{
    "# To configure the station list use the following pattern:\n# StationNo -UserName -StationIP\n# Example:\n# 1 -pi -10.10.1.2"
}

/// What a line of the hosts list holds.
#[derive(Clone, Debug, PartialEq, Eq)]
pub enum HostLine {
    /// Nothing: the line is empty or a comment.
    Skip,
    /// A station.
    Entry(Station),
    /// Neither: parts are missing, or the number is none below 256.
    Malformed,
}

/// A [`HostLine`] as a mathematical value.
pub enum HostLineModel {
    Skip,
    Entry(StationModel),
    Malformed,
}

impl View for HostLine {
    type V = HostLineModel;

    open spec fn view(&self) -> HostLineModel {
        match self {
            HostLine::Skip => HostLineModel::Skip,
            HostLine::Entry(station) => HostLineModel::Entry(station@),
            HostLine::Malformed => HostLineModel::Malformed,
        }
    }
}

/// What `line` holds, given whether it is a comment. An entry has at least
/// three parts; the first is the station's number, the second the user name,
/// the third the address, and further parts are not read.
pub open spec fn host_line(line: Seq<char>, comment: bool) -> HostLineModel {
    if line.len() == 0 || comment {
        HostLineModel::Skip
    } else {
        let parts = split_fields(line, host_delimiter());
        if parts.len() < 3 {
            HostLineModel::Malformed
        } else {
            match number_value(parts[0]) {
                Some(no) if no <= u8::MAX => HostLineModel::Entry(
                    StationModel { station_no: no as u8, usr_name: parts[1], ip_address: parts[2] },
                ),
                _ => HostLineModel::Malformed,
            }
        }
    }
}

/// What `line` holds where `pattern` tells the comments, the search for the
/// pattern included; `None` where the pattern does not compile.
pub open spec fn host_line_of(line: Seq<char>, pattern: Seq<char>) -> Option<HostLineModel> {
    match regex_search(pattern, line) {
        Some(comment) => Some(host_line(line, comment)),
        None => None,
    }
}

/// Reads one line of the hosts list, told whether it is a comment.
pub fn read_host_line(line: &str, comment: bool) -> (entry: HostLine)
    ensures
        entry@ == host_line(line@, comment),
{
    if line.unicode_len() == 0 || comment {
        return HostLine::Skip;
    }
    proof {
        reveal_strlit(" -");
    }
    let parts = split_text(line, " -");
    if parts.len() < 3 {
        return HostLine::Malformed;
    }
    proof {
        assert(texts(parts@)[0] == parts@[0]@);
        assert(texts(parts@)[1] == parts@[1]@);
        assert(texts(parts@)[2] == parts@[2]@);
    }
    match parse_number(parts[0].as_str(), 255) {
        Some(no) => HostLine::Entry(Station::new_no(no as u8, &parts[1], &parts[2])),
        None => HostLine::Malformed,
    }
}

/// Tells whether `line` is a comment: whether `pattern` matches it. `None`
/// where the pattern does not compile.
pub fn is_comment(line: &str, pattern: &str) -> (comment: Option<bool>)
    ensures
        comment == regex_search(pattern@, line@),
{
    search(pattern, line)
}

/// Reads one line of a hosts list in which `pattern` tells the comments.
/// Fails with `BadPattern` if and only if the pattern does not compile.
pub fn parse_host_line(line: &str, pattern: &str) -> (r: Result<HostLine, CommandError>)
    ensures
        match r {
            Ok(entry) => host_line_of(line@, pattern@) == Some(entry@),
            Err(e) => host_line_of(line@, pattern@) is None && e == CommandError::BadPattern,
        },
{
    match is_comment(line, pattern) {
        Some(comment) => Ok(read_host_line(line, comment)),
        None => Err(CommandError::BadPattern),
    }
}

/// The views of the stations in `stations`, in order.
pub open spec fn station_models(stations: Seq<Station>) -> Seq<StationModel> {
    Seq::new(stations.len(), |i: int| stations[i]@)
}

/// The stations that the lines name, in the order of the lines, where
/// `pattern` tells the comments. The first line that names none and is not
/// passed over ends the reading with its index; so does a pattern that does
/// not compile, at the first line.
pub open spec fn listed_stations(lines: Seq<Seq<char>>, pattern: Seq<char>) -> Result<
    Seq<StationModel>,
    CommandError,
>
    decreases lines.len(),
{
    if lines.len() == 0 {
        Ok(Seq::empty())
    } else {
        match listed_stations(lines.drop_last(), pattern) {
            Err(e) => Err(e),
            Ok(front) => match host_line_of(lines.last(), pattern) {
                None => Err(CommandError::BadPattern),
                Some(HostLineModel::Skip) => Ok(front),
                Some(HostLineModel::Entry(station)) => Ok(front.push(station)),
                Some(HostLineModel::Malformed) => Err(
                    CommandError::BadHostLine { line: (lines.len() - 1) as usize },
                ),
            },
        }
    }
}

/// Whether `result` is what `expected` says, the stations taken by their views.
pub open spec fn lists_to(
    result: Result<Vec<Station>, CommandError>,
    expected: Result<Seq<StationModel>, CommandError>,
) -> bool {
    match result {
        Ok(stations) => expected == Ok::<Seq<StationModel>, CommandError>(
            station_models(stations@),
        ),
        Err(e) => expected == Err::<Seq<StationModel>, CommandError>(e),
    }
}

/// Reads a hosts list in which `pattern` tells the comments.
pub fn parse_hosts(lines: &Vec<String>, pattern: &str) -> (r: Result<Vec<Station>, CommandError>)
    ensures
        lists_to(r, listed_stations(texts(lines@), pattern@)),
{
    let mut stations: Vec<Station> = Vec::new();
    let mut i: usize = 0;
    proof {
        assert(texts(lines@).take(0) =~= Seq::<Seq<char>>::empty());
        assert(station_models(stations@) =~= Seq::<StationModel>::empty());
    }
    while i < lines.len()
        invariant
            i <= lines@.len(),
            listed_stations(texts(lines@).take(i as int), pattern@) == Ok::<
                Seq<StationModel>,
                CommandError,
            >(station_models(stations@)),
        decreases lines.len() - i,
    {
        proof {
            let upto = texts(lines@).take(i + 1);
            assert(upto.drop_last() =~= texts(lines@).take(i as int));
            assert(upto.last() == lines@[i as int]@);
        }
        match parse_host_line(lines[i].as_str(), pattern) {
            Err(e) => {
                proof {
                    lemma_failure_stays(texts(lines@), pattern@, i + 1);
                }
                return Err(e);
            },
            Ok(HostLine::Skip) => {},
            Ok(HostLine::Malformed) => {
                proof {
                    lemma_failure_stays(texts(lines@), pattern@, i + 1);
                }
                return Err(CommandError::BadHostLine { line: i });
            },
            Ok(HostLine::Entry(station)) => {
                proof {
                    assert(station_models(stations@.push(station)) =~= station_models(
                        stations@,
                    ).push(station@));
                }
                stations.push(station);
            },
        }
        i = i + 1;
    }
    proof {
        assert(texts(lines@).take(lines@.len() as int) =~= texts(lines@));
    }
    Ok(stations)
}

/// Once the reading of a list has failed, more lines change nothing.
proof fn lemma_failure_stays(lines: Seq<Seq<char>>, pattern: Seq<char>, n: int)
    requires
        0 <= n <= lines.len(),
        listed_stations(lines.take(n), pattern) is Err,
    ensures
        listed_stations(lines, pattern) == listed_stations(lines.take(n), pattern),
    decreases lines.len() - n,
{
    if n < lines.len() {
        assert(lines.take(n + 1).drop_last() =~= lines.take(n));
        lemma_failure_stays(lines, pattern, n + 1);
    } else {
        assert(lines.take(n) =~= lines);
    }
}

} // verus!
