//! The commands of the program, as the jobs they come to.
//!
//! A command decides which stations are meant and what is to be done with
//! them; the [`Job`] it returns says so. Doing it (probing, reading sensors,
//! writing the log) is the caller's part.

use crate::clock::{local_now, Date};
use crate::errors::CommandError;
use crate::hosts::{comment_pattern, hosts_comment, listed_stations, parse_hosts, station_models};
use crate::station::{known_station, Station, StationModel, AD_HOC_STATION, LAST_STATION};
use crate::text::{decimal, decimal_text, number_value, parse_number, texts};
use vstd::prelude::*;
use vstd::string::StringExecFns;

verus! {

/// What a command asks for.
#[derive(Clone, Debug, PartialEq, Eq)]
pub enum Job {
    /// Gather one row of the station and add it to the day's log.
    LogOnce { station: Station },
    /// Gather one row of each station and add them to the day's log, then
    /// wait `interval` seconds; again and again.
    LogEvery { stations: Vec<Station>, interval: u64 },
    /// Gather one row of the station and show it.
    ShowData { station: Station },
    /// Show the network interfaces.
    ShowInterfaces { station: Station },
    /// Probe the station `count` times and show the figures.
    Ping { station: Station, count: u16 },
}

/// A [`Job`] as a mathematical value.
pub enum JobModel {
    LogOnce { station: StationModel },
    LogEvery { stations: Seq<StationModel>, interval: u64 },
    ShowData { station: StationModel },
    ShowInterfaces { station: StationModel },
    Ping { station: StationModel, count: u16 },
}

impl View for Job {
    type V = JobModel;

    open spec fn view(&self) -> JobModel {
        match self {
            Job::LogOnce { station } => JobModel::LogOnce { station: station@ },
            Job::LogEvery { stations, interval } => JobModel::LogEvery {
                stations: station_models(stations@),
                interval: *interval,
            },
            Job::ShowData { station } => JobModel::ShowData { station: station@ },
            Job::ShowInterfaces { station } => JobModel::ShowInterfaces { station: station@ },
            Job::Ping { station, count } => JobModel::Ping { station: station@, count: *count },
        }
    }
}

/// The station that is named by its address alone.
pub open spec fn ad_hoc_station(usr_name: Seq<char>, ip_address: Seq<char>) -> StationModel {
    StationModel { station_no: AD_HOC_STATION, ip_address, usr_name }
}

/// Whether `result` is the job that `expected` says.
pub open spec fn plans(result: Result<Job, CommandError>, expected: Result<JobModel, CommandError>)
    -> bool {
    match result {
        Ok(job) => expected == Ok::<JobModel, CommandError>(job@),
        Err(e) => expected == Err::<JobModel, CommandError>(e),
    }
}

/// The number of seconds that `interval` writes.
pub open spec fn interval_of(interval: Seq<char>) -> Result<u64, CommandError> {
    match number_value(interval) {
        Some(seconds) if seconds <= u64::MAX => Ok(seconds as u64),
        _ => Err(CommandError::BadInterval),
    }
}

fn read_interval(interval: &str) -> (r: Result<u64, CommandError>)
    ensures
        r == interval_of(interval@),
{
    match parse_number(interval, u64::MAX) {
        Some(seconds) => Ok(seconds),
        None => Err(CommandError::BadInterval),
    }
}

/// The command and its two parameters: the arguments behind the program's
/// name.
pub fn parse_config(args: &[String]) -> (config: (&str, &str, &str))
    requires
        args@.len() >= 4,
    ensures
        config.0@ == args@[1]@,
        config.1@ == args@[2]@,
        config.2@ == args@[3]@,
{
    (args[1].as_str(), args[2].as_str(), args[3].as_str())
}

/// Log the known station `stat_no` once.
pub fn start_data_from_no(stat_no: u8) -> (job: Job)
    requires
        stat_no <= LAST_STATION,
    ensures
        known_station(stat_no) matches Some(station) && job@ == (JobModel::LogOnce { station }),
{
    Job::LogOnce { station: Station::connect_station(stat_no) }
}

/// Log the station at `ipaddr` every `interval` seconds.
pub fn start_data_from_ip(usrname: &String, ipaddr: &String, interval: &String) -> (r: Result<
    Job,
    CommandError,
>)
    ensures
        plans(
            r,
            match interval_of(interval@) {
                Ok(seconds) => Ok(
                    JobModel::LogEvery {
                        stations: seq![ad_hoc_station(usrname@, ipaddr@)],
                        interval: seconds,
                    },
                ),
                Err(e) => Err(e),
            },
        ),
{
    let seconds = match read_interval(interval.as_str()) {
        Ok(seconds) => seconds,
        Err(e) => {
            return Err(e);
        },
    };
    let mut stations: Vec<Station> = Vec::new();
    let station = Station::connect_station_by_ip(AD_HOC_STATION, usrname, ipaddr);
    stations.push(station);
    proof {
        assert(station_models(stations@) =~= seq![ad_hoc_station(usrname@, ipaddr@)]);
    }
    Ok(Job::LogEvery { stations, interval: seconds })
}

/// Log the stations of the hosts list, given by its lines, every `interval`
/// seconds. Lines that begin with `#` are comments. The list is read before
/// the interval.
pub fn start_data_from_list(interval: &String, lines: &Vec<String>) -> (r: Result<
    Job,
    CommandError,
>)
    ensures
        plans(
            r,
            match listed_stations(texts(lines@), comment_pattern()) {
                Err(e) => Err(e),
                Ok(stations) => match interval_of(interval@) {
                    Ok(seconds) => Ok(JobModel::LogEvery { stations, interval: seconds }),
                    Err(e) => Err(e),
                },
            },
        ),
{
    let stations = match parse_hosts(lines, hosts_comment()) {
        Ok(stations) => stations,
        Err(e) => {
            return Err(e);
        },
    };
    match read_interval(interval.as_str()) {
        Ok(seconds) => Ok(Job::LogEvery { stations, interval: seconds }),
        Err(e) => Err(e),
    }
}

/// Show what is read of the known station `stat_no`.
pub fn get_current_data_from_no(stat_no: u8) -> (job: Job)
    requires
        stat_no <= LAST_STATION,
    ensures
        known_station(stat_no) matches Some(station) && job@ == (JobModel::ShowData { station }),
{
    Job::ShowData { station: Station::connect_station(stat_no) }
}

/// Show what is read of the station at `ipaddr`.
pub fn get_current_data_from_ip(usrname: &String, ipaddr: &String) -> (job: Job)
    ensures
        job@ == (JobModel::ShowData { station: ad_hoc_station(usrname@, ipaddr@) }),
{
    Job::ShowData { station: Station::connect_station_by_ip(AD_HOC_STATION, usrname, ipaddr) }
}

/// Show the network interfaces, after greeting the known station `stat_no`.
pub fn get_station_network_interface(stat_no: u8) -> (job: Job)
    requires
        stat_no <= LAST_STATION,
    ensures
        known_station(stat_no) matches Some(station) && job@ == (JobModel::ShowInterfaces {
            station,
        }),
{
    Job::ShowInterfaces { station: Station::connect_station(stat_no) }
}

/// Show the network interfaces, after greeting the station at `ipaddr`. The
/// station has no user name.
pub fn get_station_network_interface_from_ip(ipaddr: &String) -> (job: Job)
    ensures
        job@ == (JobModel::ShowInterfaces { station: ad_hoc_station(Seq::empty(), ipaddr@) }),
{
    let nobody = String::new();
    Job::ShowInterfaces { station: Station::connect_station_by_ip(AD_HOC_STATION, &nobody, ipaddr) }
}

/// Probe the known station `stat_no`, `count` times.
pub fn ping_station(stat_no: u8, count: u16) -> (job: Job)
    requires
        stat_no <= LAST_STATION,
    ensures
        known_station(stat_no) matches Some(station) && job@ == (JobModel::Ping { station, count }),
{
    Job::Ping { station: Station::connect_station(stat_no), count }
}

/// Probe the station at `ipaddr`, `count` times.
pub fn ping_station_from_ip(usrname: &String, ipaddr: &String, count: u16) -> (job: Job)
    ensures
        job@ == (JobModel::Ping { station: ad_hoc_station(usrname@, ipaddr@), count }),
{
    Job::Ping { station: Station::connect_station_by_ip(AD_HOC_STATION, usrname, ipaddr), count }
}

/// The name of the log of the day `date`: in the directory `data`, with
/// month, day and year in decimal.
pub open spec fn log_name(date: Date) -> Seq<char> {
    "data/station_list_date_"@ + decimal_text(date.month as nat) + "_"@ + decimal_text(
        date.day as nat,
    ) + "_"@ + year_text(date.year) + ".csv"@
}

/// A year in decimal, with a minus sign before a negative one.
pub open spec fn year_text(year: i32) -> Seq<char> {
    if year < 0 {
        "-"@ + decimal_text((-year) as nat)
    } else {
        decimal_text(year as nat)
    }
}

/// Writes the name of the log of the day `date`.
pub fn log_name_for(date: Date) -> (name: String)
    ensures
        name@ == log_name(date),
{
    let mut name = String::from_str("data/station_list_date_");
    let month = decimal(date.month as u64);
    name.append(month.as_str());
    name.append("_");
    let day = decimal(date.day as u64);
    name.append(day.as_str());
    name.append("_");
    if date.year < 0 {
        name.append("-");
        let year = decimal((-(date.year as i64)) as u64);
        name.append(year.as_str());
    } else {
        let year = decimal(date.year as u64);
        name.append(year.as_str());
    }
    name.append(".csv");
    assert(name@ =~= log_name(date));
    name
}

/// Writes the name of today's log. Which day that is lies with the
/// machine's clock; the name is the one that [`log_name_for`] writes for it.
pub fn todays_log_name() -> (name: String)
    ensures
        exists|date: Date| date.wf() && name@ == log_name(date),
{
    let date = local_now().date;
    log_name_for(date)
}

} // verus!
