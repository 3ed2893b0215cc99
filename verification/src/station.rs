//! The stations that are watched, and the rows of readings that are kept of
//! them.

use crate::clock::{local_now, TimeOfDay};
use crate::codec::AddressFamily;
use crate::entropy::random_token;
use crate::probe::{ProbeRequest, Token};
use crate::session::PingSession;
use crate::errors::Error;
use crate::text::{
    decimal, decimal_text, format_reading, parse_signed, reading_text, reading_view, signed_value,
    trim, trimmed,
};
use vstd::prelude::*;
use vstd::string::StringExecFns;

verus! {

/// The highest number in the table of known stations.
pub const LAST_STATION: u8 = 6;

/// The number given to a station that is named by its address alone.
pub const AD_HOC_STATION: u8 = 99;

/// The time budget of the probe that greets a station: two seconds.
pub const GREETING_TIMEOUT: u64 = 2_000_000;

/// The hop limit of the probe that greets a station.
pub const GREETING_HOP_LIMIT: u32 = 166;

/// The identifier of every probe sent to a station.
pub const STATION_IDENTIFIER: u16 = 3;

/// The sequence number of the probes that are not counted one by one.
pub const FIXED_SEQUENCE: u16 = 5;

/// A watched machine.
#[derive(Clone, Debug, PartialEq, Eq)]
pub struct Station {
    pub station_no: u8,
    pub ip_address: String,
    pub usr_name: String,
}

/// A [`Station`] as a mathematical value.
pub struct StationModel {
    pub station_no: u8,
    pub ip_address: Seq<char>,
    pub usr_name: Seq<char>,
}

impl View for Station {
    type V = StationModel;

    open spec fn view(&self) -> StationModel {
        StationModel {
            station_no: self.station_no,
            ip_address: self.ip_address@,
            usr_name: self.usr_name@,
        }
    }
}

/// The address of the known station `no`.
pub open spec fn known_address(no: u8) -> Seq<char> {
    if no == 0 {
        "10.8.0.101"@
    } else if no == 1 {
        "10.10.1.2"@
    } else if no == 2 {
        "10.10.2.2"@
    } else if no == 3 {
        "10.10.3.2"@
    } else if no == 4 {
        "10.10.4.2"@
    } else if no == 5 {
        "10.10.5.2"@
    } else {
        "10.10.6.2"@
    }
}

/// The user name on the known station `no`.
pub open spec fn known_user(no: u8) -> Seq<char> {
    if no == 0 {
        "frodo_central"@
    } else {
        "pi"@
    }
}

/// The table of known stations: numbers 0 to 6.
pub open spec fn known_station(no: u8) -> Option<StationModel> {
    if no <= LAST_STATION {
        Some(StationModel { station_no: no, ip_address: known_address(no), usr_name: known_user(no) })
    } else {
        None
    }
}

/// The remote file that holds the processor temperature of the station at
/// `address`. One station's first sensor is broken, so its second is read.
pub open spec fn thermal_zone_of(address: Seq<char>) -> Seq<char> {
    if address == "10.8.0.110"@ {
        "/sys/class/thermal/thermal_zone1/temp"@
    } else {
        "/sys/class/thermal/thermal_zone0/temp"@
    }
}

/// The temperature in thousandths of a degree that the text of a sensor
/// file writes: a signed number that fits 32 bits, with white space around
/// it at most.
pub open spec fn millidegrees_of(output: Seq<char>) -> Option<i32> {
    match signed_value(trimmed(output)) {
        Some(v) if i32::MIN <= v <= i32::MAX => Some(v as i32),
        _ => None,
    }
}

/// Reads the temperature off the text of a sensor file. Fails with
/// `InternalError` if the text writes none.
pub fn parse_millidegrees(output: &str) -> (r: Result<i32, Error>)
    ensures
        match r {
            Ok(v) => millidegrees_of(output@) == Some(v),
            Err(e) => e == Error::InternalError && millidegrees_of(output@) is None,
        },
{
    match parse_signed(trim(output)) {
        Some(v) => Ok(v),
        None => Err(Error::InternalError),
    }
}

impl Station {
    /// A station with the given number, user name and address.
    pub fn new_no(st_no: u8, usr_name: &String, ipaddr: &String) -> (station: Station)
        ensures
            station@ == (StationModel {
                station_no: st_no,
                ip_address: ipaddr@,
                usr_name: usr_name@,
            }),
    {
        Station { station_no: st_no, ip_address: ipaddr.clone(), usr_name: usr_name.clone() }
    }

    /// Looks `stat_no` up in the table of known stations.
    pub fn known(stat_no: u8) -> (station: Option<Station>)
        ensures
            match station {
                Some(s) => known_station(stat_no) == Some(s@),
                None => known_station(stat_no) is None,
            },
    {
        if stat_no > LAST_STATION {
            return None;
        }
        let address = if stat_no == 0 {
            "10.8.0.101"
        } else if stat_no == 1 {
            "10.10.1.2"
        } else if stat_no == 2 {
            "10.10.2.2"
        } else if stat_no == 3 {
            "10.10.3.2"
        } else if stat_no == 4 {
            "10.10.4.2"
        } else if stat_no == 5 {
            "10.10.5.2"
        } else {
            "10.10.6.2"
        };
        let user = if stat_no == 0 {
            "frodo_central"
        } else {
            "pi"
        };
        Some(
            Station {
                station_no: stat_no,
                ip_address: String::from_str(address),
                usr_name: String::from_str(user),
            },
        )
    }

    /// The known station `stat_no`. There is none above [`LAST_STATION`].
    pub fn connect_station(stat_no: u8) -> (station: Station)
        requires
            stat_no <= LAST_STATION,
        ensures
            known_station(stat_no) == Some(station@),
    {
        Station::known(stat_no).unwrap()
    }

    /// The station at `ipaddr`, under the number and user name given.
    pub fn connect_station_by_ip(st_no: u8, username: &String, ipaddr: &String) -> (station: Station)
        ensures
            station@ == (StationModel {
                station_no: st_no,
                ip_address: ipaddr@,
                usr_name: username@,
            }),
    {
        Station::new_no(st_no, username, ipaddr)
    }

    pub fn get_ip_address(&self) -> (address: &String)
        ensures
            address@ == self@.ip_address,
    {
        &self.ip_address
    }

    pub fn get_station_no(&self) -> (no: u8)
        ensures
            no == self@.station_no,
    {
        self.station_no
    }

    pub fn get_user_name(&self) -> (name: &String)
        ensures
            name@ == self@.usr_name,
    {
        &self.usr_name
    }

    /// The run of `count` probes, numbered one by one, that pings this station.
    pub fn ping_this_station(&self, count: u16) -> (session: PingSession)
        ensures
            session.wf(),
            session@ == PingSession::counted_run(count),
    {
        PingSession::counted(count)
    }

    /// The run of `count` probes, all with the fixed sequence number, that
    /// measures this station's latency for a row.
    pub fn ping_this_station_silent(&self, count: u16) -> (session: PingSession)
        ensures
            session.wf(),
            session@ == PingSession::uncounted_run(count),
    {
        PingSession::uncounted(count)
    }

    /// The probe that greets a station when it is connected: two seconds of
    /// budget, hop limit 166, the stations' identifier, the fixed sequence
    /// number and the given payload.
    pub fn greeting_with(family: AddressFamily, payload: Token) -> (request: ProbeRequest)
        ensures
            request.family == family,
            request.timeout == GREETING_TIMEOUT,
            request.hop_limit == GREETING_HOP_LIMIT,
            request.identifier == STATION_IDENTIFIER,
            request.sequence == FIXED_SEQUENCE,
            request.payload == payload,
    {
        ProbeRequest {
            family,
            timeout: GREETING_TIMEOUT,
            hop_limit: GREETING_HOP_LIMIT,
            identifier: STATION_IDENTIFIER,
            sequence: FIXED_SEQUENCE,
            payload,
        }
    }

    /// The probe that greets a station when it is connected, with a payload
    /// drawn at random.
    pub fn greeting(family: AddressFamily) -> (request: ProbeRequest)
        ensures
            request.family == family,
            request.timeout == GREETING_TIMEOUT,
            request.hop_limit == GREETING_HOP_LIMIT,
            request.identifier == STATION_IDENTIFIER,
            request.sequence == FIXED_SEQUENCE,
    {
        Station::greeting_with(family, random_token())
    }

    /// The login at which the station is reached: user name, `@`, address.
    pub fn remote_login(&self) -> (login: String)
        ensures
            login@ == self@.usr_name + "@"@ + self@.ip_address,
    {
        let mut login = self.usr_name.clone();
        login.append("@");
        login.append(self.ip_address.as_str());
        login
    }

    /// The remote file that holds the station's processor temperature.
    pub fn thermal_zone(&self) -> (path: &'static str)
        ensures
            path@ == thermal_zone_of(self@.ip_address),
    {
        let odd = String::from_str("10.8.0.110");
        if self.ip_address == odd {
            "/sys/class/thermal/thermal_zone1/temp"
        } else {
            "/sys/class/thermal/thermal_zone0/temp"
        }
    }

    /// The row of this station for the given readings, stamped with the
    /// local time of day at which it is called. Which time that is lies with
    /// the machine's clock; the row is the one that [`DataRow::compose`]
    /// writes for it.
    pub fn gather_data_set(
        &self,
        latency: &str,
        temperature: &Result<String, String>,
        load: &Result<String, String>,
    ) -> (row: DataRow)
        ensures
            exists|time: TimeOfDay|
                time.wf() && row@ == row_model(
                    time,
                    self@.station_no,
                    latency@,
                    reading_view(temperature),
                    reading_view(load),
                ),
    {
        let time = local_now().time;
        DataRow::compose(time, self.station_no, latency, temperature, load)
    }
}

/// One line of the log: what was read of one station at one time.
#[derive(Clone, Debug, PartialEq, Eq)]
pub struct DataRow {
    pub time: String,
    pub no: String,
    pub ping_latency: String,
    pub cpu_temperature: String,
    pub cpu_load: String,
}

/// A [`DataRow`] as a mathematical value.
pub struct DataRowModel {
    pub time: Seq<char>,
    pub no: Seq<char>,
    pub ping_latency: Seq<char>,
    pub cpu_temperature: Seq<char>,
    pub cpu_load: Seq<char>,
}

impl View for DataRow {
    type V = DataRowModel;

    open spec fn view(&self) -> DataRowModel {
        DataRowModel {
            time: self.time@,
            no: self.no@,
            ping_latency: self.ping_latency@,
            cpu_temperature: self.cpu_temperature@,
            cpu_load: self.cpu_load@,
        }
    }
}

/// The row for the given readings: the time of day, the station's number in
/// decimal, the latency as given, the temperature, and the load in percent.
pub open spec fn row_model(
    time: TimeOfDay,
    station_no: u8,
    latency: Seq<char>,
    temperature: Result<Seq<char>, Seq<char>>,
    load: Result<Seq<char>, Seq<char>>,
) -> DataRowModel {
    DataRowModel {
        time: time.text(),
        no: decimal_text(station_no as nat),
        ping_latency: latency,
        cpu_temperature: reading_text(temperature, Seq::empty()),
        cpu_load: reading_text(load, seq!['%']),
    }
}

/// How a row reads when it is shown.
pub open spec fn row_text(row: DataRowModel) -> Seq<char> {
    "Time of Day: "@ + row.time + ", Latency: "@ + row.ping_latency + " ms, CPU Temp: "@
        + row.cpu_temperature + " C, CPU Load: "@ + row.cpu_load + "\n"@
}

impl DataRow {
    /// Writes the row for the given readings.
    pub fn compose(
        time: TimeOfDay,
        station_no: u8,
        latency: &str,
        temperature: &Result<String, String>,
        load: &Result<String, String>,
    ) -> (row: DataRow)
        ensures
            row@ == row_model(
                time,
                station_no,
                latency@,
                reading_view(temperature),
                reading_view(load),
            ),
    {
        proof {
            reveal_strlit("");
            reveal_strlit("%");
            assert(""@ =~= Seq::<char>::empty());
            assert("%"@ =~= seq!['%']);
        }
        DataRow {
            time: time.to_text(),
            no: decimal(station_no as u64),
            ping_latency: String::from_str(latency),
            cpu_temperature: format_reading(temperature, ""),
            cpu_load: format_reading(load, "%"),
        }
    }

    /// Writes the row as it is shown: one line, ended by a line feed.
    pub fn to_text(&self) -> (text: String)
        ensures
            text@ == row_text(self@),
    {
        let mut text = String::from_str("Time of Day: ");
        text.append(self.time.as_str());
        text.append(", Latency: ");
        text.append(self.ping_latency.as_str());
        text.append(" ms, CPU Temp: ");
        text.append(self.cpu_temperature.as_str());
        text.append(" C, CPU Load: ");
        text.append(self.cpu_load.as_str());
        text.append("\n");
        text
    }
}

} // verus!
