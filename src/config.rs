//! Application configuration: the sink endpoint, names, the label table
//! and the run flags.
use vstd::prelude::*;
use crate::labels::DeviceLabelMap;

verus! {

/// Arguments given on the command line.
#[derive(Clone, Debug)]
pub struct Cli {
    /// Sink hostname or IP address.
    pub host: String,
    /// Sink port.
    pub port: u16,
    /// Connect with TLS.
    pub tls: bool,
    /// Database name.
    pub database: String,
    /// Measurement name.
    pub measurement: String,
    /// File holding the address-to-label records (standard input if absent).
    pub sensors: Option<String>,
    /// Be verbose.
    pub verbose: bool,
    /// Listen, but write nothing to the sink.
    pub dry_run: bool,
}

/// The decimal digits.
pub open spec fn decimal_digits() -> Seq<char> {
    seq!['0', '1', '2', '3', '4', '5', '6', '7', '8', '9']
}

/// The decimal text of `n`, without leading zeros.
pub open spec fn decimal(n: nat) -> Seq<char>
    decreases n,
{
    if n < 10 {
        seq![decimal_digits()[n as int]]
    } else {
        decimal(n / 10).push(decimal_digits()[(n % 10) as int])
    }
}

/// The connection string `http[s]://host:port`.
pub open spec fn conn_string(tls: bool, host: Seq<char>, port: u16) -> Seq<char> {
    seq!['h', 't', 't', 'p'] + (if tls {
        seq!['s']
    } else {
        Seq::empty()
    }) + seq![':', '/', '/'] + host + seq![':'] + decimal(port as nat)
}

/// Appends the decimal text of `n` to `s`.
fn push_decimal(s: &mut String, n: u16)
    ensures
        final(s)@ == old(s)@ + decimal(n as nat),
    decreases n,
{
    let digits = "0123456789";
    proof {
        reveal_strlit("0123456789");
    }
    assert(digits@ =~= decimal_digits());
    if n >= 10 {
        push_decimal(s, n / 10);
    }
    let d = (n % 10) as usize;
    s.append(digits.substring_char(d, d + 1));
    assert(final(s)@ =~= old(s)@ + decimal(n as nat));
}

impl Cli {
    /// The sink connection string, `http[s]://host:port`.
    pub fn get_influx_conn_string(&self) -> (r: String)
        ensures
            r@ == conn_string(self.tls, self.host@, self.port),
    {
        let mut s = String::from_str("http");
        proof {
            reveal_strlit("http");
            reveal_strlit("s");
            reveal_strlit("://");
            reveal_strlit(":");
        }
        if self.tls {
            s.append("s");
        }
        s.append("://");
        s.append(self.host.as_str());
        s.append(":");
        push_decimal(&mut s, self.port);
        assert(s@ =~= conn_string(self.tls, self.host@, self.port));
        s
    }
}

/// Configuration of the application.
#[derive(Debug)]
pub struct AppConfig {
    /// Connection string to the sink.
    pub influx_conn: String,
    /// Database name.
    pub influx_database: String,
    /// Measurement name.
    pub influx_measurement: String,
    /// Location label of each known sensor.
    pub sensors_names: DeviceLabelMap,
    /// Be verbose.
    pub be_verbose: bool,
    /// Dry run: write nothing to the sink.
    pub dry_run: bool,
}

impl AppConfig {
    /// The configuration given by the command-line arguments and the label
    /// table read from the records they point to.
    pub fn from_cli(cli: Cli, sensors_names: DeviceLabelMap) -> (r: AppConfig)
        ensures
            r.influx_conn@ == conn_string(cli.tls, cli.host@, cli.port),
            r.influx_database@ == cli.database@,
            r.influx_measurement@ == cli.measurement@,
            r.sensors_names@ == sensors_names@,
            r.be_verbose == cli.verbose,
            r.dry_run == cli.dry_run,
    {
        let influx_conn = cli.get_influx_conn_string();
        AppConfig {
            influx_conn,
            influx_database: cli.database,
            influx_measurement: cli.measurement,
            sensors_names,
            be_verbose: cli.verbose,
            dry_run: cli.dry_run,
        }
    }
}

} // verus!
