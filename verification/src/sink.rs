//! The three sinks and their names.

use vstd::prelude::*;

verus! {

/// The three sinks, in declaration order.
#[derive(Clone, Copy, Debug, PartialEq, Eq, Structural)]
pub enum SinkKind {
    MariaDb,
    InfluxDb,
    Kafka,
}

impl SinkKind {
    /// Name of the sink in error messages.
    pub open spec fn spec_label(self) -> Seq<char> {
        match self {
            SinkKind::MariaDb => "MariaDB"@,
            SinkKind::InfluxDb => "InfluxDB"@,
            SinkKind::Kafka => "Kafka"@,
        }
    }

    /// Name of the sink in error messages.
    pub fn label(&self) -> (r: &'static str)
        ensures
            r@ == self.spec_label(),
    {
        match self {
            SinkKind::MariaDb => "MariaDB",
            SinkKind::InfluxDb => "InfluxDB",
            SinkKind::Kafka => "Kafka",
        }
    }

    /// Place of the sink in declaration order.
    pub open spec fn rank(self) -> nat {
        match self {
            SinkKind::MariaDb => 0,
            SinkKind::InfluxDb => 1,
            SinkKind::Kafka => 2,
        }
    }

    /// Key of the sink in a health snapshot.
    pub open spec fn spec_name(self) -> Seq<char> {
        match self {
            SinkKind::MariaDb => "mariadb"@,
            SinkKind::InfluxDb => "influxdb"@,
            SinkKind::Kafka => "kafka"@,
        }
    }

    /// Key of the sink in a health snapshot.
    pub fn name(&self) -> (r: &'static str)
        ensures
            r@ == self.spec_name(),
    {
        match self {
            SinkKind::MariaDb => "mariadb",
            SinkKind::InfluxDb => "influxdb",
            SinkKind::Kafka => "kafka",
        }
    }

    /// The sink that a key names, if any.
    pub open spec fn spec_from_name(name: Seq<char>) -> Option<SinkKind> {
        if name == SinkKind::MariaDb.spec_name() {
            Some(SinkKind::MariaDb)
        } else if name == SinkKind::InfluxDb.spec_name() {
            Some(SinkKind::InfluxDb)
        } else if name == SinkKind::Kafka.spec_name() {
            Some(SinkKind::Kafka)
        } else {
            None
        }
    }

    /// The sink that a key names, if any.
    pub fn from_name(name: &str) -> (r: Option<SinkKind>)
        ensures
            r == Self::spec_from_name(name@),
    {
        let given = String::from_str(name);
        if given == String::from_str("mariadb") {
            Some(SinkKind::MariaDb)
        } else if given == String::from_str("influxdb") {
            Some(SinkKind::InfluxDb)
        } else if given == String::from_str("kafka") {
            Some(SinkKind::Kafka)
        } else {
            None
        }
    }
}

} // verus!
