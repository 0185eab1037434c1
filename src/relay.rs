use vstd::prelude::*;
use crate::text::{owned_text, push_decimal, push_text, decimal};

verus! {

/// One reading: a property of an object and its value, as text.
pub struct Metric {
    pub object: String,
    pub property: String,
    pub value: String,
}

/// Configuration of a source that reads wireless devices.
pub struct SourceBLEConfig {
    pub id: String,
}

/// A source that reads wireless devices.
pub struct SourceBLE {
    pub config: Box<SourceBLEConfig>,
    pub name: String,
}

impl SourceBLEConfig {
    /// The configuration written to an example file.
    pub fn example_config() -> (r: SourceBLEConfig)
        ensures
            r.id@ == "123"@,
    {
        SourceBLEConfig { id: owned_text("123") }
    }

    /// `bluetooth <id>`.
    pub fn name(&self) -> (r: String)
        ensures
            r@ == "bluetooth "@ + self.id@,
    {
        let mut s = owned_text("bluetooth ");
        push_text(&mut s, self.id.as_str());
        s
    }

    /// The source this configuration describes, named after it.
    pub fn init(self: Box<Self>) -> (r: SourceBLE)
        ensures
            r.name@ == "bluetooth "@ + self.id@,
            r.config == self,
    {
        let name = self.name();
        SourceBLE { config: self, name }
    }
}

impl SourceBLE {
    pub fn name(&self) -> (r: &String)
        ensures
            r == &self.name,
    {
        &self.name
    }

    /// The readings of one poll. Readings taken from advertisements are
    /// not collected yet, so there are none.
    pub fn poll(&mut self) -> (r: Vec<Metric>)
        ensures
            r@.len() == 0,
            *final(self) == *old(self),
    {
        Vec::new()
    }
}

/// Configuration of the destination that writes readings to the log.
pub struct DestinationLogConfig {}

/// The destination that writes readings to the log.
pub struct DestinationLog {
    pub name: String,
}

/// The log line of a reading at the destination named `name`.
pub open spec fn log_line(name: Seq<char>, m: Metric) -> Seq<char> {
    name + " - object "@ + m.object@ + " has a "@ + m.property@ + " of "@ + m.value@
}

impl DestinationLogConfig {
    pub fn name(&self) -> (r: String)
        ensures
            r@ == "MetricDestinationLog"@,
    {
        owned_text("MetricDestinationLog")
    }

    /// The destination, named `log`.
    pub fn init(self: Box<Self>) -> (r: DestinationLog)
        ensures
            r.name@ == "log"@,
    {
        DestinationLog { name: owned_text("log") }
    }
}

impl DestinationLog {
    pub fn name(&self) -> (r: &String)
        ensures
            r == &self.name,
    {
        &self.name
    }

    /// The lines to log for `metrics`, one per reading, in order.
    pub fn report(&self, metrics: &Vec<Metric>) -> (r: Vec<String>)
        ensures
            r@.len() == metrics@.len(),
            forall|i: int| 0 <= i < r@.len() ==> (#[trigger] r@[i])@ == log_line(self.name@, metrics@[i]),
    {
        let mut lines: Vec<String> = Vec::new();
        let mut i: usize = 0;
        while i < metrics.len()
            invariant
                0 <= i <= metrics@.len(),
                lines@.len() == i,
                forall|j: int| 0 <= j < i ==> (#[trigger] lines@[j])@ == log_line(self.name@, metrics@[j]),
            decreases metrics@.len() - i,
        {
            let m = &metrics[i];
            let mut s = owned_text(self.name.as_str());
            push_text(&mut s, " - object ");
            push_text(&mut s, m.object.as_str());
            push_text(&mut s, " has a ");
            push_text(&mut s, m.property.as_str());
            push_text(&mut s, " of ");
            push_text(&mut s, m.value.as_str());
            lines.push(s);
            i = i + 1;
        }
        lines
    }
}

/// Configuration of the destination that publishes readings on a message
/// bus.
pub struct DestinationMQTTConfig {
    pub server: String,
    pub port: u16,
    pub agent_name: String,
    pub publish_channel: String,
}

impl DestinationMQTTConfig {
    /// The configuration written to an example file.
    pub fn example_config() -> (r: DestinationMQTTConfig)
        ensures
            r.server@ == "localhost"@,
            r.port == 1883,
            r.agent_name@ == "MessageRelayAgent"@,
            r.publish_channel@ == "/MetricRelay/"@,
    {
        DestinationMQTTConfig {
            server: owned_text("localhost"),
            port: 1883,
            agent_name: owned_text("MessageRelayAgent"),
            publish_channel: owned_text("/MetricRelay/"),
        }
    }

    pub fn name(&self) -> (r: String)
        ensures
            r@ == "MetricDestinationMQTT"@,
    {
        owned_text("MetricDestinationMQTT")
    }

    /// `DestinationMQTT <server>:<port>`, the name of the destination.
    pub fn destination_name(&self) -> (r: String)
        ensures
            r@ == "DestinationMQTT "@ + self.server@ + ":"@ + decimal(self.port as nat),
    {
        let mut s = owned_text("DestinationMQTT ");
        push_text(&mut s, self.server.as_str());
        push_text(&mut s, ":");
        push_decimal(&mut s, self.port as u64);
        s
    }

    /// The topic a reading is published on: the channel followed by the
    /// reading's object and property, separated by `/`.
    pub fn topic(&self, metric: &Metric) -> (r: String)
        ensures
            r@ == self.publish_channel@ + metric.object@ + "/"@ + metric.property@,
    {
        let mut s = owned_text(self.publish_channel.as_str());
        push_text(&mut s, metric.object.as_str());
        push_text(&mut s, "/");
        push_text(&mut s, metric.property.as_str());
        s
    }
}

/// Configuration of the destination that sends readings to a cloud metrics
/// service.
pub struct DestinationCloudwatchConfig {
    pub namespace: String,
}

impl DestinationCloudwatchConfig {
    /// The configuration written to an example file.
    pub fn example_config() -> (r: DestinationCloudwatchConfig)
        ensures
            r.namespace@ == "TestCloudwatchNamespace"@,
    {
        DestinationCloudwatchConfig { namespace: owned_text("TestCloudwatchNamespace") }
    }

    pub fn name(&self) -> (r: String)
        ensures
            r@ == "cloudwatch"@,
    {
        owned_text("cloudwatch")
    }
}

} // verus!
