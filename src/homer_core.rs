use vstd::prelude::*;
use crate::text::{owned_text, push_text};

verus! {

/// A named reading.
pub struct Metric {
    pub name: String,
    pub value: String,
}

/// A reading as its name and value.
pub open spec fn metric_view(m: Metric) -> (Seq<char>, Seq<char>) {
    (m.name@, m.value@)
}

/// Readings as names and values.
pub open spec fn metrics_view(ms: Seq<Metric>) -> Seq<(Seq<char>, Seq<char>)> {
    ms.map_values(|m: Metric| metric_view(m))
}

/// Somewhere readings go. `report` gives the lines to print for them.
pub trait MetricDestination {
    /// The destination's name.
    spec fn name_text(&self) -> Seq<char>;

    /// The lines the destination prints for `metrics`.
    spec fn report_lines(&self, metrics: Seq<(Seq<char>, Seq<char>)>) -> Seq<Seq<char>>;

    fn name(&self) -> (r: String)
        ensures
            r@ == self.name_text(),
    ;

    fn report(&self, metrics: &Vec<Metric>) -> (r: Vec<String>)
        ensures
            r@.map_values(|l: String| l@) == self.report_lines(metrics_view(metrics@)),
    ;
}

/// Somewhere readings come from.
pub trait MetricSource {
    /// The source's name.
    spec fn name_text(&self) -> Seq<char>;

    /// The readings one poll gives.
    spec fn readings(&self) -> Seq<(Seq<char>, Seq<char>)>;

    fn name(&self) -> (r: String)
        ensures
            r@ == self.name_text(),
    ;

    fn poll(&self) -> (r: Vec<Metric>)
        ensures
            metrics_view(r@) == self.readings(),
    ;
}

/// The line printed for a reading by the log destination.
pub open spec fn metric_line(m: (Seq<char>, Seq<char>)) -> Seq<char> {
    "Metric "@ + m.0 + " has value "@ + m.1
}

/// The line printed for a reading by the message bus destination.
pub open spec fn mqtt_metric_line(m: (Seq<char>, Seq<char>)) -> Seq<char> {
    "MQTT : "@ + metric_line(m)
}

fn metric_lines(prefix: &str, metrics: &Vec<Metric>) -> (r: Vec<String>)
    ensures
        r@.len() == metrics@.len(),
        forall|i: int| 0 <= i < r@.len() ==> (#[trigger] r@[i])@ == prefix@ + metric_line(metric_view(metrics@[i])),
{
    let mut lines: Vec<String> = Vec::new();
    let mut i: usize = 0;
    while i < metrics.len()
        invariant
            0 <= i <= metrics@.len(),
            lines@.len() == i,
            forall|j: int| 0 <= j < i ==> (#[trigger] lines@[j])@ == prefix@ + metric_line(metric_view(metrics@[j])),
        decreases metrics@.len() - i,
    {
        let m = &metrics[i];
        let mut s = owned_text(prefix);
        push_text(&mut s, "Metric ");
        push_text(&mut s, m.name.as_str());
        push_text(&mut s, " has value ");
        push_text(&mut s, m.value.as_str());
        proof {
            assert(s@ =~= prefix@ + metric_line(metric_view(*m)));
        }
        lines.push(s);
        i = i + 1;
    }
    lines
}

/// The destination that prints readings.
pub struct MetricDestinationLog {}

impl MetricDestination for MetricDestinationLog {
    open spec fn name_text(&self) -> Seq<char> {
        "MetricDestinationLog"@
    }

    open spec fn report_lines(&self, metrics: Seq<(Seq<char>, Seq<char>)>) -> Seq<Seq<char>> {
        metrics.map_values(|m: (Seq<char>, Seq<char>)| metric_line(m))
    }

    fn name(&self) -> (r: String) {
        owned_text("MetricDestinationLog")
    }

    fn report(&self, metrics: &Vec<Metric>) -> (r: Vec<String>) {
        let r = metric_lines("", metrics);
        proof {
            reveal_strlit("");
            assert forall|i: int| 0 <= i < r@.len() implies (#[trigger] r@[i])@ == metric_line(metric_view(metrics@[i])) by {
                assert(""@ + metric_line(metric_view(metrics@[i])) =~= metric_line(metric_view(metrics@[i])));
            }
            assert(r@.map_values(|l: String| l@) =~= self.report_lines(metrics_view(metrics@)));
        }
        r
    }
}

/// The destination that publishes readings on a message bus; for now it
/// prints them.
pub struct MetricDestinationMQTT {}

impl MetricDestination for MetricDestinationMQTT {
    open spec fn name_text(&self) -> Seq<char> {
        "MetricDestinationMQTT"@
    }

    open spec fn report_lines(&self, metrics: Seq<(Seq<char>, Seq<char>)>) -> Seq<Seq<char>> {
        metrics.map_values(|m: (Seq<char>, Seq<char>)| mqtt_metric_line(m))
    }

    fn name(&self) -> (r: String) {
        owned_text("MetricDestinationMQTT")
    }

    fn report(&self, metrics: &Vec<Metric>) -> (r: Vec<String>) {
        let r = metric_lines("MQTT : ", metrics);
        proof {
            assert forall|i: int| 0 <= i < r@.len() implies (#[trigger] r@[i])@ == mqtt_metric_line(metric_view(metrics@[i])) by {
                assert("MQTT : "@ + metric_line(metric_view(metrics@[i])) =~= mqtt_metric_line(metric_view(metrics@[i])));
            }
            assert(r@.map_values(|l: String| l@) =~= self.report_lines(metrics_view(metrics@)));
        }
        r
    }
}

/// A source that always gives one test reading.
pub struct MetricSourceTest {}

impl MetricSource for MetricSourceTest {
    open spec fn name_text(&self) -> Seq<char> {
        "MetricSourceTest"@
    }

    open spec fn readings(&self) -> Seq<(Seq<char>, Seq<char>)> {
        seq![("TestMetric"@, "1.0"@)]
    }

    fn name(&self) -> (r: String) {
        owned_text("MetricSourceTest")
    }

    fn poll(&self) -> (r: Vec<Metric>) {
        let mut v: Vec<Metric> = Vec::new();
        v.push(Metric { name: owned_text("TestMetric"), value: owned_text("1.0") });
        assert(metrics_view(v@) =~= self.readings());
        v
    }
}

/// The lines of the destinations in `dests`, in order, given readings
/// `ms`: each destination's name, then what it reports.
pub open spec fn destination_lines(
    dests: Seq<Box<dyn MetricDestination>>,
    ms: Seq<(Seq<char>, Seq<char>)>,
) -> Seq<Seq<char>>
    decreases dests.len(),
{
    if dests.len() == 0 {
        Seq::empty()
    } else {
        destination_lines(dests.drop_last(), ms) + seq!["Sending to "@ + dests.last().name_text()]
            + dests.last().report_lines(ms)
    }
}

/// The lines of a round over the sources in `sources`, in order: each
/// source's name, then the lines of every destination for its readings.
pub open spec fn source_lines(
    sources: Seq<Box<dyn MetricSource>>,
    dests: Seq<Box<dyn MetricDestination>>,
) -> Seq<Seq<char>>
    decreases sources.len(),
{
    if sources.len() == 0 {
        Seq::empty()
    } else {
        source_lines(sources.drop_last(), dests) + seq!["Checking "@ + sources.last().name_text()]
            + destination_lines(dests, sources.last().readings())
    }
}

/// The views of a sequence of lines.
pub open spec fn lines_view(lines: Seq<String>) -> Seq<Seq<char>> {
    lines.map_values(|l: String| l@)
}

/// Polls each source in turn and hands its readings to every destination.
pub struct MetricManager {
    pub destinations: Vec<Box<dyn MetricDestination>>,
    pub sources: Vec<Box<dyn MetricSource>>,
}

impl MetricManager {
    /// One round: for each source, in order, its readings are reported to
    /// each destination, in order. The result holds the lines to print: a
    /// heading, the name of each source checked, of each destination sent
    /// to, and what each destination reported.
    pub fn run(&self) -> (r: Vec<String>)
        ensures
            lines_view(r@) == seq!["Running metric manager"@] + source_lines(
                self.sources@,
                self.destinations@,
            ),
    {
        let mut lines: Vec<String> = Vec::new();
        lines.push(owned_text("Running metric manager"));
        let ghost head = seq!["Running metric manager"@];
        assert(lines_view(lines@) =~= head);
        let mut i: usize = 0;
        while i < self.sources.len()
            invariant
                0 <= i <= self.sources@.len(),
                head == seq!["Running metric manager"@],
                lines_view(lines@) == head + source_lines(
                    self.sources@.subrange(0, i as int),
                    self.destinations@,
                ),
            decreases self.sources@.len() - i,
        {
            let source = &self.sources[i];
            let mut checking = owned_text("Checking ");
            let source_name = source.name();
            push_text(&mut checking, source_name.as_str());
            let ghost before = lines_view(lines@);
            lines.push(checking);
            assert(lines_view(lines@) =~= before + seq!["Checking "@ + source.name_text()]);
            let ghost start = lines_view(lines@);
            let metrics = source.poll();
            let mut j: usize = 0;
            while j < self.destinations.len()
                invariant
                    0 <= j <= self.destinations@.len(),
                    lines_view(lines@) == start + destination_lines(
                        self.destinations@.subrange(0, j as int),
                        source.readings(),
                    ),
                    metrics_view(metrics@) == source.readings(),
                decreases self.destinations@.len() - j,
            {
                let destination = &self.destinations[j];
                let mut sending = owned_text("Sending to ");
                let destination_name = destination.name();
                push_text(&mut sending, destination_name.as_str());
                let ghost before_dest = lines_view(lines@);
                lines.push(sending);
                let mut reported = destination.report(&metrics);
                let ghost reported_view = lines_view(reported@);
                lines.append(&mut reported);
                proof {
                    let p = self.destinations@.subrange(0, j as int + 1);
                    assert(p.drop_last() =~= self.destinations@.subrange(0, j as int));
                    assert(lines_view(lines@) =~= before_dest + seq!["Sending to "@ + destination.name_text()]
                        + reported_view);
                    assert(lines_view(lines@) =~= start + destination_lines(p, source.readings()));
                }
                j = j + 1;
            }
            proof {
                let p = self.sources@.subrange(0, i as int + 1);
                assert(p.drop_last() =~= self.sources@.subrange(0, i as int));
                assert(self.destinations@.subrange(0, self.destinations@.len() as int) =~= self.destinations@);
                assert(lines_view(lines@) =~= head + source_lines(p, self.destinations@));
            }
            i = i + 1;
        }
        assert(self.sources@.subrange(0, self.sources@.len() as int) =~= self.sources@);
        lines
    }
}

} // verus!
