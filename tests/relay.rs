use homer_relay::homer_core::{
    MetricDestination, MetricDestinationLog, MetricDestinationMQTT, MetricManager, MetricSource,
    MetricSourceTest,
};
use homer_relay::relay::{
    DestinationCloudwatchConfig, DestinationLogConfig, DestinationMQTTConfig, Metric,
    SourceBLEConfig,
};

#[test]
fn ble_source_config() {
    let c = SourceBLEConfig::example_config();
    assert_eq!(c.id, "123");
    assert_eq!(c.name(), "bluetooth 123");
    let mut s = Box::new(c).init();
    assert_eq!(s.name(), "bluetooth 123");
    assert!(s.poll().is_empty());
    assert_eq!(s.config.id, "123");
}

#[test]
fn log_destination_lines() {
    let c = DestinationLogConfig {};
    assert_eq!(c.name(), "MetricDestinationLog");
    let d = Box::new(c).init();
    assert_eq!(d.name(), "log");
    let metrics = vec![
        Metric { object: "Kitchen".to_string(), property: "Temperature".to_string(), value: "21.5".to_string() },
        Metric { object: "Garage".to_string(), property: "Humidity".to_string(), value: "40".to_string() },
    ];
    assert_eq!(
        d.report(&metrics),
        vec![
            "log - object Kitchen has a Temperature of 21.5".to_string(),
            "log - object Garage has a Humidity of 40".to_string(),
        ]
    );
    assert!(d.report(&vec![]).is_empty());
}

#[test]
fn mqtt_destination_config() {
    let c = DestinationMQTTConfig::example_config();
    assert_eq!(c.server, "localhost");
    assert_eq!(c.port, 1883);
    assert_eq!(c.agent_name, "MessageRelayAgent");
    assert_eq!(c.publish_channel, "/MetricRelay/");
    assert_eq!(c.name(), "MetricDestinationMQTT");
    assert_eq!(c.destination_name(), "DestinationMQTT localhost:1883");
    let m = Metric { object: "Kitchen".to_string(), property: "Temperature".to_string(), value: "1".to_string() };
    assert_eq!(c.topic(&m), "/MetricRelay/Kitchen/Temperature");
}

#[test]
fn cloudwatch_destination_config() {
    let c = DestinationCloudwatchConfig::example_config();
    assert_eq!(c.namespace, "TestCloudwatchNamespace");
    assert_eq!(c.name(), "cloudwatch");
}

#[test]
fn metric_manager_round() {
    let manager = MetricManager {
        destinations: vec![Box::new(MetricDestinationLog {}), Box::new(MetricDestinationMQTT {})],
        sources: vec![Box::new(MetricSourceTest {})],
    };
    assert_eq!(
        manager.run(),
        vec![
            "Running metric manager".to_string(),
            "Checking MetricSourceTest".to_string(),
            "Sending to MetricDestinationLog".to_string(),
            "Metric TestMetric has value 1.0".to_string(),
            "Sending to MetricDestinationMQTT".to_string(),
            "MQTT : Metric TestMetric has value 1.0".to_string(),
        ]
    );
}

#[test]
fn metric_manager_without_sources() {
    let manager = MetricManager { destinations: vec![Box::new(MetricDestinationLog {})], sources: vec![] };
    assert_eq!(manager.run(), vec!["Running metric manager".to_string()]);
}

#[test]
fn test_source_and_log_destinations() {
    let s = MetricSourceTest {};
    assert_eq!(s.name(), "MetricSourceTest");
    let readings = s.poll();
    assert_eq!(readings.len(), 1);
    assert_eq!(readings[0].name, "TestMetric");
    assert_eq!(readings[0].value, "1.0");
    assert_eq!(MetricDestinationLog {}.name(), "MetricDestinationLog");
    assert_eq!(MetricDestinationMQTT {}.report(&readings), vec!["MQTT : Metric TestMetric has value 1.0".to_string()]);
}
