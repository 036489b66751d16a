use re_types_core::external::arrow::array::{Array, StringArray};
use re_types_core::SerializedComponentBatch;
use rewire_extras::{DiagnosticsRow, ROS2DiagnosticsInfo};

fn texts(batch: &SerializedComponentBatch) -> Vec<String> {
    let array = batch
        .array
        .as_any()
        .downcast_ref::<StringArray>()
        .expect("a text column");
    (0..array.len()).map(|i| array.value(i).to_owned()).collect()
}

fn sample_rows() -> Vec<DiagnosticsRow<'static>> {
    vec![
        DiagnosticsRow {
            topic: "/chatter",
            hz: format!("{:.1}", 10.0f64),
            bytes_per_sec: format!("{:.1}", 1024.0f64),
            drops: 0,
            latency_ms: Some(format!("{:.1}", 1.5f64)),
        },
        DiagnosticsRow {
            topic: "/odom",
            hz: format!("{:.1}", 50.0f64),
            bytes_per_sec: format!("{:.1}", 4096.0f64),
            drops: 3,
            latency_ms: None,
        },
    ]
}

#[test]
fn diagnostics_info_new_serializes_all_columns() {
    let info = ROS2DiagnosticsInfo::from_rows(&sample_rows());
    let batches = info.as_serialized_batches();
    assert_eq!(batches.len(), 5);
}

#[test]
fn empty_metrics_produces_empty_columns() {
    let info = ROS2DiagnosticsInfo::from_rows(&[]);
    let batches = info.as_serialized_batches();
    for batch in &batches {
        assert_eq!(batch.array.len(), 0);
    }
}

#[test]
fn diagnostics_info_descriptors_have_archetype_annotation() {
    let desc = ROS2DiagnosticsInfo::descriptor_topic_name();
    assert!(format!("{:?}", desc).contains("ROS2DiagnosticsInfo"));
}

#[test]
fn diagnostics_info_all_descriptors_are_distinct() {
    let descs = [
        ROS2DiagnosticsInfo::descriptor_topic_name(),
        ROS2DiagnosticsInfo::descriptor_hz(),
        ROS2DiagnosticsInfo::descriptor_bytes_per_sec(),
        ROS2DiagnosticsInfo::descriptor_drops(),
        ROS2DiagnosticsInfo::descriptor_latency_ms(),
    ];
    for (i, a) in descs.iter().enumerate() {
        for (j, b) in descs.iter().enumerate() {
            if i != j {
                assert_ne!(a, b);
            }
        }
    }
}

#[test]
fn diagnostics_columns_hold_the_rows() {
    let batches = ROS2DiagnosticsInfo::from_rows(&sample_rows()).as_serialized_batches();
    assert_eq!(texts(&batches[0]), vec!["/chatter", "/odom"]);
    assert_eq!(texts(&batches[1]), vec!["10.0", "50.0"]);
    assert_eq!(texts(&batches[2]), vec!["1024.0", "4096.0"]);
    assert_eq!(texts(&batches[3]), vec!["0", "3"]);
    assert_eq!(texts(&batches[4]), vec!["1.5", ""]);
    assert_eq!(batches[4].descriptor, ROS2DiagnosticsInfo::descriptor_latency_ms());
}

#[test]
fn drop_counts_written_in_decimal() {
    let rows = vec![DiagnosticsRow {
        topic: "/t",
        hz: String::new(),
        bytes_per_sec: String::new(),
        drops: u64::MAX,
        latency_ms: None,
    }];
    let batches = ROS2DiagnosticsInfo::from_rows(&rows).as_serialized_batches();
    assert_eq!(texts(&batches[3]), vec!["18446744073709551615"]);
}
