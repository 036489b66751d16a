use re_types_core::external::arrow::array::{Array, StringArray};
use re_types_core::SerializedComponentBatch;
use rewire_extras::{NodeMeta, ROS2NodeInfo};

fn texts(batch: &SerializedComponentBatch) -> Vec<String> {
    let array = batch
        .array
        .as_any()
        .downcast_ref::<StringArray>()
        .expect("a text column");
    (0..array.len()).map(|i| array.value(i).to_owned()).collect()
}

#[test]
fn node_info_new_serializes_all_columns() {
    let nodes = vec![
        NodeMeta {
            name: "/talker",
            publisher_count: 1,
            subscriber_count: 0,
            transport: "dds",
        },
        NodeMeta {
            name: "/listener",
            publisher_count: 0,
            subscriber_count: 1,
            transport: "zenoh",
        },
    ];
    let info = ROS2NodeInfo::new(&nodes);
    let batches = info.as_serialized_batches();
    assert_eq!(batches.len(), 4);
}

#[test]
fn empty_nodes_produces_empty_columns() {
    let info = ROS2NodeInfo::new(&[]);
    let batches = info.as_serialized_batches();
    for batch in &batches {
        assert_eq!(batch.array.len(), 0);
    }
}

#[test]
fn node_info_descriptors_have_archetype_annotation() {
    let desc = ROS2NodeInfo::descriptor_node_name();
    assert!(format!("{:?}", desc).contains("ROS2NodeInfo"));
}

#[test]
fn node_info_all_descriptors_are_distinct() {
    let descs = [
        ROS2NodeInfo::descriptor_node_name(),
        ROS2NodeInfo::descriptor_publisher_count(),
        ROS2NodeInfo::descriptor_subscriber_count(),
        ROS2NodeInfo::descriptor_transport(),
    ];
    for (i, a) in descs.iter().enumerate() {
        for (j, b) in descs.iter().enumerate() {
            if i != j {
                assert_ne!(a, b);
            }
        }
    }
}

#[test]
fn node_columns_hold_the_metadata() {
    let nodes = vec![
        NodeMeta {
            name: "/talker",
            publisher_count: 12,
            subscriber_count: 0,
            transport: "dds",
        },
        NodeMeta {
            name: "/listener",
            publisher_count: 0,
            subscriber_count: 1905,
            transport: "zenoh",
        },
    ];
    let batches = ROS2NodeInfo::new(&nodes).as_serialized_batches();
    assert_eq!(texts(&batches[0]), vec!["/talker", "/listener"]);
    assert_eq!(texts(&batches[1]), vec!["12", "0"]);
    assert_eq!(texts(&batches[2]), vec!["0", "1905"]);
    assert_eq!(texts(&batches[3]), vec!["dds", "zenoh"]);
    assert_eq!(batches[0].descriptor, ROS2NodeInfo::descriptor_node_name());
    assert_eq!(batches[1].descriptor, ROS2NodeInfo::descriptor_publisher_count());
    assert_eq!(batches[2].descriptor, ROS2NodeInfo::descriptor_subscriber_count());
    assert_eq!(batches[3].descriptor, ROS2NodeInfo::descriptor_transport());
}

#[test]
fn node_descriptor_names_the_component() {
    let desc = ROS2NodeInfo::descriptor_transport();
    assert_eq!(desc.component.as_str(), "rewire.ROS2NodeInfo:transport");
    assert_eq!(
        desc.archetype.map(|a| a.as_str().to_owned()),
        Some("rewire.ROS2NodeInfo".to_owned())
    );
}

#[test]
fn large_counts_written_in_decimal() {
    let nodes = vec![NodeMeta {
        name: "/n",
        publisher_count: usize::MAX,
        subscriber_count: 10,
        transport: "",
    }];
    let batches = ROS2NodeInfo::new(&nodes).as_serialized_batches();
    assert_eq!(texts(&batches[1]), vec![usize::MAX.to_string()]);
    assert_eq!(texts(&batches[2]), vec!["10"]);
    assert_eq!(texts(&batches[3]), vec![""]);
}
