use re_types_core::external::arrow::array::{Array, StringArray};
use re_types_core::SerializedComponentBatch;
use rewire_extras::{ROS2TopicInfo, TopicMeta};

fn texts(batch: &SerializedComponentBatch) -> Vec<String> {
    let array = batch
        .array
        .as_any()
        .downcast_ref::<StringArray>()
        .expect("a text column");
    (0..array.len()).map(|i| array.value(i).to_owned()).collect()
}

#[test]
fn topic_info_new_serializes_all_columns() {
    let topics = vec![
        TopicMeta {
            name: "/chatter",
            message_type: "std_msgs/String",
            publishers: 1,
            subscribers: 2,
        },
        TopicMeta {
            name: "/odom",
            message_type: "nav_msgs/Odometry",
            publishers: 3,
            subscribers: 0,
        },
    ];
    let info = ROS2TopicInfo::new(&topics);
    let batches = info.as_serialized_batches();
    assert_eq!(batches.len(), 4);
}

#[test]
fn empty_topics_produces_empty_columns() {
    let info = ROS2TopicInfo::new(&[]);
    let batches = info.as_serialized_batches();
    for batch in &batches {
        assert_eq!(batch.array.len(), 0);
    }
}

#[test]
fn topic_info_descriptors_have_archetype_annotation() {
    let desc = ROS2TopicInfo::descriptor_topic_name();
    assert!(format!("{:?}", desc).contains("ROS2TopicInfo"));
}

#[test]
fn topic_info_all_descriptors_are_distinct() {
    let descs = [
        ROS2TopicInfo::descriptor_topic_name(),
        ROS2TopicInfo::descriptor_type_name(),
        ROS2TopicInfo::descriptor_publisher_count(),
        ROS2TopicInfo::descriptor_subscriber_count(),
    ];
    for (i, a) in descs.iter().enumerate() {
        for (j, b) in descs.iter().enumerate() {
            if i != j {
                assert_ne!(a, b);
            }
        }
    }
}

#[test]
fn topic_columns_hold_the_metadata() {
    let topics = vec![
        TopicMeta {
            name: "/chatter",
            message_type: "std_msgs/String",
            publishers: 1,
            subscribers: 2,
        },
        TopicMeta {
            name: "/odom",
            message_type: "nav_msgs/Odometry",
            publishers: 3,
            subscribers: 0,
        },
    ];
    let batches = ROS2TopicInfo::new(&topics).as_serialized_batches();
    assert_eq!(texts(&batches[0]), vec!["/chatter", "/odom"]);
    assert_eq!(texts(&batches[1]), vec!["std_msgs/String", "nav_msgs/Odometry"]);
    assert_eq!(texts(&batches[2]), vec!["1", "3"]);
    assert_eq!(texts(&batches[3]), vec!["2", "0"]);
    assert_eq!(batches[1].descriptor, ROS2TopicInfo::descriptor_type_name());
}

#[test]
fn topic_descriptor_names_the_component() {
    let desc = ROS2TopicInfo::descriptor_type_name();
    assert_eq!(desc.component.as_str(), "rewire.ROS2TopicInfo:type_name");
    assert_eq!(
        desc.archetype.map(|a| a.as_str().to_owned()),
        Some("rewire.ROS2TopicInfo".to_owned())
    );
}
