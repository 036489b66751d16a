//! The `ROS2TopicInfo` archetype: ROS 2 topic metadata as text columns.
use crate::columns::{
    archetype_key_of, batch_descriptor_of, batch_texts_of, component_key_of, component_type_key_of,
    interned_key,
    column_descriptor, column_fits, descriptor_partial, descriptor_with_archetype,
    lemma_present_all, lemma_present_push, present, push_present, serialize_text_column, text_batch, texts_of,
};
use crate::decimal::{
    decimal, decimal_string, is_canonical_numeral, law_decimal_reads_back, numeral_value,
};
use re_types_core::{ComponentDescriptor, SerializedComponentBatch};
use vstd::prelude::*;

verus! {

/// Per-topic metadata passed to [`ROS2TopicInfo::new`].
///
/// - `name`: fully qualified topic name (e.g., `"/chatter"`)
/// - `message_type`: ROS 2 message type (e.g., `"std_msgs/String"`)
/// - `publishers`: number of publishers on this topic
/// - `subscribers`: number of subscribers on this topic
pub struct TopicMeta<'a> {
    pub name: &'a str,
    pub message_type: &'a str,
    pub publishers: usize,
    pub subscribers: usize,
}

/// The topic name column: one text per topic.
pub open spec fn topic_name_column<'a>(topics: Seq<TopicMeta<'a>>) -> Seq<Seq<char>> {
    topics.map_values(|t: TopicMeta<'a>| t.name@)
}

/// The message type column: one text per topic.
pub open spec fn type_name_column<'a>(topics: Seq<TopicMeta<'a>>) -> Seq<Seq<char>> {
    topics.map_values(|t: TopicMeta<'a>| t.message_type@)
}

/// The publisher count column: each count in decimal.
pub open spec fn publishers_column<'a>(topics: Seq<TopicMeta<'a>>) -> Seq<Seq<char>> {
    topics.map_values(|t: TopicMeta<'a>| decimal(t.publishers as nat))
}

/// The subscriber count column: each count in decimal.
pub open spec fn subscribers_column<'a>(topics: Seq<TopicMeta<'a>>) -> Seq<Seq<char>> {
    topics.map_values(|t: TopicMeta<'a>| decimal(t.subscribers as nat))
}

/// The descriptor of one column of `ROS2TopicInfo`.
pub open spec fn topic_info_descriptor(component: Seq<char>) -> ComponentDescriptor {
    column_descriptor(component, "rewire.ROS2TopicInfo"@)
}

/// The component names of the columns of `ROS2TopicInfo`, in column order.
pub open spec fn topic_info_components() -> Seq<Seq<char>> {
    seq![
        "rewire.ROS2TopicInfo:topic_name"@,
        "rewire.ROS2TopicInfo:type_name"@,
        "rewire.ROS2TopicInfo:publisher_count"@,
        "rewire.ROS2TopicInfo:subscriber_count"@,
    ]
}

/// The text columns of `ROS2TopicInfo`, in column order.
pub open spec fn topic_info_texts<'a>(topics: Seq<TopicMeta<'a>>) -> Seq<Seq<Seq<char>>> {
    seq![
        topic_name_column(topics),
        type_name_column(topics),
        publishers_column(topics),
        subscribers_column(topics),
    ]
}

/// The descriptors of the columns of `ROS2TopicInfo`, in column order.
pub open spec fn topic_info_descriptors() -> Seq<ComponentDescriptor> {
    topic_info_components().map_values(|c: Seq<char>| topic_info_descriptor(c))
}

/// Whether every column of the topics fits in an Arrow string array.
pub open spec fn topic_columns_fit<'a>(topics: Seq<TopicMeta<'a>>) -> bool {
    &&& column_fits(topic_name_column(topics))
    &&& column_fits(type_name_column(topics))
    &&& column_fits(publishers_column(topics))
    &&& column_fits(subscribers_column(topics))
}

/// The four serialized columns of the topics, in order: names, message types,
/// publisher counts, subscriber counts.
pub open spec fn topic_info_columns<'a>(topics: Seq<TopicMeta<'a>>) -> Seq<Option<SerializedComponentBatch>> {
    seq![
        Some(text_batch(topic_info_descriptor("rewire.ROS2TopicInfo:topic_name"@), topic_name_column(topics))),
        Some(text_batch(topic_info_descriptor("rewire.ROS2TopicInfo:type_name"@), type_name_column(topics))),
        Some(text_batch(topic_info_descriptor("rewire.ROS2TopicInfo:publisher_count"@), publishers_column(topics))),
        Some(text_batch(topic_info_descriptor("rewire.ROS2TopicInfo:subscriber_count"@), subscribers_column(topics))),
    ]
}

fn name_texts<'a>(topics: &[TopicMeta<'a>]) -> (v: Vec<String>)
    ensures
        texts_of(v@) == topic_name_column(topics@),
{
    let mut v: Vec<String> = Vec::new();
    for i in 0..topics.len()
        invariant
            v.len() == i,
            forall|j: int| 0 <= j < i ==> #[trigger] v@[j]@ == topics@[j].name@,
    {
        v.push(topics[i].name.to_owned());
    }
    assert(texts_of(v@) =~= topic_name_column(topics@));
    v
}

fn type_texts<'a>(topics: &[TopicMeta<'a>]) -> (v: Vec<String>)
    ensures
        texts_of(v@) == type_name_column(topics@),
{
    let mut v: Vec<String> = Vec::new();
    for i in 0..topics.len()
        invariant
            v.len() == i,
            forall|j: int| 0 <= j < i ==> #[trigger] v@[j]@ == topics@[j].message_type@,
    {
        v.push(topics[i].message_type.to_owned());
    }
    assert(texts_of(v@) =~= type_name_column(topics@));
    v
}

fn publisher_texts<'a>(topics: &[TopicMeta<'a>]) -> (v: Vec<String>)
    ensures
        texts_of(v@) == publishers_column(topics@),
{
    let mut v: Vec<String> = Vec::new();
    for i in 0..topics.len()
        invariant
            v.len() == i,
            forall|j: int| 0 <= j < i ==> #[trigger] v@[j]@ == decimal(topics@[j].publishers as nat),
    {
        v.push(decimal_string(topics[i].publishers as u64));
    }
    assert(texts_of(v@) =~= publishers_column(topics@));
    v
}

fn subscriber_texts<'a>(topics: &[TopicMeta<'a>]) -> (v: Vec<String>)
    ensures
        texts_of(v@) == subscribers_column(topics@),
{
    let mut v: Vec<String> = Vec::new();
    for i in 0..topics.len()
        invariant
            v.len() == i,
            forall|j: int| 0 <= j < i ==> #[trigger] v@[j]@ == decimal(topics@[j].subscribers as nat),
    {
        v.push(decimal_string(topics[i].subscribers as u64));
    }
    assert(texts_of(v@) =~= subscribers_column(topics@));
    v
}

/// Custom Rerun archetype for ROS 2 topic metadata.
///
/// Logged at `/rewire/topics` as a batch where each field is a column with one
/// entry per topic. All fields are stored as text components with custom
/// descriptors under the `rewire.ROS2TopicInfo` archetype namespace.
pub struct ROS2TopicInfo {
    topic_names: Option<SerializedComponentBatch>,
    type_names: Option<SerializedComponentBatch>,
    publisher_counts: Option<SerializedComponentBatch>,
    subscriber_counts: Option<SerializedComponentBatch>,
}

impl ROS2TopicInfo {
    /// The serialized columns, in order: names, message types, publisher
    /// counts, subscriber counts.
    pub closed spec fn columns(&self) -> Seq<Option<SerializedComponentBatch>> {
        seq![self.topic_names, self.type_names, self.publisher_counts, self.subscriber_counts]
    }

    /// Creates a new [`ROS2TopicInfo`] from a slice of topic metadata.
    ///
    /// Each field is serialized as a text column. Publisher and subscriber
    /// counts are converted to decimal strings for batch-oriented storage.
    pub fn new(topics: &[TopicMeta<'_>]) -> (info: Self)
        requires
            topic_columns_fit(topics@),
        ensures
            info.columns() == topic_info_columns(topics@),
            forall|i: int|
                0 <= i < 4 ==> batch_descriptor_of(#[trigger] info.columns()[i].unwrap())
                    == topic_info_descriptors()[i],
            forall|i: int|
                0 <= i < 4 ==> batch_texts_of(#[trigger] info.columns()[i].unwrap())
                    == topic_info_texts(topics@)[i],
            forall|i: int|
                0 <= i < 4 ==> batch_texts_of(#[trigger] info.columns()[i].unwrap()).len()
                    == topics.len(),
    {
        let names = name_texts(topics);
        let types = type_texts(topics);
        let pubs = publisher_texts(topics);
        let subs = subscriber_texts(topics);
        ROS2TopicInfo {
            topic_names: serialize_text_column(Self::descriptor_topic_name(), names),
            type_names: serialize_text_column(Self::descriptor_type_name(), types),
            publisher_counts: serialize_text_column(Self::descriptor_publisher_count(), pubs),
            subscriber_counts: serialize_text_column(Self::descriptor_subscriber_count(), subs),
        }
    }

    /// Returns the [`ComponentDescriptor`] for the topic name column.
    pub fn descriptor_topic_name() -> (d: ComponentDescriptor)
        ensures
            d == topic_info_descriptor("rewire.ROS2TopicInfo:topic_name"@),
            component_key_of(d) == interned_key("rewire.ROS2TopicInfo:topic_name"@),
            archetype_key_of(d) == Some(interned_key("rewire.ROS2TopicInfo"@)),
            component_type_key_of(d) == None::<u64>,
    {
        descriptor_with_archetype(
            descriptor_partial("rewire.ROS2TopicInfo:topic_name"),
            "rewire.ROS2TopicInfo",
        )
    }

    /// Returns the [`ComponentDescriptor`] for the type name column.
    pub fn descriptor_type_name() -> (d: ComponentDescriptor)
        ensures
            d == topic_info_descriptor("rewire.ROS2TopicInfo:type_name"@),
            component_key_of(d) == interned_key("rewire.ROS2TopicInfo:type_name"@),
            archetype_key_of(d) == Some(interned_key("rewire.ROS2TopicInfo"@)),
            component_type_key_of(d) == None::<u64>,
    {
        descriptor_with_archetype(
            descriptor_partial("rewire.ROS2TopicInfo:type_name"),
            "rewire.ROS2TopicInfo",
        )
    }

    /// Returns the [`ComponentDescriptor`] for the publisher count column.
    pub fn descriptor_publisher_count() -> (d: ComponentDescriptor)
        ensures
            d == topic_info_descriptor("rewire.ROS2TopicInfo:publisher_count"@),
            component_key_of(d) == interned_key("rewire.ROS2TopicInfo:publisher_count"@),
            archetype_key_of(d) == Some(interned_key("rewire.ROS2TopicInfo"@)),
            component_type_key_of(d) == None::<u64>,
    {
        descriptor_with_archetype(
            descriptor_partial("rewire.ROS2TopicInfo:publisher_count"),
            "rewire.ROS2TopicInfo",
        )
    }

    /// Returns the [`ComponentDescriptor`] for the subscriber count column.
    pub fn descriptor_subscriber_count() -> (d: ComponentDescriptor)
        ensures
            d == topic_info_descriptor("rewire.ROS2TopicInfo:subscriber_count"@),
            component_key_of(d) == interned_key("rewire.ROS2TopicInfo:subscriber_count"@),
            archetype_key_of(d) == Some(interned_key("rewire.ROS2TopicInfo"@)),
            component_type_key_of(d) == None::<u64>,
    {
        descriptor_with_archetype(
            descriptor_partial("rewire.ROS2TopicInfo:subscriber_count"),
            "rewire.ROS2TopicInfo",
        )
    }

    /// The serialized batches of the archetype: each present column, in order.
    pub fn as_serialized_batches(&self) -> (batches: Vec<SerializedComponentBatch>)
        ensures
            batches@ == present(self.columns()),
    {
        let mut batches: Vec<SerializedComponentBatch> = Vec::new();
        push_present(&mut batches, &self.topic_names);
        push_present(&mut batches, &self.type_names);
        push_present(&mut batches, &self.publisher_counts);
        push_present(&mut batches, &self.subscriber_counts);
        proof {
            let e = Seq::<Option<SerializedComponentBatch>>::empty();
            assert(present(e) =~= Seq::<SerializedComponentBatch>::empty());
            lemma_present_push(e, self.topic_names);
            lemma_present_push(e.push(self.topic_names), self.type_names);
            lemma_present_push(e.push(self.topic_names).push(self.type_names), self.publisher_counts);
            lemma_present_push(
                e.push(self.topic_names).push(self.type_names).push(self.publisher_counts),
                self.subscriber_counts,
            );
            assert(self.columns() =~= e.push(self.topic_names).push(self.type_names).push(
                self.publisher_counts,
            ).push(self.subscriber_counts));
            assert(batches@ =~= present(self.columns()));
        }
        batches
    }
}

/// A new `ROS2TopicInfo` hands out one batch per column, four in all: the
/// serialized names, message types, publisher counts and subscriber counts.
pub proof fn law_topic_info_serializes_all_columns<'a>(topics: Seq<TopicMeta<'a>>)
    ensures
        present(topic_info_columns(topics)).len() == 4,
        present(topic_info_columns(topics)) == topic_info_columns(topics).map_values(
            |c: Option<SerializedComponentBatch>| c.unwrap(),
        ),
{
    let batches = topic_info_columns(topics).map_values(|c: Option<SerializedComponentBatch>| c.unwrap());
    assert(topic_info_columns(topics) =~= batches.map_values(|b: SerializedComponentBatch| Some(b)));
    lemma_present_all(batches);
}

/// Descriptors of different columns of `ROS2TopicInfo` differ: the column names
/// are different texts, so descriptors holding their interned keys, in
/// order, are pairwise distinct as long as the interner's hash does not
/// collide on them.
pub proof fn law_topic_info_descriptors_distinct(descriptors: Seq<ComponentDescriptor>)
    requires
        descriptors.len() == 4,
        forall|i: int|
            0 <= i < 4 ==> component_key_of(#[trigger] descriptors[i]) == interned_key(
                topic_info_components()[i],
            ),
        forall|i: int, j: int|
            0 <= i < 4 && 0 <= j < 4 && interned_key(topic_info_components()[i]) == interned_key(
                topic_info_components()[j],
            ) ==> topic_info_components()[i] == topic_info_components()[j],
    ensures
        forall|i: int, j: int|
            0 <= i < 4 && 0 <= j < 4 && i != j ==> descriptors[i] != descriptors[j],
{
    reveal_strlit("rewire.ROS2TopicInfo:topic_name");
    reveal_strlit("rewire.ROS2TopicInfo:type_name");
    reveal_strlit("rewire.ROS2TopicInfo:publisher_count");
    reveal_strlit("rewire.ROS2TopicInfo:subscriber_count");
    assert forall|i: int, j: int| 0 <= i < 4 && 0 <= j < 4 && i != j implies descriptors[i]
        != descriptors[j] by {
        let a = topic_info_components()[i];
        let b = topic_info_components()[j];
        assert(a[21] != b[21] || a[22] != b[22]);
        assert(component_key_of(descriptors[i]) != component_key_of(descriptors[j]));
    }
}

/// Every column of `ROS2TopicInfo` has one entry per topic, and entry `i` of
/// each column is what topic `i` holds: its name and its message type exactly,
/// and its publisher and subscriber counts as canonical base-ten numerals that
/// read back as those counts.
pub proof fn law_topic_info_columns_hold_the_topics<'a>(topics: Seq<TopicMeta<'a>>, i: int)
    requires
        0 <= i < topics.len(),
    ensures
        forall|c: int| 0 <= c < 4 ==> (#[trigger] topic_info_texts(topics)[c]).len() == topics.len(),
        topic_info_texts(topics)[0][i] == topics[i].name@,
        topic_info_texts(topics)[1][i] == topics[i].message_type@,
        is_canonical_numeral(topic_info_texts(topics)[2][i]),
        numeral_value(topic_info_texts(topics)[2][i]) == topics[i].publishers,
        is_canonical_numeral(topic_info_texts(topics)[3][i]),
        numeral_value(topic_info_texts(topics)[3][i]) == topics[i].subscribers,
{
    law_decimal_reads_back(topics[i].publishers as nat);
    law_decimal_reads_back(topics[i].subscribers as nat);
}

} // verus!
