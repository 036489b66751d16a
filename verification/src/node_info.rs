//! The `ROS2NodeInfo` archetype: ROS 2 node metadata as text columns.
use crate::columns::{
    archetype_key_of, batch_descriptor_of, batch_texts_of, component_key_of, component_type_key_of,
    interned_key,
    column_descriptor, column_fits, descriptor_partial, lemma_present_all, lemma_present_push, descriptor_with_archetype, present,
    push_present, serialize_text_column, text_batch, texts_of,
};
use crate::decimal::{
    decimal, decimal_string, is_canonical_numeral, law_decimal_reads_back, numeral_value,
};
use re_types_core::{ComponentDescriptor, SerializedComponentBatch};
use vstd::prelude::*;

verus! {

/// Per-node metadata passed to [`ROS2NodeInfo::new`].
///
/// - `name`: fully qualified node name (e.g., `"/talker"`)
/// - `publisher_count`: number of topics this node publishes
/// - `subscriber_count`: number of topics this node subscribes to
/// - `transport`: discovery transport layer (e.g., `"dds"`, `"zenoh"`)
pub struct NodeMeta<'a> {
    pub name: &'a str,
    pub publisher_count: usize,
    pub subscriber_count: usize,
    pub transport: &'a str,
}

/// The node name column: one text per node.
pub open spec fn node_name_column<'a>(nodes: Seq<NodeMeta<'a>>) -> Seq<Seq<char>> {
    nodes.map_values(|n: NodeMeta<'a>| n.name@)
}

/// The publisher count column: each count in decimal.
pub open spec fn publisher_count_column<'a>(nodes: Seq<NodeMeta<'a>>) -> Seq<Seq<char>> {
    nodes.map_values(|n: NodeMeta<'a>| decimal(n.publisher_count as nat))
}

/// The subscriber count column: each count in decimal.
pub open spec fn subscriber_count_column<'a>(nodes: Seq<NodeMeta<'a>>) -> Seq<Seq<char>> {
    nodes.map_values(|n: NodeMeta<'a>| decimal(n.subscriber_count as nat))
}

/// The transport column: one text per node.
pub open spec fn transport_column<'a>(nodes: Seq<NodeMeta<'a>>) -> Seq<Seq<char>> {
    nodes.map_values(|n: NodeMeta<'a>| n.transport@)
}

/// The descriptor of one column of `ROS2NodeInfo`.
pub open spec fn node_info_descriptor(component: Seq<char>) -> ComponentDescriptor {
    column_descriptor(component, "rewire.ROS2NodeInfo"@)
}

/// The component names of the columns of `ROS2NodeInfo`, in column order.
pub open spec fn node_info_components() -> Seq<Seq<char>> {
    seq![
        "rewire.ROS2NodeInfo:node_name"@,
        "rewire.ROS2NodeInfo:publisher_count"@,
        "rewire.ROS2NodeInfo:subscriber_count"@,
        "rewire.ROS2NodeInfo:transport"@,
    ]
}

/// The text columns of `ROS2NodeInfo`, in column order.
pub open spec fn node_info_texts<'a>(nodes: Seq<NodeMeta<'a>>) -> Seq<Seq<Seq<char>>> {
    seq![
        node_name_column(nodes),
        publisher_count_column(nodes),
        subscriber_count_column(nodes),
        transport_column(nodes),
    ]
}

/// The descriptors of the columns of `ROS2NodeInfo`, in column order.
pub open spec fn node_info_descriptors() -> Seq<ComponentDescriptor> {
    node_info_components().map_values(|c: Seq<char>| node_info_descriptor(c))
}

/// Whether every column of the nodes fits in an Arrow string array.
pub open spec fn node_columns_fit<'a>(nodes: Seq<NodeMeta<'a>>) -> bool {
    &&& column_fits(node_name_column(nodes))
    &&& column_fits(publisher_count_column(nodes))
    &&& column_fits(subscriber_count_column(nodes))
    &&& column_fits(transport_column(nodes))
}

/// The four serialized columns of the nodes, in order: names, publisher
/// counts, subscriber counts, transports.
pub open spec fn node_info_columns<'a>(nodes: Seq<NodeMeta<'a>>) -> Seq<Option<SerializedComponentBatch>> {
    seq![
        Some(text_batch(node_info_descriptor("rewire.ROS2NodeInfo:node_name"@), node_name_column(nodes))),
        Some(text_batch(node_info_descriptor("rewire.ROS2NodeInfo:publisher_count"@), publisher_count_column(nodes))),
        Some(text_batch(node_info_descriptor("rewire.ROS2NodeInfo:subscriber_count"@), subscriber_count_column(nodes))),
        Some(text_batch(node_info_descriptor("rewire.ROS2NodeInfo:transport"@), transport_column(nodes))),
    ]
}

fn name_texts<'a>(nodes: &[NodeMeta<'a>]) -> (v: Vec<String>)
    ensures
        texts_of(v@) == node_name_column(nodes@),
{
    let mut v: Vec<String> = Vec::new();
    for i in 0..nodes.len()
        invariant
            v.len() == i,
            forall|j: int| 0 <= j < i ==> #[trigger] v@[j]@ == nodes@[j].name@,
    {
        v.push(nodes[i].name.to_owned());
    }
    assert(texts_of(v@) =~= node_name_column(nodes@));
    v
}

fn transport_texts<'a>(nodes: &[NodeMeta<'a>]) -> (v: Vec<String>)
    ensures
        texts_of(v@) == transport_column(nodes@),
{
    let mut v: Vec<String> = Vec::new();
    for i in 0..nodes.len()
        invariant
            v.len() == i,
            forall|j: int| 0 <= j < i ==> #[trigger] v@[j]@ == nodes@[j].transport@,
    {
        v.push(nodes[i].transport.to_owned());
    }
    assert(texts_of(v@) =~= transport_column(nodes@));
    v
}

fn publisher_texts<'a>(nodes: &[NodeMeta<'a>]) -> (v: Vec<String>)
    ensures
        texts_of(v@) == publisher_count_column(nodes@),
{
    let mut v: Vec<String> = Vec::new();
    for i in 0..nodes.len()
        invariant
            v.len() == i,
            forall|j: int| 0 <= j < i ==> #[trigger] v@[j]@ == decimal(nodes@[j].publisher_count as nat),
    {
        v.push(decimal_string(nodes[i].publisher_count as u64));
    }
    assert(texts_of(v@) =~= publisher_count_column(nodes@));
    v
}

fn subscriber_texts<'a>(nodes: &[NodeMeta<'a>]) -> (v: Vec<String>)
    ensures
        texts_of(v@) == subscriber_count_column(nodes@),
{
    let mut v: Vec<String> = Vec::new();
    for i in 0..nodes.len()
        invariant
            v.len() == i,
            forall|j: int| 0 <= j < i ==> #[trigger] v@[j]@ == decimal(nodes@[j].subscriber_count as nat),
    {
        v.push(decimal_string(nodes[i].subscriber_count as u64));
    }
    assert(texts_of(v@) =~= subscriber_count_column(nodes@));
    v
}

/// Custom Rerun archetype for ROS 2 node metadata.
///
/// Logged at `/rewire/nodes` as a batch where each field is a column with one
/// entry per node. All fields are stored as text components with custom
/// descriptors under the `rewire.ROS2NodeInfo` archetype namespace.
pub struct ROS2NodeInfo {
    node_names: Option<SerializedComponentBatch>,
    publisher_counts: Option<SerializedComponentBatch>,
    subscriber_counts: Option<SerializedComponentBatch>,
    transports: Option<SerializedComponentBatch>,
}

impl ROS2NodeInfo {
    /// The serialized columns, in order: names, publisher counts, subscriber
    /// counts, transports.
    pub closed spec fn columns(&self) -> Seq<Option<SerializedComponentBatch>> {
        seq![self.node_names, self.publisher_counts, self.subscriber_counts, self.transports]
    }

    /// Creates a new [`ROS2NodeInfo`] from a slice of node metadata.
    ///
    /// Each field is serialized as a text column. Counts are converted to
    /// decimal strings for batch-oriented storage.
    pub fn new(nodes: &[NodeMeta<'_>]) -> (info: Self)
        requires
            node_columns_fit(nodes@),
        ensures
            info.columns() == node_info_columns(nodes@),
            forall|i: int|
                0 <= i < 4 ==> batch_descriptor_of(#[trigger] info.columns()[i].unwrap())
                    == node_info_descriptors()[i],
            forall|i: int|
                0 <= i < 4 ==> batch_texts_of(#[trigger] info.columns()[i].unwrap())
                    == node_info_texts(nodes@)[i],
            forall|i: int|
                0 <= i < 4 ==> batch_texts_of(#[trigger] info.columns()[i].unwrap()).len()
                    == nodes.len(),
    {
        let names = name_texts(nodes);
        let pubs = publisher_texts(nodes);
        let subs = subscriber_texts(nodes);
        let transports = transport_texts(nodes);
        ROS2NodeInfo {
            node_names: serialize_text_column(Self::descriptor_node_name(), names),
            publisher_counts: serialize_text_column(Self::descriptor_publisher_count(), pubs),
            subscriber_counts: serialize_text_column(Self::descriptor_subscriber_count(), subs),
            transports: serialize_text_column(Self::descriptor_transport(), transports),
        }
    }

    /// Returns the [`ComponentDescriptor`] for the node name column.
    pub fn descriptor_node_name() -> (d: ComponentDescriptor)
        ensures
            d == node_info_descriptor("rewire.ROS2NodeInfo:node_name"@),
            component_key_of(d) == interned_key("rewire.ROS2NodeInfo:node_name"@),
            archetype_key_of(d) == Some(interned_key("rewire.ROS2NodeInfo"@)),
            component_type_key_of(d) == None::<u64>,
    {
        descriptor_with_archetype(
            descriptor_partial("rewire.ROS2NodeInfo:node_name"),
            "rewire.ROS2NodeInfo",
        )
    }

    /// Returns the [`ComponentDescriptor`] for the publisher count column.
    pub fn descriptor_publisher_count() -> (d: ComponentDescriptor)
        ensures
            d == node_info_descriptor("rewire.ROS2NodeInfo:publisher_count"@),
            component_key_of(d) == interned_key("rewire.ROS2NodeInfo:publisher_count"@),
            archetype_key_of(d) == Some(interned_key("rewire.ROS2NodeInfo"@)),
            component_type_key_of(d) == None::<u64>,
    {
        descriptor_with_archetype(
            descriptor_partial("rewire.ROS2NodeInfo:publisher_count"),
            "rewire.ROS2NodeInfo",
        )
    }

    /// Returns the [`ComponentDescriptor`] for the subscriber count column.
    pub fn descriptor_subscriber_count() -> (d: ComponentDescriptor)
        ensures
            d == node_info_descriptor("rewire.ROS2NodeInfo:subscriber_count"@),
            component_key_of(d) == interned_key("rewire.ROS2NodeInfo:subscriber_count"@),
            archetype_key_of(d) == Some(interned_key("rewire.ROS2NodeInfo"@)),
            component_type_key_of(d) == None::<u64>,
    {
        descriptor_with_archetype(
            descriptor_partial("rewire.ROS2NodeInfo:subscriber_count"),
            "rewire.ROS2NodeInfo",
        )
    }

    /// Returns the [`ComponentDescriptor`] for the transport column.
    pub fn descriptor_transport() -> (d: ComponentDescriptor)
        ensures
            d == node_info_descriptor("rewire.ROS2NodeInfo:transport"@),
            component_key_of(d) == interned_key("rewire.ROS2NodeInfo:transport"@),
            archetype_key_of(d) == Some(interned_key("rewire.ROS2NodeInfo"@)),
            component_type_key_of(d) == None::<u64>,
    {
        descriptor_with_archetype(
            descriptor_partial("rewire.ROS2NodeInfo:transport"),
            "rewire.ROS2NodeInfo",
        )
    }

    /// The serialized batches of the archetype: each present column, in order.
    pub fn as_serialized_batches(&self) -> (batches: Vec<SerializedComponentBatch>)
        ensures
            batches@ == present(self.columns()),
    {
        let mut batches: Vec<SerializedComponentBatch> = Vec::new();
        push_present(&mut batches, &self.node_names);
        push_present(&mut batches, &self.publisher_counts);
        push_present(&mut batches, &self.subscriber_counts);
        push_present(&mut batches, &self.transports);
        proof {
            let e = Seq::<Option<SerializedComponentBatch>>::empty();
            assert(present(e) =~= Seq::<SerializedComponentBatch>::empty());
            lemma_present_push(e, self.node_names);
            lemma_present_push(e.push(self.node_names), self.publisher_counts);
            lemma_present_push(e.push(self.node_names).push(self.publisher_counts), self.subscriber_counts);
            lemma_present_push(
                e.push(self.node_names).push(self.publisher_counts).push(self.subscriber_counts),
                self.transports,
            );
            assert(self.columns() =~= e.push(self.node_names).push(self.publisher_counts).push(
                self.subscriber_counts,
            ).push(self.transports));
            assert(batches@ =~= present(self.columns()));
        }
        batches
    }
}

/// A new `ROS2NodeInfo` hands out one batch per column, four in all: the
/// serialized names, publisher counts, subscriber counts and transports.
pub proof fn law_node_info_serializes_all_columns<'a>(nodes: Seq<NodeMeta<'a>>)
    ensures
        present(node_info_columns(nodes)).len() == 4,
        present(node_info_columns(nodes)) == node_info_columns(nodes).map_values(
            |c: Option<SerializedComponentBatch>| c.unwrap(),
        ),
{
    let batches = node_info_columns(nodes).map_values(|c: Option<SerializedComponentBatch>| c.unwrap());
    assert(node_info_columns(nodes) =~= batches.map_values(|b: SerializedComponentBatch| Some(b)));
    lemma_present_all(batches);
}

/// Descriptors of different columns of `ROS2NodeInfo` differ: the column names
/// are different texts, so descriptors holding their interned keys, in
/// order, are pairwise distinct as long as the interner's hash does not
/// collide on them.
pub proof fn law_node_info_descriptors_distinct(descriptors: Seq<ComponentDescriptor>)
    requires
        descriptors.len() == 4,
        forall|i: int|
            0 <= i < 4 ==> component_key_of(#[trigger] descriptors[i]) == interned_key(
                node_info_components()[i],
            ),
        forall|i: int, j: int|
            0 <= i < 4 && 0 <= j < 4 && interned_key(node_info_components()[i]) == interned_key(
                node_info_components()[j],
            ) ==> node_info_components()[i] == node_info_components()[j],
    ensures
        forall|i: int, j: int|
            0 <= i < 4 && 0 <= j < 4 && i != j ==> descriptors[i] != descriptors[j],
{
    reveal_strlit("rewire.ROS2NodeInfo:node_name");
    reveal_strlit("rewire.ROS2NodeInfo:publisher_count");
    reveal_strlit("rewire.ROS2NodeInfo:subscriber_count");
    reveal_strlit("rewire.ROS2NodeInfo:transport");
    assert forall|i: int, j: int| 0 <= i < 4 && 0 <= j < 4 && i != j implies descriptors[i]
        != descriptors[j] by {
        let a = node_info_components()[i];
        let b = node_info_components()[j];
        assert(a[20] != b[20]);
        assert(component_key_of(descriptors[i]) != component_key_of(descriptors[j]));
    }
}

/// Every column of `ROS2NodeInfo` has one entry per node, and entry `i` of each
/// column is what node `i` holds: its name and its transport exactly, and its
/// publisher and subscriber counts as canonical base-ten numerals that read
/// back as those counts.
pub proof fn law_node_info_columns_hold_the_nodes<'a>(nodes: Seq<NodeMeta<'a>>, i: int)
    requires
        0 <= i < nodes.len(),
    ensures
        forall|c: int| 0 <= c < 4 ==> (#[trigger] node_info_texts(nodes)[c]).len() == nodes.len(),
        node_info_texts(nodes)[0][i] == nodes[i].name@,
        is_canonical_numeral(node_info_texts(nodes)[1][i]),
        numeral_value(node_info_texts(nodes)[1][i]) == nodes[i].publisher_count,
        is_canonical_numeral(node_info_texts(nodes)[2][i]),
        numeral_value(node_info_texts(nodes)[2][i]) == nodes[i].subscriber_count,
        node_info_texts(nodes)[3][i] == nodes[i].transport@,
{
    law_decimal_reads_back(nodes[i].publisher_count as nat);
    law_decimal_reads_back(nodes[i].subscriber_count as nat);
}

} // verus!
