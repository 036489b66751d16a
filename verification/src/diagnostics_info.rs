//! The `ROS2DiagnosticsInfo` archetype: per-topic diagnostics as text columns.
use crate::columns::{
    archetype_key_of, batch_descriptor_of, batch_texts_of, component_key_of, component_type_key_of,
    interned_key,
    column_descriptor, column_fits, descriptor_partial, descriptor_with_archetype,
    lemma_present_all, lemma_present_push, present, push_present, serialize_text_column, text_batch, texts_of,
};
use crate::decimal::{
    decimal, decimal_string, is_canonical_numeral, law_decimal_reads_back, numeral_value,
};
use re_types_core::{ComponentDescriptor, SerializedComponentBatch};
use vstd::prelude::*;

verus! {

/// Per-topic diagnostics passed to [`ROS2DiagnosticsInfo::from_rows`], with
/// the measured rates already written as text (one decimal place).
///
/// - `topic`: fully qualified topic name (e.g., `"/chatter"`)
/// - `hz`: message frequency in Hz, as text (e.g., `"10.0"`)
/// - `bytes_per_sec`: throughput in bytes per second, as text
/// - `drops`: cumulative dropped message count
/// - `latency_ms`: EMA latency in milliseconds as text, or `None` when sim
///   time is active or no latency data is available
pub struct DiagnosticsRow<'a> {
    pub topic: &'a str,
    pub hz: String,
    pub bytes_per_sec: String,
    pub drops: u64,
    pub latency_ms: Option<String>,
}

/// The text a latency is stored as: the text itself, or the empty string when
/// there is none.
pub open spec fn latency_text(latency_ms: Option<String>) -> Seq<char> {
    match latency_ms {
        Some(s) => s@,
        None => Seq::empty(),
    }
}

/// The topic column: one text per row.
pub open spec fn diag_topic_column<'a>(rows: Seq<DiagnosticsRow<'a>>) -> Seq<Seq<char>> {
    rows.map_values(|r: DiagnosticsRow<'a>| r.topic@)
}

/// The frequency column: the text of each row's frequency.
pub open spec fn hz_column<'a>(rows: Seq<DiagnosticsRow<'a>>) -> Seq<Seq<char>> {
    rows.map_values(|r: DiagnosticsRow<'a>| r.hz@)
}

/// The throughput column: the text of each row's throughput.
pub open spec fn bytes_per_sec_column<'a>(rows: Seq<DiagnosticsRow<'a>>) -> Seq<Seq<char>> {
    rows.map_values(|r: DiagnosticsRow<'a>| r.bytes_per_sec@)
}

/// The drop count column: each count in decimal.
pub open spec fn drops_column<'a>(rows: Seq<DiagnosticsRow<'a>>) -> Seq<Seq<char>> {
    rows.map_values(|r: DiagnosticsRow<'a>| decimal(r.drops as nat))
}

/// The latency column: each latency's text, empty where there is none.
pub open spec fn latency_column<'a>(rows: Seq<DiagnosticsRow<'a>>) -> Seq<Seq<char>> {
    rows.map_values(|r: DiagnosticsRow<'a>| latency_text(r.latency_ms))
}

/// The descriptor of one column of `ROS2DiagnosticsInfo`.
pub open spec fn diagnostics_descriptor(component: Seq<char>) -> ComponentDescriptor {
    column_descriptor(component, "rewire.ROS2DiagnosticsInfo"@)
}

/// The component names of the columns of `ROS2DiagnosticsInfo`, in column order.
pub open spec fn diagnostics_components() -> Seq<Seq<char>> {
    seq![
        "rewire.ROS2DiagnosticsInfo:topic_name"@,
        "rewire.ROS2DiagnosticsInfo:hz"@,
        "rewire.ROS2DiagnosticsInfo:bytes_per_sec"@,
        "rewire.ROS2DiagnosticsInfo:drops"@,
        "rewire.ROS2DiagnosticsInfo:latency_ms"@,
    ]
}

/// The text columns of `ROS2DiagnosticsInfo`, in column order.
pub open spec fn diagnostics_texts<'a>(rows: Seq<DiagnosticsRow<'a>>) -> Seq<Seq<Seq<char>>> {
    seq![
        diag_topic_column(rows),
        hz_column(rows),
        bytes_per_sec_column(rows),
        drops_column(rows),
        latency_column(rows),
    ]
}

/// The descriptors of the columns of `ROS2DiagnosticsInfo`, in column order.
pub open spec fn diagnostics_descriptors() -> Seq<ComponentDescriptor> {
    diagnostics_components().map_values(|c: Seq<char>| diagnostics_descriptor(c))
}

/// Whether every column of the rows fits in an Arrow string array.
pub open spec fn diagnostics_columns_fit<'a>(rows: Seq<DiagnosticsRow<'a>>) -> bool {
    &&& column_fits(diag_topic_column(rows))
    &&& column_fits(hz_column(rows))
    &&& column_fits(bytes_per_sec_column(rows))
    &&& column_fits(drops_column(rows))
    &&& column_fits(latency_column(rows))
}

/// The five serialized columns of the rows, in order: topics, frequencies,
/// throughputs, drop counts, latencies.
pub open spec fn diagnostics_info_columns<'a>(rows: Seq<DiagnosticsRow<'a>>) -> Seq<Option<SerializedComponentBatch>> {
    seq![
        Some(text_batch(diagnostics_descriptor("rewire.ROS2DiagnosticsInfo:topic_name"@), diag_topic_column(rows))),
        Some(text_batch(diagnostics_descriptor("rewire.ROS2DiagnosticsInfo:hz"@), hz_column(rows))),
        Some(text_batch(diagnostics_descriptor("rewire.ROS2DiagnosticsInfo:bytes_per_sec"@), bytes_per_sec_column(rows))),
        Some(text_batch(diagnostics_descriptor("rewire.ROS2DiagnosticsInfo:drops"@), drops_column(rows))),
        Some(text_batch(diagnostics_descriptor("rewire.ROS2DiagnosticsInfo:latency_ms"@), latency_column(rows))),
    ]
}

fn topic_texts<'a>(rows: &[DiagnosticsRow<'a>]) -> (v: Vec<String>)
    ensures
        texts_of(v@) == diag_topic_column(rows@),
{
    let mut v: Vec<String> = Vec::new();
    for i in 0..rows.len()
        invariant
            v.len() == i,
            forall|j: int| 0 <= j < i ==> #[trigger] v@[j]@ == rows@[j].topic@,
    {
        v.push(rows[i].topic.to_owned());
    }
    assert(texts_of(v@) =~= diag_topic_column(rows@));
    v
}

fn hz_texts<'a>(rows: &[DiagnosticsRow<'a>]) -> (v: Vec<String>)
    ensures
        texts_of(v@) == hz_column(rows@),
{
    let mut v: Vec<String> = Vec::new();
    for i in 0..rows.len()
        invariant
            v.len() == i,
            forall|j: int| 0 <= j < i ==> #[trigger] v@[j]@ == rows@[j].hz@,
    {
        v.push(rows[i].hz.clone());
    }
    assert(texts_of(v@) =~= hz_column(rows@));
    v
}

fn bytes_per_sec_texts<'a>(rows: &[DiagnosticsRow<'a>]) -> (v: Vec<String>)
    ensures
        texts_of(v@) == bytes_per_sec_column(rows@),
{
    let mut v: Vec<String> = Vec::new();
    for i in 0..rows.len()
        invariant
            v.len() == i,
            forall|j: int| 0 <= j < i ==> #[trigger] v@[j]@ == rows@[j].bytes_per_sec@,
    {
        v.push(rows[i].bytes_per_sec.clone());
    }
    assert(texts_of(v@) =~= bytes_per_sec_column(rows@));
    v
}

fn drops_texts<'a>(rows: &[DiagnosticsRow<'a>]) -> (v: Vec<String>)
    ensures
        texts_of(v@) == drops_column(rows@),
{
    let mut v: Vec<String> = Vec::new();
    for i in 0..rows.len()
        invariant
            v.len() == i,
            forall|j: int| 0 <= j < i ==> #[trigger] v@[j]@ == decimal(rows@[j].drops as nat),
    {
        v.push(decimal_string(rows[i].drops));
    }
    assert(texts_of(v@) =~= drops_column(rows@));
    v
}

fn latency_texts<'a>(rows: &[DiagnosticsRow<'a>]) -> (v: Vec<String>)
    ensures
        texts_of(v@) == latency_column(rows@),
{
    let mut v: Vec<String> = Vec::new();
    for i in 0..rows.len()
        invariant
            v.len() == i,
            forall|j: int| 0 <= j < i ==> #[trigger] v@[j]@ == latency_text(rows@[j].latency_ms),
    {
        let text = match &rows[i].latency_ms {
            Some(s) => s.clone(),
            None => String::new(),
        };
        v.push(text);
    }
    assert(texts_of(v@) =~= latency_column(rows@));
    v
}

/// Custom Rerun archetype for per-topic diagnostics data.
///
/// Logged at `/rewire/diagnostics` as a batch where each field is a column
/// with one entry per subscribed topic. All fields are stored as text
/// components; numeric values are stored as strings.
pub struct ROS2DiagnosticsInfo {
    topic_names: Option<SerializedComponentBatch>,
    hz_values: Option<SerializedComponentBatch>,
    bytes_per_sec_values: Option<SerializedComponentBatch>,
    drop_counts: Option<SerializedComponentBatch>,
    latency_ms_values: Option<SerializedComponentBatch>,
}

impl ROS2DiagnosticsInfo {
    /// The serialized columns, in order: topics, frequencies, throughputs,
    /// drop counts, latencies.
    pub closed spec fn columns(&self) -> Seq<Option<SerializedComponentBatch>> {
        seq![
            self.topic_names,
            self.hz_values,
            self.bytes_per_sec_values,
            self.drop_counts,
            self.latency_ms_values,
        ]
    }

    /// Creates a new [`ROS2DiagnosticsInfo`] from per-topic diagnostics whose
    /// rates are already written as text.
    ///
    /// Each field is serialized as a text column. Drop counts are written in
    /// decimal; a missing latency is stored as an empty string.
    pub fn from_rows(rows: &[DiagnosticsRow<'_>]) -> (info: Self)
        requires
            diagnostics_columns_fit(rows@),
        ensures
            info.columns() == diagnostics_info_columns(rows@),
            forall|i: int|
                0 <= i < 5 ==> batch_descriptor_of(#[trigger] info.columns()[i].unwrap())
                    == diagnostics_descriptors()[i],
            forall|i: int|
                0 <= i < 5 ==> batch_texts_of(#[trigger] info.columns()[i].unwrap())
                    == diagnostics_texts(rows@)[i],
            forall|i: int|
                0 <= i < 5 ==> batch_texts_of(#[trigger] info.columns()[i].unwrap()).len()
                    == rows.len(),
    {
        let topics = topic_texts(rows);
        let hz = hz_texts(rows);
        let bps = bytes_per_sec_texts(rows);
        let drops = drops_texts(rows);
        let latency = latency_texts(rows);
        ROS2DiagnosticsInfo {
            topic_names: serialize_text_column(Self::descriptor_topic_name(), topics),
            hz_values: serialize_text_column(Self::descriptor_hz(), hz),
            bytes_per_sec_values: serialize_text_column(Self::descriptor_bytes_per_sec(), bps),
            drop_counts: serialize_text_column(Self::descriptor_drops(), drops),
            latency_ms_values: serialize_text_column(Self::descriptor_latency_ms(), latency),
        }
    }

    /// Returns the [`ComponentDescriptor`] for the topic name column.
    pub fn descriptor_topic_name() -> (d: ComponentDescriptor)
        ensures
            d == diagnostics_descriptor("rewire.ROS2DiagnosticsInfo:topic_name"@),
            component_key_of(d) == interned_key("rewire.ROS2DiagnosticsInfo:topic_name"@),
            archetype_key_of(d) == Some(interned_key("rewire.ROS2DiagnosticsInfo"@)),
            component_type_key_of(d) == None::<u64>,
    {
        descriptor_with_archetype(
            descriptor_partial("rewire.ROS2DiagnosticsInfo:topic_name"),
            "rewire.ROS2DiagnosticsInfo",
        )
    }

    /// Returns the [`ComponentDescriptor`] for the Hz column.
    pub fn descriptor_hz() -> (d: ComponentDescriptor)
        ensures
            d == diagnostics_descriptor("rewire.ROS2DiagnosticsInfo:hz"@),
            component_key_of(d) == interned_key("rewire.ROS2DiagnosticsInfo:hz"@),
            archetype_key_of(d) == Some(interned_key("rewire.ROS2DiagnosticsInfo"@)),
            component_type_key_of(d) == None::<u64>,
    {
        descriptor_with_archetype(
            descriptor_partial("rewire.ROS2DiagnosticsInfo:hz"),
            "rewire.ROS2DiagnosticsInfo",
        )
    }

    /// Returns the [`ComponentDescriptor`] for the bytes/sec column.
    pub fn descriptor_bytes_per_sec() -> (d: ComponentDescriptor)
        ensures
            d == diagnostics_descriptor("rewire.ROS2DiagnosticsInfo:bytes_per_sec"@),
            component_key_of(d) == interned_key("rewire.ROS2DiagnosticsInfo:bytes_per_sec"@),
            archetype_key_of(d) == Some(interned_key("rewire.ROS2DiagnosticsInfo"@)),
            component_type_key_of(d) == None::<u64>,
    {
        descriptor_with_archetype(
            descriptor_partial("rewire.ROS2DiagnosticsInfo:bytes_per_sec"),
            "rewire.ROS2DiagnosticsInfo",
        )
    }

    /// Returns the [`ComponentDescriptor`] for the drops column.
    pub fn descriptor_drops() -> (d: ComponentDescriptor)
        ensures
            d == diagnostics_descriptor("rewire.ROS2DiagnosticsInfo:drops"@),
            component_key_of(d) == interned_key("rewire.ROS2DiagnosticsInfo:drops"@),
            archetype_key_of(d) == Some(interned_key("rewire.ROS2DiagnosticsInfo"@)),
            component_type_key_of(d) == None::<u64>,
    {
        descriptor_with_archetype(
            descriptor_partial("rewire.ROS2DiagnosticsInfo:drops"),
            "rewire.ROS2DiagnosticsInfo",
        )
    }

    /// Returns the [`ComponentDescriptor`] for the latency column.
    pub fn descriptor_latency_ms() -> (d: ComponentDescriptor)
        ensures
            d == diagnostics_descriptor("rewire.ROS2DiagnosticsInfo:latency_ms"@),
            component_key_of(d) == interned_key("rewire.ROS2DiagnosticsInfo:latency_ms"@),
            archetype_key_of(d) == Some(interned_key("rewire.ROS2DiagnosticsInfo"@)),
            component_type_key_of(d) == None::<u64>,
    {
        descriptor_with_archetype(
            descriptor_partial("rewire.ROS2DiagnosticsInfo:latency_ms"),
            "rewire.ROS2DiagnosticsInfo",
        )
    }

    /// The serialized batches of the archetype: each present column, in order.
    pub fn as_serialized_batches(&self) -> (batches: Vec<SerializedComponentBatch>)
        ensures
            batches@ == present(self.columns()),
    {
        let mut batches: Vec<SerializedComponentBatch> = Vec::new();
        push_present(&mut batches, &self.topic_names);
        push_present(&mut batches, &self.hz_values);
        push_present(&mut batches, &self.bytes_per_sec_values);
        push_present(&mut batches, &self.drop_counts);
        push_present(&mut batches, &self.latency_ms_values);
        proof {
            let e = Seq::<Option<SerializedComponentBatch>>::empty();
            let s1 = e.push(self.topic_names);
            let s2 = s1.push(self.hz_values);
            let s3 = s2.push(self.bytes_per_sec_values);
            let s4 = s3.push(self.drop_counts);
            assert(present(e) =~= Seq::<SerializedComponentBatch>::empty());
            lemma_present_push(e, self.topic_names);
            lemma_present_push(s1, self.hz_values);
            lemma_present_push(s2, self.bytes_per_sec_values);
            lemma_present_push(s3, self.drop_counts);
            lemma_present_push(s4, self.latency_ms_values);
            assert(self.columns() =~= s4.push(self.latency_ms_values));
            assert(batches@ =~= present(self.columns()));
        }
        batches
    }
}

/// A new `ROS2DiagnosticsInfo` hands out one batch per column, five in all:
/// the serialized topics, frequencies, throughputs, drop counts and latencies.
pub proof fn law_diagnostics_info_serializes_all_columns<'a>(rows: Seq<DiagnosticsRow<'a>>)
    ensures
        present(diagnostics_info_columns(rows)).len() == 5,
        present(diagnostics_info_columns(rows)) == diagnostics_info_columns(rows).map_values(
            |c: Option<SerializedComponentBatch>| c.unwrap(),
        ),
{
    let batches = diagnostics_info_columns(rows).map_values(|c: Option<SerializedComponentBatch>| c.unwrap());
    assert(diagnostics_info_columns(rows) =~= batches.map_values(|b: SerializedComponentBatch| Some(b)));
    lemma_present_all(batches);
}

/// Descriptors of different columns of `ROS2DiagnosticsInfo` differ: the column names
/// are different texts, so descriptors holding their interned keys, in
/// order, are pairwise distinct as long as the interner's hash does not
/// collide on them.
pub proof fn law_diagnostics_descriptors_distinct(descriptors: Seq<ComponentDescriptor>)
    requires
        descriptors.len() == 5,
        forall|i: int|
            0 <= i < 5 ==> component_key_of(#[trigger] descriptors[i]) == interned_key(
                diagnostics_components()[i],
            ),
        forall|i: int, j: int|
            0 <= i < 5 && 0 <= j < 5 && interned_key(diagnostics_components()[i]) == interned_key(
                diagnostics_components()[j],
            ) ==> diagnostics_components()[i] == diagnostics_components()[j],
    ensures
        forall|i: int, j: int|
            0 <= i < 5 && 0 <= j < 5 && i != j ==> descriptors[i] != descriptors[j],
{
    reveal_strlit("rewire.ROS2DiagnosticsInfo:topic_name");
    reveal_strlit("rewire.ROS2DiagnosticsInfo:hz");
    reveal_strlit("rewire.ROS2DiagnosticsInfo:bytes_per_sec");
    reveal_strlit("rewire.ROS2DiagnosticsInfo:drops");
    reveal_strlit("rewire.ROS2DiagnosticsInfo:latency_ms");
    assert forall|i: int, j: int| 0 <= i < 5 && 0 <= j < 5 && i != j implies descriptors[i]
        != descriptors[j] by {
        let a = diagnostics_components()[i];
        let b = diagnostics_components()[j];
        assert(a[27] != b[27]);
        assert(component_key_of(descriptors[i]) != component_key_of(descriptors[j]));
    }
}

/// Every column of `ROS2DiagnosticsInfo` has one entry per row, and entry `i`
/// of each column is what row `i` holds: its topic, frequency and throughput
/// texts exactly, its drop count as a canonical base-ten numeral that reads
/// back as that count, and its latency text when it has one, the empty text
/// when it has none, whatever its other fields hold.
pub proof fn law_diagnostics_columns_hold_the_rows<'a>(rows: Seq<DiagnosticsRow<'a>>, i: int)
    requires
        0 <= i < rows.len(),
    ensures
        forall|c: int| 0 <= c < 5 ==> (#[trigger] diagnostics_texts(rows)[c]).len() == rows.len(),
        diagnostics_texts(rows)[0][i] == rows[i].topic@,
        diagnostics_texts(rows)[1][i] == rows[i].hz@,
        diagnostics_texts(rows)[2][i] == rows[i].bytes_per_sec@,
        is_canonical_numeral(diagnostics_texts(rows)[3][i]),
        numeral_value(diagnostics_texts(rows)[3][i]) == rows[i].drops,
        rows[i].latency_ms matches Some(s) ==> diagnostics_texts(rows)[4][i] == s@,
        rows[i].latency_ms is None ==> diagnostics_texts(rows)[4][i] == Seq::<char>::empty(),
{
    law_decimal_reads_back(rows[i].drops as nat);
}

} // verus!
