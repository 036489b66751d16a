//! Text columns of a custom Rerun archetype: their descriptors, their
//! serialization into component batches, and the batches an archetype hands
//! out.
use re_sdk_types::components::Text;
use re_types_core::{try_serialize_field, ComponentDescriptor, SerializedComponentBatch};
use vstd::prelude::*;

verus! {

#[verifier::external_type_specification]
#[verifier::external_body]
pub struct ExComponentDescriptor(ComponentDescriptor);

#[verifier::external_type_specification]
#[verifier::external_body]
pub struct ExSerializedComponentBatch(SerializedComponentBatch);

/// The descriptor `ComponentDescriptor::partial` makes for a component name.
pub uninterp spec fn partial_descriptor(component: Seq<char>) -> ComponentDescriptor;

/// The descriptor `ComponentDescriptor::with_archetype` makes of `descriptor`
/// by setting its archetype name.
pub uninterp spec fn with_archetype_descriptor(
    descriptor: ComponentDescriptor,
    archetype: Seq<char>,
) -> ComponentDescriptor;

/// The batch `try_serialize_field::<Text>` makes of a descriptor and a column
/// of texts.
pub uninterp spec fn text_batch(descriptor: ComponentDescriptor, values: Seq<Seq<char>>) -> SerializedComponentBatch;

/// The 64-bit key `re_string_interner` interns a text under: its hash with
/// the interner's fixed seeds. Interned names (component and archetype names)
/// are held, and compared, by this key.
pub uninterp spec fn interned_key(text: Seq<char>) -> u64;

/// The interned key of the component name a descriptor holds: its
/// `component` field.
pub uninterp spec fn component_key_of(descriptor: ComponentDescriptor) -> u64;

/// The interned key of the archetype name a descriptor holds, if it holds
/// one: its `archetype` field.
pub uninterp spec fn archetype_key_of(descriptor: ComponentDescriptor) -> Option<u64>;

/// The interned key of the component type a descriptor holds, if it holds
/// one: its `component_type` field.
pub uninterp spec fn component_type_key_of(descriptor: ComponentDescriptor) -> Option<u64>;

/// The descriptor a batch holds: its `descriptor` field.
pub uninterp spec fn batch_descriptor_of(batch: SerializedComponentBatch) -> ComponentDescriptor;

/// The texts of a batch's Arrow string array, in order: its `array` field.
pub uninterp spec fn batch_texts_of(batch: SerializedComponentBatch) -> Seq<Seq<char>>;

/// The descriptor of the column `component` of the archetype `archetype`.
pub open spec fn column_descriptor(component: Seq<char>, archetype: Seq<char>) -> ComponentDescriptor {
    with_archetype_descriptor(partial_descriptor(component), archetype)
}

/// The number of bytes UTF-8 takes for one character.
pub open spec fn utf8_width(c: char) -> nat {
    if (c as u32) < 0x80 {
        1
    } else if (c as u32) < 0x800 {
        2
    } else if (c as u32) < 0x10000 {
        3
    } else {
        4
    }
}

/// The number of bytes UTF-8 takes for a text.
pub open spec fn utf8_len(s: Seq<char>) -> nat
    decreases s.len(),
{
    if s.len() == 0 {
        0
    } else {
        utf8_len(s.drop_last()) + utf8_width(s.last())
    }
}

/// The number of bytes UTF-8 takes for a whole column of texts.
pub open spec fn column_bytes(values: Seq<Seq<char>>) -> nat
    decreases values.len(),
{
    if values.len() == 0 {
        0
    } else {
        column_bytes(values.drop_last()) + utf8_len(values.last())
    }
}

/// Whether an Arrow string array can hold the column: its offsets are `i32`.
pub open spec fn column_fits(values: Seq<Seq<char>>) -> bool {
    column_bytes(values) <= i32::MAX
}

/// The texts of a column of strings.
pub open spec fn texts_of(values: Seq<String>) -> Seq<Seq<char>> {
    values.map_values(|s: String| s@)
}

/// The values among `columns` that are present, in order.
pub open spec fn present<T>(columns: Seq<Option<T>>) -> Seq<T>
    decreases columns.len(),
{
    if columns.len() == 0 {
        Seq::empty()
    } else {
        match columns.last() {
            Some(v) => present(columns.drop_last()).push(v),
            None => present(columns.drop_last()),
        }
    }
}

/// Adding a column at the end adds its batch, if any, at the end.
pub proof fn lemma_present_push<T>(columns: Seq<Option<T>>, column: Option<T>)
    ensures
        present(columns.push(column)) == present(columns) + present(seq![column]),
{
    assert(columns.push(column).drop_last() =~= columns);
    assert(seq![column].drop_last() =~= Seq::<Option<T>>::empty());
    assert(present(Seq::<Option<T>>::empty()) =~= Seq::<T>::empty());
    match column {
        Some(v) => {
            assert(present(seq![column]) =~= seq![v]);
            assert(present(columns.push(column)) =~= present(columns) + seq![v]);
        },
        None => {
            assert(present(seq![column]) =~= Seq::<T>::empty());
            assert(present(columns.push(column)) =~= present(columns) + Seq::<T>::empty());
        },
    }
}

/// When every column is present, the batches are the columns' own, in order.
pub proof fn lemma_present_all<T>(values: Seq<T>)
    ensures
        present(values.map_values(|v: T| Some(v))) == values,
    decreases values.len(),
{
    let columns = values.map_values(|v: T| Some(v));
    if values.len() == 0 {
        assert(present(columns) =~= values);
    } else {
        assert(columns.drop_last() =~= values.drop_last().map_values(|v: T| Some(v)));
        lemma_present_all(values.drop_last());
        assert(present(columns) =~= values);
    }
}

/// Calls `ComponentDescriptor::partial`. Its source sets the `component`
/// field to the name interned (held under the name's interned key) and
/// leaves `archetype` and `component_type` at `None`; the contract states
/// those fields by their keys and names the result. The interner keeps the
/// first text it met under a key, so the text of a name whose key collides
/// with an earlier one is not stated.
#[verifier::external_body]
pub(crate) fn descriptor_partial(component: &str) -> (d: ComponentDescriptor)
    ensures
        d == partial_descriptor(component@),
        component_key_of(d) == interned_key(component@),
        archetype_key_of(d) == None::<u64>,
        component_type_key_of(d) == None::<u64>,
{
    ComponentDescriptor::partial(component)
}

/// Calls `ComponentDescriptor::with_archetype`. Its source sets the
/// `archetype` field to the name interned and keeps the other fields; the
/// contract states those fields by their keys and names the result.
#[verifier::external_body]
pub(crate) fn descriptor_with_archetype(descriptor: ComponentDescriptor, archetype: &str) -> (d:
    ComponentDescriptor)
    ensures
        d == with_archetype_descriptor(descriptor, archetype@),
        component_key_of(d) == component_key_of(descriptor),
        archetype_key_of(d) == Some(interned_key(archetype@)),
        component_type_key_of(d) == component_type_key_of(descriptor),
{
    descriptor.with_archetype(archetype.into())
}

/// Calls `try_serialize_field::<Text>` with one text per value. For text the
/// serialization into an Arrow string array has no error case, so the result is
/// always `Some`, named here. It panics when the offsets of the array overflow
/// `i32`, that is when the values take more than `i32::MAX` bytes in all: the
/// `requires` rules that out. The batch holds the descriptor it was given
/// (`SerializedComponentBatch::new` stores it as is) and a string array of
/// the values, one entry each, in order.
#[verifier::external_body]
pub(crate) fn serialize_text_column(descriptor: ComponentDescriptor, values: Vec<String>) -> (b:
    Option<SerializedComponentBatch>)
    requires
        column_fits(texts_of(values@)),
    ensures
        b == Some(text_batch(descriptor, texts_of(values@))),
        batch_descriptor_of(b.unwrap()) == descriptor,
        batch_texts_of(b.unwrap()) == texts_of(values@),
{
    try_serialize_field::<Text>(descriptor, values)
}

/// Calls `Clone::clone` on a batch. Its type derives `Clone`: the copy holds
/// the same descriptor and shares the same Arrow array, so it is the same
/// value.
#[verifier::external_body]
pub(crate) fn clone_batch(batch: &SerializedComponentBatch) -> (c: SerializedComponentBatch)
    ensures
        c == *batch,
{
    batch.clone()
}

/// Appends the batch of `column` to `batches` when there is one.
pub(crate) fn push_present(
    batches: &mut Vec<SerializedComponentBatch>,
    column: &Option<SerializedComponentBatch>,
)
    ensures
        final(batches)@ == old(batches)@ + present(seq![*column]),
{
    let ghost single = seq![*column];
    assert(single.drop_last() =~= Seq::<Option<SerializedComponentBatch>>::empty());
    assert(present(single.drop_last()) =~= Seq::<SerializedComponentBatch>::empty());
    assert(single.last() == *column);
    match column {
        Some(batch) => {
            assert(present(single) =~= seq![*batch]);
            batches.push(clone_batch(batch));
        },
        None => {
            assert(present(single) =~= Seq::<SerializedComponentBatch>::empty());
        },
    }
    assert(batches@ =~= old(batches)@ + present(single));
}

} // verus!
