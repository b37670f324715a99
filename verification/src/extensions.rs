//! The open extension map of a content envelope: names, values, and the ordered map that holds
//! them.

use crate::cbor::{
    canonical_clone, canonical_into_value, canonical_model, canonical_of, cbor_as_integer,
    cbor_clone,
    cbor_map, cbor_model, cbor_model_pairs, cbor_signed, CborModel,
};
use crate::common::{Tstr, TstrRef};
use crate::error::MimiContentError;
use crate::reading::malformed;
use crate::traits::{MimiContentAsRef, MimiContentDeserialize, MimiContentSerialize};
use indexmap::IndexMap;
use vstd::prelude::*;
use vstd::std_specs::convert::FromSpecImpl;

verus! {

/// `indexmap::IndexMap`: a hash map that keeps its entries in the order in which their keys
/// were first inserted.
#[verifier::external_type_specification]
#[verifier::external_body]
#[verifier::reject_recursive_types(Key)]
#[verifier::reject_recursive_types(Val)]
#[verifier::reject_recursive_types(State)]
pub struct ExIndexMap<Key, Val, State>(IndexMap<Key, Val, State>);

/// The name of an extension, as a specification sees it.
pub enum NameView {
    Int(i64),
    Str(Seq<char>),
}

/// The name of an extension: an integer or a text. The integers 1 and 2 name the sender URI
/// and the room URI.
#[derive(Debug, Hash, PartialEq, Eq)]
pub enum Name {
    Int(i64),
    Str(Tstr),
}

impl View for Name {
    type V = NameView;

    open spec fn view(&self) -> NameView {
        match self {
            Name::Int(number) => NameView::Int(*number),
            Name::Str(tstr) => NameView::Str(tstr@),
        }
    }
}

impl Clone for Name {
    fn clone(&self) -> (copy: Self)
        ensures
            copy@ == self@,
    {
        match self {
            Name::Int(number) => Name::Int(*number),
            Name::Str(tstr) => Name::Str(tstr.clone()),
        }
    }
}

/// A borrowed name.
#[derive(Debug, Hash, PartialEq, Eq)]
pub enum NameRef<'a> {
    Int(&'a i64),
    Str(TstrRef<'a>),
}

impl<'a> View for NameRef<'a> {
    type V = NameView;

    open spec fn view(&self) -> NameView {
        match self {
            NameRef::Int(number) => NameView::Int(**number),
            NameRef::Str(tstr) => NameView::Str(tstr@),
        }
    }
}

impl<'a> Clone for NameRef<'a> {
    fn clone(&self) -> (copy: Self)
        ensures
            copy@ == self@,
    {
        match self {
            NameRef::Int(number) => NameRef::Int(*number),
            NameRef::Str(tstr) => NameRef::Str(tstr.clone()),
        }
    }
}

impl MimiContentAsRef for Name {
    type Target<'a> = NameRef<'a>;

    fn as_ref(&self) -> (r: NameRef<'_>)
        ensures
            r@ == self@,
    {
        match self {
            Self::Int(number) => NameRef::Int(number),
            Self::Str(tstr) => NameRef::Str(tstr.as_ref()),
        }
    }
}

/// The CBOR tree of a name: an integer item or a text item.
pub open spec fn encode_name(name: NameView) -> CborModel {
    match name {
        NameView::Int(number) => CborModel::Integer(number as int),
        NameView::Str(text) => CborModel::Text(text),
    }
}

/// The name that a CBOR tree stands for: an integer that fits in 64 bits with a sign, or a
/// text.
pub open spec fn decode_name(tree: CborModel) -> Option<NameView> {
    match tree {
        CborModel::Integer(n) => if i64::MIN <= n <= i64::MAX {
            Some(NameView::Int(n as i64))
        } else {
            None
        },
        CborModel::Text(text) => Some(NameView::Str(text)),
        _ => None,
    }
}

/// Reading what a name is written as gives the name back.
pub proof fn decode_name_inverts_encode(name: NameView)
    ensures
        decode_name(encode_name(name)) == Some(name),
{
}

impl MimiContentSerialize for NameRef<'_> {
    open spec fn cbor(&self) -> CborModel {
        encode_name(self@)
    }

    fn to_cbor_value(&self) -> (value: ciborium::Value) {
        match self {
            NameRef::Int(number) => cbor_signed(**number),
            NameRef::Str(tstr) => tstr.to_cbor_value(),
        }
    }
}

impl MimiContentSerialize for Name {
    open spec fn cbor(&self) -> CborModel {
        encode_name(self@)
    }

    fn to_cbor_value(&self) -> (value: ciborium::Value) {
        match self {
            Name::Int(number) => cbor_signed(*number),
            Name::Str(tstr) => tstr.to_cbor_value(),
        }
    }
}

impl MimiContentDeserialize for Name {
    open spec fn from_cbor(tree: CborModel) -> Option<NameView> {
        decode_name(tree)
    }

    fn from_cbor_value(value: &ciborium::Value) -> (r: Result<Self, MimiContentError>) {
        match cbor_as_integer(value) {
            Some(n) => {
                if i64::MIN as i128 <= n && n <= i64::MAX as i128 {
                    Ok(Name::Int(n as i64))
                } else {
                    malformed("an integer name fits in 64 bits")
                }
            },
            None => match Tstr::from_cbor_value(value) {
                Ok(tstr) => Ok(Name::Str(tstr)),
                Err(e) => Err(e),
            },
        }
    }
}

/// The value of an extension: any CBOR data item, held in the form that can be compared.
#[derive(Debug, PartialEq, Eq)]
pub struct ExtensionValue(ciborium::value::CanonicalValue);

impl View for ExtensionValue {
    type V = CborModel;

    closed spec fn view(&self) -> CborModel {
        canonical_model(self.0)
    }
}

impl Clone for ExtensionValue {
    fn clone(&self) -> (copy: Self)
        ensures
            copy@ == self@,
    {
        ExtensionValue(canonical_clone(&self.0))
    }
}

impl From<ciborium::Value> for ExtensionValue {
    fn from(value: ciborium::Value) -> (v: Self)
        ensures
            v@ == cbor_model(value),
    {
        Self(canonical_of(value))
    }
}

// No specification can build the value that holds a tree, so the conversion is stated by the
// `ensures` of `from` alone.
impl FromSpecImpl<ciborium::Value> for ExtensionValue {
    open spec fn obeys_from_spec() -> bool {
        false
    }

    closed spec fn from_spec(value: ciborium::Value) -> Self {
        arbitrary()
    }
}

impl ExtensionValue {
    /// Holds a CBOR value as the value of an extension.
    pub fn new(value: ciborium::Value) -> (v: Self)
        ensures
            v@ == cbor_model(value),
    {
        Self(canonical_of(value))
    }
}

/// A borrowed value.
#[derive(Debug, PartialEq, Eq)]
pub struct ValueRef<'a>(&'a ExtensionValue);

impl<'a> View for ValueRef<'a> {
    type V = CborModel;

    closed spec fn view(&self) -> CborModel {
        self.0@
    }
}

impl<'a> Clone for ValueRef<'a> {
    fn clone(&self) -> (copy: Self)
        ensures
            copy@ == self@,
    {
        ValueRef(self.0)
    }
}

impl MimiContentAsRef for ExtensionValue {
    type Target<'a> = ValueRef<'a>;

    fn as_ref(&self) -> (r: ValueRef<'_>)
        ensures
            r@ == self@,
    {
        ValueRef(self)
    }
}

impl MimiContentSerialize for ExtensionValue {
    open spec fn cbor(&self) -> CborModel {
        self@
    }

    fn to_cbor_value(&self) -> (value: ciborium::Value) {
        canonical_into_value(canonical_clone(&self.0))
    }
}

impl MimiContentSerialize for ValueRef<'_> {
    open spec fn cbor(&self) -> CborModel {
        self@
    }

    fn to_cbor_value(&self) -> (value: ciborium::Value) {
        self.0.to_cbor_value()
    }
}

impl MimiContentDeserialize for ExtensionValue {
    open spec fn from_cbor(tree: CborModel) -> Option<CborModel> {
        Some(tree)
    }

    fn from_cbor_value(value: &ciborium::Value) -> (r: Result<Self, MimiContentError>) {
        Ok(ExtensionValue::new(cbor_clone(value)))
    }
}

/// The entries of an extension map, as a specification sees them: in their order, each name
/// with the tree of its value.
pub type Entries = Seq<(NameView, CborModel)>;

/// The entries that an extension map holds, in their order.
pub uninterp spec fn extension_entries(map: IndexMap<Name, ExtensionValue>) -> Entries;

/// The position of a name among the entries, if it is there.
pub open spec fn position_of(entries: Entries, name: NameView) -> Option<int> {
    if exists|i: int| 0 <= i < entries.len() && (#[trigger] entries[i]).0 == name {
        Some(choose|i: int| 0 <= i < entries.len() && (#[trigger] entries[i]).0 == name)
    } else {
        None
    }
}

/// Whether no name occurs twice among the entries.
pub open spec fn names_distinct(entries: Entries) -> bool {
    forall|i: int, j: int|
        0 <= i < j < entries.len() ==> (#[trigger] entries[i]).0 != (#[trigger] entries[j]).0
}

/// The entries after an insertion: a name that is there keeps its place and gets the new
/// value, a new name goes last.
pub open spec fn insert_entry(entries: Entries, name: NameView, value: CborModel) -> Entries {
    match position_of(entries, name) {
        Some(i) => entries.update(i, (name, value)),
        None => entries.push((name, value)),
    }
}

/// The value that the entries hold for a name, if any.
pub open spec fn lookup_entry(entries: Entries, name: NameView) -> Option<CborModel> {
    match position_of(entries, name) {
        Some(i) => Some(entries[i].1),
        None => None,
    }
}

/// An insertion keeps the names distinct, and makes the name hold the value.
pub proof fn insert_entry_properties(entries: Entries, name: NameView, value: CborModel)
    requires
        names_distinct(entries),
    ensures
        names_distinct(insert_entry(entries, name, value)),
        lookup_entry(insert_entry(entries, name, value), name) == Some(value),
        forall|other: NameView|
            other != name ==> lookup_entry(insert_entry(entries, name, value), other)
                == #[trigger] lookup_entry(entries, other),
{
    let after = insert_entry(entries, name, value);
    match position_of(entries, name) {
        Some(i) => {
            assert(after[i].0 == name);
        },
        None => {
            assert(after[entries.len() as int].0 == name);
        },
    }
    assert forall|other: NameView| other != name implies lookup_entry(after, other)
        == #[trigger] lookup_entry(entries, other) by {
        lookup_after_insert(entries, name, value, other);
    }
}

/// An insertion changes nothing for the other names.
proof fn lookup_after_insert(entries: Entries, name: NameView, value: CborModel, other: NameView)
    requires
        names_distinct(entries),
        other != name,
    ensures
        lookup_entry(insert_entry(entries, name, value), other) == lookup_entry(entries, other),
{
    let after = insert_entry(entries, name, value);
    match position_of(entries, other) {
        Some(k) => {
            assert(after[k] == entries[k]);
        },
        None => {},
    }
}

/// `IndexMap::new`: a map without entries.
#[verifier::external_body]
pub(crate) fn extensions_new() -> (map: IndexMap<Name, ExtensionValue>)
    ensures
        extension_entries(map) == Seq::<(NameView, CborModel)>::empty(),
{
    IndexMap::new()
}

/// `Clone` of `IndexMap`: a map of copies of the entries, in the same order.
#[verifier::external_body]
pub(crate) fn extensions_clone(map: &IndexMap<Name, ExtensionValue>) -> (copy: IndexMap<
    Name,
    ExtensionValue,
>)
    ensures
        extension_entries(copy) == extension_entries(*map),
{
    map.clone()
}

/// `IndexMap::len`: the number of entries.
#[verifier::external_body]
pub(crate) fn extensions_len(map: &IndexMap<Name, ExtensionValue>) -> (n: usize)
    ensures
        n == extension_entries(*map).len(),
{
    map.len()
}

/// `IndexMap::get_index`: the entry at a position in the order, nothing from the number of
/// entries on.
#[verifier::external_body]
pub(crate) fn extensions_get_index(map: &IndexMap<Name, ExtensionValue>, index: usize) -> (r:
    Option<(&Name, &ExtensionValue)>)
    ensures
        match r {
            Some((name, value)) => index < extension_entries(*map).len() && extension_entries(
                *map,
            )[index as int] == (name@, value@),
            None => index >= extension_entries(*map).len(),
        },
{
    map.get_index(index)
}

/// `IndexMap::insert`, the value it replaced dropped: a name that the map holds keeps its
/// place in the order and gets the new value, a new name goes last. Names are the same where
/// `Eq` and `Hash`, both derived for `Name`, make them so: where one is written as the other.
#[verifier::external_body]
pub(crate) fn extensions_insert(
    map: &mut IndexMap<Name, ExtensionValue>,
    name: Name,
    value: ExtensionValue,
)
    ensures
        extension_entries(*final(map)) == insert_entry(extension_entries(*old(map)), name@, value@),
{
    map.insert(name, value);
}

/// `IndexMap::get`: the value that the map holds for a name, if any.
#[verifier::external_body]
pub(crate) fn extensions_get<'a>(map: &'a IndexMap<Name, ExtensionValue>, name: &Name) -> (r:
    Option<&'a ExtensionValue>)
    ensures
        match r {
            Some(value) => lookup_entry(extension_entries(*map), name@) == Some(value@),
            None => lookup_entry(extension_entries(*map), name@) is None,
        },
{
    map.get(name)
}

/// The CBOR tree of the entries: a map of the names and values, in their order.
pub open spec fn encode_entries(entries: Entries) -> CborModel {
    CborModel::Mapping(
        Seq::new(entries.len(), |i: int| (encode_name(entries[i].0), entries[i].1)),
    )
}

/// The entries that the pairs of a CBOR map stand for, inserted one after the other: nothing
/// where a key is no name. A name that comes again keeps its first place and gets the later
/// value.
pub open spec fn decode_pairs(pairs: Seq<(CborModel, CborModel)>) -> Option<Entries>
    decreases pairs.len(),
{
    if pairs.len() == 0 {
        Some(Seq::empty())
    } else {
        match (decode_pairs(pairs.drop_last()), decode_name(pairs.last().0)) {
            (Some(entries), Some(name)) => Some(insert_entry(entries, name, pairs.last().1)),
            _ => None,
        }
    }
}

/// The entries that a CBOR tree stands for.
pub open spec fn decode_entries(tree: CborModel) -> Option<Entries> {
    match tree {
        CborModel::Mapping(pairs) => decode_pairs(pairs),
        _ => None,
    }
}

/// What is read from a CBOR map holds no name twice.
pub proof fn decoded_names_distinct(pairs: Seq<(CborModel, CborModel)>)
    requires
        decode_pairs(pairs) is Some,
    ensures
        names_distinct(decode_pairs(pairs)->0),
    decreases pairs.len(),
{
    if pairs.len() > 0 {
        decoded_names_distinct(pairs.drop_last());
        insert_entry_properties(
            decode_pairs(pairs.drop_last())->0,
            decode_name(pairs.last().0)->0,
            pairs.last().1,
        );
    }
}

/// Reading what entries are written as gives the entries back, as long as no name occurs
/// twice among them.
pub proof fn decode_entries_inverts_encode(entries: Entries)
    requires
        names_distinct(entries),
    ensures
        decode_entries(encode_entries(entries)) == Some(entries),
    decreases entries.len(),
{
    if entries.len() > 0 {
        let pairs = encode_entries(entries)->Mapping_0;
        let front = entries.drop_last();
        assert(encode_entries(front)->Mapping_0 =~= pairs.drop_last());
        assert(names_distinct(front)) by {
            assert forall|i: int, j: int| 0 <= i < j < front.len() implies (#[trigger] front[i]).0
                != (#[trigger] front[j]).0 by {
                assert(entries[i].0 != entries[j].0);
            }
        }
        decode_entries_inverts_encode(front);
        // the last name is not among those before it, so it is put behind them
        assert(position_of(front, entries.last().0) is None) by {
            if position_of(front, entries.last().0) is Some {
                let at = position_of(front, entries.last().0)->0;
                assert(entries[at].0 != entries[entries.len() - 1].0);
            }
        }
        assert(front.push(entries.last()) =~= entries);
    }
}

/// Builds the CBOR map of the entries of an extension map, in their order.
pub(crate) fn encode_extensions(map: &IndexMap<Name, ExtensionValue>) -> (value: ciborium::Value)
    ensures
        cbor_model(value) == encode_entries(extension_entries(*map)),
{
    let n = extensions_len(map);
    let mut pairs: Vec<(ciborium::Value, ciborium::Value)> = Vec::with_capacity(n);
    let mut i: usize = 0;
    while i < n
        invariant
            n == extension_entries(*map).len(),
            i <= n,
            pairs.len() == i,
            forall|j: int|
                0 <= j < i ==> (cbor_model((#[trigger] pairs[j]).0), cbor_model(pairs[j].1)) == (
                    encode_name(extension_entries(*map)[j].0),
                    extension_entries(*map)[j].1,
                ),
        decreases n - i,
    {
        match extensions_get_index(map, i) {
            Some((name, value)) => {
                pairs.push((name.to_cbor_value(), value.to_cbor_value()));
            },
            None => {
                // there is an entry at every position below the number of entries
                assert(false);
            },
        }
        i += 1;
    }
    assert(cbor_model_pairs(pairs@) =~= encode_entries(extension_entries(*map))->Mapping_0);
    cbor_map(pairs)
}

/// Reads an extension map from a CBOR value: the entries of the CBOR map are inserted one
/// after the other.
pub(crate) fn read_extensions(value: &ciborium::Value) -> (r: Result<
    IndexMap<Name, ExtensionValue>,
    MimiContentError,
>)
    ensures
        match r {
            Ok(map) => decode_entries(cbor_model(*value)) == Some(extension_entries(map)),
            Err(e) => decode_entries(cbor_model(*value)) is None && e is DeserializeError,
        },
{
    let pairs = match value.as_map() {
        Some(pairs) => pairs,
        None => { return malformed("the extensions are a map"); },
    };
    let ghost trees = cbor_model_pairs(pairs@);
    let mut map = extensions_new();
    let mut i: usize = 0;
    while i < pairs.len()
        invariant
            i <= pairs.len(),
            trees == cbor_model_pairs(pairs@),
            cbor_model(*value) == CborModel::Mapping(trees),
            decode_pairs(trees.take(i as int)) == Some(extension_entries(map)),
        decreases pairs.len() - i,
    {
        let ghost upto = trees.take(i as int + 1);
        assert(upto.drop_last() =~= trees.take(i as int));
        let name = match Name::from_cbor_value(&pairs[i].0) {
            Ok(name) => name,
            Err(e) => {
                proof {
                    decode_pairs_prefix(trees, i as int + 1);
                }
                return Err(e);
            },
        };
        let entry = ExtensionValue::new(cbor_clone(&pairs[i].1));
        extensions_insert(&mut map, name, entry);
        i += 1;
    }
    assert(trees.take(i as int) =~= trees);
    Ok(map)
}

/// Where the first pairs of a CBOR map stand for no entries, neither does the whole.
pub proof fn decode_pairs_prefix(pairs: Seq<(CborModel, CborModel)>, n: int)
    requires
        0 <= n <= pairs.len(),
        decode_pairs(pairs.take(n)) is None,
    ensures
        decode_pairs(pairs) is None,
    decreases pairs.len(),
{
    if n < pairs.len() {
        assert(pairs.drop_last().take(n) =~= pairs.take(n));
        decode_pairs_prefix(pairs.drop_last(), n);
    } else {
        assert(pairs.take(n) =~= pairs);
    }
}

} // verus!
