//! Strings whose ownership moves to the engine together with the callback that
//! releases them.

use crate::abi;
use crate::abi::abi_flag;
use vstd::prelude::*;
use vstd::slice::slice_subrange;
use vstd::utf8::*;

verus! {

/// The callback a transfer names for releasing its owner.
#[derive(Clone, Copy, Debug, Eq, PartialEq, Structural)]
pub enum DropOwner {
    OwnedUtf8,
    OwnedUtf8Sequence,
}

/// One string handed to the engine.
///
/// On the ABI the data pointer aims at the first byte of `owner`, and is null
/// exactly when there is no owner.
pub struct OwnedUtf8 {
    pub length: usize,
    pub owner: Option<Vec<u8>>,
    pub drop_owner: Option<DropOwner>,
}

impl OwnedUtf8 {
    /// The canonical transfer of nothing: null data, no length, no owner, no
    /// callback.
    pub open spec fn is_empty_transfer(self) -> bool {
        self == (OwnedUtf8 { length: 0, owner: None, drop_owner: None })
    }

    /// The canonical transfer of `text`, the empty string included: an owner
    /// holding its UTF-8 encoding, the exact length, and the callback.
    pub open spec fn carries(self, text: Seq<char>) -> bool {
        &&& self.owner matches Some(bytes)
        &&& bytes@ == encode_utf8(text)
        &&& self.length == bytes@.len()
        &&& self.drop_owner == Some(DropOwner::OwnedUtf8)
    }

    /// The bytes a reader of the transfer sees, or `None` where the data
    /// pointer is null or the length runs past the owner.
    pub open spec fn lent(self) -> Option<Seq<u8>> {
        match self.owner {
            Some(bytes) => if self.length <= bytes@.len() {
                Some(bytes@.take(self.length as int))
            } else {
                None
            },
            None => None,
        }
    }

    /// The text a reader of the transfer decodes.
    pub open spec fn text(self) -> Option<Seq<char>> {
        match self.lent() {
            Some(bytes) => if valid_utf8(bytes) {
                Some(decode_utf8(bytes))
            } else {
                None
            },
            None => None,
        }
    }

    /// The bytes the transfer lends to its reader.
    pub fn data(&self) -> (data: Option<&[u8]>)
        ensures
            data is Some <==> self.lent() is Some,
            data matches Some(data) ==> Some(data@) == self.lent(),
    {
        match &self.owner {
            Some(bytes) => {
                if self.length <= bytes.len() {
                    let data = slice_subrange(bytes.as_slice(), 0, self.length);
                    assert(data@ =~= bytes@.take(self.length as int));
                    Some(data)
                } else {
                    None
                }
            },
            None => None,
        }
    }
}

/// A nullable string handed to the engine.
pub struct OptionalOwnedUtf8 {
    pub is_null: u8,
    pub value: OwnedUtf8,
}

impl OptionalOwnedUtf8 {
    /// The canonical transfer of an optional string.
    pub open spec fn carries(self, value: Option<Seq<char>>) -> bool {
        match value {
            Some(text) => self.is_null == 0 && self.value.carries(text),
            None => self.is_null == 1 && self.value.is_empty_transfer(),
        }
    }

    /// The value a reader of the transfer recovers; `None` where the transfer
    /// is malformed.
    pub open spec fn reading(self) -> Option<Option<Seq<char>>> {
        if self.is_null == 1 && self.value.is_empty_transfer() {
            Some(None)
        } else if self.is_null == 0 && self.value.text() is Some {
            Some(self.value.text())
        } else {
            None
        }
    }
}

/// The view of an optional owned string.
pub open spec fn optional_string(value: Option<String>) -> Option<Seq<char>> {
    match value {
        Some(text) => Some(text@),
        None => None,
    }
}

/// One string of a sequence: `data` is the position, in the sequence's owner,
/// of the value the view borrows.
#[derive(Clone, Copy, Debug, Eq, PartialEq, Structural)]
pub struct Utf8View {
    pub data: usize,
    pub length: usize,
}

impl Utf8View {
    /// The view borrows the whole of value `i`.
    pub open spec fn borrows(self, values: Seq<Vec<u8>>, i: int) -> bool {
        self.data == i && self.length == values[i]@.len()
    }
}

/// The allocation behind a string sequence: the bytes of every string and one
/// view of each.
pub struct OwnedUtf8SequenceOwner {
    pub values: Vec<Vec<u8>>,
    pub views: Vec<Utf8View>,
}

/// A sequence of strings handed to the engine.
///
/// On the ABI the values pointer aims at the first view of `owner`, and is
/// null exactly when there is no owner.
pub struct OwnedUtf8Sequence {
    pub length: usize,
    pub owner: Option<OwnedUtf8SequenceOwner>,
    pub drop_owner: Option<DropOwner>,
}

impl OwnedUtf8SequenceOwner {
    /// The owner holds exactly the encodings of `texts`, and its views borrow
    /// them whole and in order.
    pub open spec fn holds(self, texts: Seq<Seq<char>>) -> bool {
        &&& self.values@.len() == texts.len()
        &&& self.views@.len() == texts.len()
        &&& forall|i: int|
            0 <= i < texts.len() ==> (#[trigger] self.values@[i])@ == encode_utf8(texts[i])
        &&& forall|i: int|
            0 <= i < texts.len() ==> (#[trigger] self.views@[i]).borrows(self.values@, i)
    }
}

impl OwnedUtf8Sequence {
    /// The canonical transfer of `texts`. The empty sequence has no owner and
    /// no callback.
    pub open spec fn carries(self, texts: Seq<Seq<char>>) -> bool {
        if texts.len() == 0 {
            self == (OwnedUtf8Sequence { length: 0, owner: None, drop_owner: None })
        } else {
            &&& self.owner matches Some(owner)
            &&& owner.holds(texts)
            &&& self.length == texts.len()
            &&& self.drop_owner == Some(DropOwner::OwnedUtf8Sequence)
        }
    }

    /// The bytes a reader finds behind view `i`.
    pub open spec fn lent(self, i: int) -> Seq<u8>
        recommends
            self.owner is Some,
    {
        let owner = self.owner->0;
        owner.values@[owner.views@[i].data as int]@.take(owner.views@[i].length as int)
    }

    /// The strings a reader of the transfer decodes.
    pub open spec fn reading(self) -> Seq<Seq<char>> {
        Seq::new(self.length as nat, |i: int| decode_utf8(self.lent(i)))
    }
}

/// The views of a list of strings.
pub open spec fn string_views(values: Seq<String>) -> Seq<Seq<char>> {
    values.map_values(|value: String| value@)
}

/// The transfer of nothing.
pub fn raw_empty_owned_utf8() -> (transfer: OwnedUtf8)
    ensures
        transfer.is_empty_transfer(),
{
    OwnedUtf8 { length: 0, owner: None, drop_owner: None }
}

/// Transfers one string.
pub fn raw_owned_utf8(value: String) -> (transfer: OwnedUtf8)
    ensures
        transfer.carries(value@),
{
    let owner = value.into_bytes();
    OwnedUtf8 { length: owner.len(), owner: Some(owner), drop_owner: Some(DropOwner::OwnedUtf8) }
}

/// Transfers one string into the caller's storage, where there is any.
pub fn element_host_write_owned_utf8(output: Option<&mut OwnedUtf8>, value: String) -> (status: u8)
    ensures
        status == abi::flag(output is Some),
        output matches Some(output) ==> final(output).carries(value@),
{
    match output {
        None => 0,
        Some(output) => {
            *output = raw_owned_utf8(value);
            1
        },
    }
}

/// Transfers one nullable string into the caller's storage, where there is
/// any. The null value carries no allocation; the empty string does.
pub fn element_host_write_optional_owned_utf8(
    output: Option<&mut OptionalOwnedUtf8>,
    value: Option<String>,
) -> (status: u8)
    ensures
        status == abi::flag(output is Some),
        output matches Some(output) ==> final(output).carries(optional_string(value)),
{
    match output {
        None => 0,
        Some(output) => {
            let is_null = value.is_none();
            let owned = match value {
                Some(value) => raw_owned_utf8(value),
                None => raw_empty_owned_utf8(),
            };
            *output = OptionalOwnedUtf8 { is_null: abi_flag(is_null), value: owned };
            1
        },
    }
}

/// The bytes of every string, in order.
fn string_bytes(values: Vec<String>) -> (bytes: Vec<Vec<u8>>)
    ensures
        bytes@.len() == values@.len(),
        forall|i: int|
            0 <= i < values@.len() ==> (#[trigger] bytes@[i])@ == encode_utf8(values@[i]@),
{
    let mut bytes: Vec<Vec<u8>> = Vec::new();
    for value in iter: values
        invariant
            iter.seq() == values@,
            bytes@.len() == iter.index(),
            forall|i: int|
                0 <= i < iter.index() ==> (#[trigger] bytes@[i])@ == encode_utf8(values@[i]@),
    {
        bytes.push(value.into_bytes());
    }
    bytes
}

/// One view per value, in order.
fn value_views(values: &Vec<Vec<u8>>) -> (views: Vec<Utf8View>)
    ensures
        views@.len() == values@.len(),
        forall|i: int| 0 <= i < values@.len() ==> (#[trigger] views@[i]).borrows(values@, i),
{
    let mut views: Vec<Utf8View> = Vec::new();
    for index in 0..values.len()
        invariant
            views@.len() == index,
            forall|i: int| 0 <= i < index ==> (#[trigger] views@[i]).borrows(values@, i),
    {
        views.push(Utf8View { data: index, length: values[index].len() });
    }
    views
}

/// Transfers a list of strings into the caller's storage, where there is any.
pub fn element_host_write_owned_utf8_sequence(
    output: Option<&mut OwnedUtf8Sequence>,
    values: Vec<String>,
) -> (status: u8)
    ensures
        status == abi::flag(output is Some),
        output matches Some(output) ==> final(output).carries(string_views(values@)),
{
    match output {
        None => 0,
        Some(output) => {
            if values.is_empty() {
                *output = OwnedUtf8Sequence { length: 0, owner: None, drop_owner: None };
                return 1;
            }
            let values = string_bytes(values);
            let views = value_views(&values);
            let owner = OwnedUtf8SequenceOwner { values, views };
            *output =
            OwnedUtf8Sequence {
                length: owner.views.len(),
                owner: Some(owner),
                drop_owner: Some(DropOwner::OwnedUtf8Sequence),
            };
            1
        },
    }
}

/// A reader of a transferred string recovers exactly the text that was
/// transferred, the empty string included.
pub proof fn transferred_text_reads_back(transfer: OwnedUtf8, text: Seq<char>)
    requires
        transfer.carries(text),
    ensures
        transfer.text() == Some(text),
{
    broadcast use {vstd::utf8::encode_utf8_valid_utf8, vstd::utf8::encode_utf8_decode_utf8};

    assert(transfer.lent() == Some(encode_utf8(text))) by {
        assert(transfer.owner->0@.take(transfer.length as int) =~= transfer.owner->0@);
    }
}

/// A reader of a transferred nullable string recovers exactly the value that
/// was transferred; in particular null and the empty string stay apart.
pub proof fn transferred_optional_text_reads_back(
    transfer: OptionalOwnedUtf8,
    value: Option<Seq<char>>,
)
    requires
        transfer.carries(value),
    ensures
        transfer.reading() == Some(value),
{
    if let Some(text) = value {
        transferred_text_reads_back(transfer.value, text);
    }
}

/// A reader of a transferred list recovers exactly the strings that were
/// transferred, in order.
pub proof fn transferred_sequence_reads_back(transfer: OwnedUtf8Sequence, texts: Seq<Seq<char>>)
    requires
        transfer.carries(texts),
    ensures
        transfer.reading() == texts,
{
    broadcast use {vstd::utf8::encode_utf8_valid_utf8, vstd::utf8::encode_utf8_decode_utf8};

    assert forall|i: int| 0 <= i < texts.len() implies transfer.reading()[i] == texts[i] by {
        let owner = transfer.owner->0;
        assert(owner.views@[i].data == i);
        assert(owner.values@[i]@.take(owner.values@[i]@.len() as int) =~= owner.values@[i]@);
        assert(transfer.lent(i) == encode_utf8(texts[i]));
    }
    assert(transfer.reading() =~= texts);
}

/// The transfer of nothing has no length, no owner and no callback.
pub proof fn empty_transfers_own_nothing(transfer: OwnedUtf8)
    ensures
        transfer.is_empty_transfer() <==> transfer.length == 0 && transfer.owner is None
            && transfer.drop_owner is None,
{
}

/// A transferred string is owned as its whole encoding, with the length of that
/// encoding and the callback that releases one string. So an owner carries one
/// text only.
pub proof fn transfers_own_the_whole_encoding(
    transfer: OwnedUtf8,
    text: Seq<char>,
    other: Seq<char>,
)
    ensures
        transfer.carries(text) <==> transfer.owner is Some && transfer.owner->0@ == encode_utf8(
            text,
        ) && transfer.length == encode_utf8(text).len() && transfer.drop_owner == Some(
            DropOwner::OwnedUtf8,
        ),
        transfer.carries(text) && transfer.carries(other) ==> text == other,
{
    if transfer.carries(text) && transfer.carries(other) {
        transferred_text_reads_back(transfer, text);
        transferred_text_reads_back(transfer, other);
    }
}

/// A transfer lends as many bytes as its length says, from the start of its
/// owner, and lends nothing where it has fewer.
pub proof fn transfers_lend_their_length(transfer: OwnedUtf8)
    ensures
        transfer.lent() is Some <==> transfer.owner is Some && transfer.length
            <= transfer.owner->0@.len(),
        transfer.lent() matches Some(bytes) ==> bytes.len() == transfer.length,
        transfer.lent() matches Some(bytes) ==> forall|i: int|
            0 <= i < bytes.len() ==> #[trigger] bytes[i] == transfer.owner->0@[i],
{
}

/// The text of a transfer is the one whose encoding it lends.
pub proof fn transfers_spell_what_they_lend(transfer: OwnedUtf8, text: Seq<char>)
    ensures
        transfer.text() == Some(text) <==> transfer.lent() == Some(encode_utf8(text)),
{
    broadcast use {
        vstd::utf8::encode_utf8_valid_utf8,
        vstd::utf8::encode_utf8_decode_utf8,
        vstd::utf8::decode_utf8_encode_utf8,
    };

}

/// A nullable transfer says by its flag whether it is null: null is a one and
/// the transfer of nothing, and a text is a zero and the transfer of that text,
/// the empty text included.
pub proof fn nullable_transfers_follow_their_flag(transfer: OptionalOwnedUtf8, text: Seq<char>)
    ensures
        transfer.carries(None) <==> transfer.is_null == 1 && transfer.value.length == 0
            && transfer.value.owner is None && transfer.value.drop_owner is None,
        transfer.carries(Some(text)) <==> transfer.is_null == 0 && transfer.value.owner is Some
            && transfer.value.owner->0@ == encode_utf8(text) && transfer.value.length
            == encode_utf8(text).len() && transfer.value.drop_owner == Some(DropOwner::OwnedUtf8),
        !(transfer.carries(None) && transfer.carries(Some(text))),
{
}

/// The view of an optional owned string is the text of that string, and is
/// absent exactly when the string is.
pub proof fn optional_strings_are_their_texts(value: Option<String>)
    ensures
        optional_string(value) is None <==> value is None,
        value matches Some(text) ==> optional_string(value) == Some(text@),
{
}

/// The views of a list are the texts of its strings, as many and in order.
pub proof fn string_views_are_their_texts(values: Seq<String>)
    ensures
        string_views(values).len() == values.len(),
        forall|i: int| 0 <= i < values.len() ==> #[trigger] string_views(values)[i] == values[i]@,
{
}

/// The empty list is transferred without an owner and a callback, and no other
/// list is.
pub proof fn only_empty_sequences_own_nothing(
    transfer: OwnedUtf8Sequence,
    texts: Seq<Seq<char>>,
)
    requires
        transfer.carries(texts),
    ensures
        transfer.length == texts.len(),
        transfer.owner is None <==> texts.len() == 0,
        transfer.drop_owner is None <==> texts.len() == 0,
        texts.len() != 0 ==> transfer.drop_owner == Some(DropOwner::OwnedUtf8Sequence),
{
}

/// Every text of a list is transferred in its place: value `i` is the whole
/// encoding of text `i`, and view `i` borrows value `i` from end to end.
pub proof fn sequences_own_every_encoding(
    transfer: OwnedUtf8Sequence,
    texts: Seq<Seq<char>>,
    i: int,
)
    requires
        transfer.carries(texts),
        0 <= i < texts.len(),
    ensures
        transfer.owner->0.values@.len() == texts.len(),
        transfer.owner->0.views@.len() == texts.len(),
        transfer.owner->0.values@[i]@ == encode_utf8(texts[i]),
        transfer.owner->0.views@[i].data == i,
        transfer.owner->0.views@[i].length == encode_utf8(texts[i]).len(),
{
    assert(transfer.owner->0.holds(texts));
    assert(transfer.owner->0.views@[i].borrows(transfer.owner->0.values@, i));
}

/// A list transfer carries one list only.
pub proof fn sequences_carry_one_list(
    transfer: OwnedUtf8Sequence,
    texts: Seq<Seq<char>>,
    other: Seq<Seq<char>>,
)
    requires
        transfer.carries(texts),
        transfer.carries(other),
    ensures
        texts == other,
{
    transferred_sequence_reads_back(transfer, texts);
    transferred_sequence_reads_back(transfer, other);
}

} // verus!
