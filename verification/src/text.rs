//! Text crossing the ABI: borrowed UTF-8 arguments, fixed text buffers filled
//! by the engine, and the error they turn into.

use crate::abi::ERROR_CAPACITY;
use vstd::prelude::*;
use vstd::slice::slice_subrange;
use vstd::string::StringExecFns;
use vstd::utf8::*;

verus! {

/// What `String::from_utf8_lossy` makes of `bytes`.
pub uninterp spec fn utf8_lossy(bytes: Seq<u8>) -> Seq<char>;

/// Calls `String::from_utf8_lossy`. The text is a function of the bytes alone
/// and is their decoding wherever they are valid UTF-8; where the replacement
/// characters fall in other input is left to the name `utf8_lossy`.
#[verifier::external_body]
fn lossy_text(bytes: &[u8]) -> (text: String)
    ensures
        text@ == utf8_lossy(bytes@),
        valid_utf8(bytes@) ==> text@ == decode_utf8(bytes@),
{
    String::from_utf8_lossy(bytes).into_owned()
}

/// Calls `std::str::from_utf8`, which accepts exactly the valid UTF-8 byte
/// sequences and then views them as text without changing them.
#[verifier::external_body]
fn utf8_text<'a>(bytes: &'a [u8]) -> (text: Option<&'a str>)
    ensures
        text is Some <==> valid_utf8(bytes@),
        text matches Some(text) ==> text@ == decode_utf8(bytes@),
{
    std::str::from_utf8(bytes).ok()
}

/// `String::into_bytes` hands out the UTF-8 encoding of the string.
pub assume_specification[ String::into_bytes ](s: String) -> (bytes: Vec<u8>)
    ensures
        bytes@ == encode_utf8(s@),
;

/// A byte range lent by the engine for one synchronous call.
///
/// The ABI spells it as a data pointer and a length.
#[derive(Clone, Copy)]
pub enum Utf8Argument<'a> {
    /// A null data pointer with the length that came with it.
    Null { length: usize },
    /// A non-null data pointer and the bytes it lends.
    Bytes(&'a [u8]),
}

impl<'a> Utf8Argument<'a> {
    /// The text an argument spells. A null pointer spells the empty string
    /// when its length is zero and nothing otherwise; bytes spell text only
    /// when they are valid UTF-8.
    pub open spec fn text(self) -> Option<Seq<char>> {
        match self {
            Utf8Argument::Null { length } => if length == 0 {
                Some(Seq::empty())
            } else {
                None
            },
            Utf8Argument::Bytes(bytes) => if valid_utf8(bytes@) {
                Some(decode_utf8(bytes@))
            } else {
                None
            },
        }
    }

    /// The value a nullable argument spells: a flag of zero selects the text,
    /// a flag of one requires the null pointer of length zero, and no other
    /// flag spells anything.
    pub open spec fn nullable_text(self, is_null: u8) -> Option<Option<Seq<char>>> {
        if is_null == 0 {
            match self.text() {
                Some(text) => Some(Some(text)),
                None => None,
            }
        } else if is_null == 1 && self == (Utf8Argument::Null { length: 0 }) {
            Some(None)
        } else {
            None
        }
    }
}

/// The view of an optional borrowed string.
pub open spec fn optional_text(value: Option<&str>) -> Option<Seq<char>> {
    match value {
        Some(text) => Some(text@),
        None => None,
    }
}

/// Reads a required text argument.
pub fn element_host_utf8<'a>(value: Utf8Argument<'a>) -> (text: Option<&'a str>)
    ensures
        optional_text(text) == value.text(),
{
    match value {
        Utf8Argument::Null { length } => {
            if length != 0 {
                return None;
            }
            proof {
                reveal_strlit("");
                assert(""@ =~= Seq::<char>::empty());
            }
            Some("")
        },
        Utf8Argument::Bytes(bytes) => utf8_text(bytes),
    }
}

/// Reads a nullable text argument: `Some(None)` is the null value and `None`
/// is a malformed argument.
pub fn element_host_nullable_utf8<'a>(is_null: u8, value: Utf8Argument<'a>) -> (text: Option<
    Option<&'a str>,
>)
    ensures
        text is Some <==> value.nullable_text(is_null) is Some,
        text matches Some(text) ==> Some(optional_text(text)) == value.nullable_text(is_null),
{
    match is_null {
        0 => match element_host_utf8(value) {
            Some(text) => Some(Some(text)),
            None => None,
        },
        1 => match value {
            Utf8Argument::Null { length } => if length == 0 {
                Some(None)
            } else {
                None
            },
            Utf8Argument::Bytes(_) => None,
        },
        _ => None,
    }
}

/// A fixed text buffer lent to the engine for one call.
pub struct ErrorBuffer {
    pub data: [u8; ERROR_CAPACITY],
    pub capacity: usize,
    pub length: usize,
}

impl ErrorBuffer {
    /// A buffer no engine call has written yet: zeroed, empty, and announcing
    /// its full capacity.
    pub open spec fn fresh(self) -> bool {
        &&& self.data@ == Seq::new(ERROR_CAPACITY as nat, |i: int| 0u8)
        &&& self.capacity == ERROR_CAPACITY
        &&& self.length == 0
    }

    /// The bytes that count as text. The reported length is clamped so that
    /// the terminator slot at the end is never read.
    pub open spec fn bytes(self) -> Seq<u8> {
        self.data@.take(
            if self.length < ERROR_CAPACITY - 1 {
                self.length as int
            } else {
                ERROR_CAPACITY - 1
            },
        )
    }

    /// `text` is what the buffer says: the decoding of its bytes where they
    /// are valid UTF-8, and their lossy decoding in any case.
    pub open spec fn spells(self, text: Seq<char>) -> bool {
        &&& text == utf8_lossy(self.bytes())
        &&& valid_utf8(self.bytes()) ==> text == decode_utf8(self.bytes())
    }
}

/// An error reported by the engine or by this crate.
#[derive(Debug)]
pub struct Error(String);

impl View for Error {
    type V = Seq<char>;

    closed spec fn view(&self) -> Seq<char> {
        self.0@
    }
}

impl Error {
    pub(crate) fn new(message: String) -> (error: Error)
        ensures
            error@ == message@,
    {
        Error(message)
    }

    /// The message of the error.
    pub fn to_string(&self) -> (message: String)
        ensures
            message@ == self@,
    {
        self.0.clone()
    }
}

/// Wraps storage as an empty buffer of full capacity.
pub fn error_buffer(storage: [u8; ERROR_CAPACITY]) -> (buffer: ErrorBuffer)
    ensures
        buffer.data == storage,
        buffer.capacity == ERROR_CAPACITY,
        buffer.length == 0,
{
    ErrorBuffer { data: storage, capacity: ERROR_CAPACITY, length: 0 }
}

/// A zeroed buffer.
pub fn fresh_error_buffer() -> (buffer: ErrorBuffer)
    ensures
        buffer.fresh(),
{
    let storage = [0u8; ERROR_CAPACITY];
    assert(storage@ =~= Seq::new(ERROR_CAPACITY as nat, |i: int| 0u8));
    error_buffer(storage)
}

/// Reads the text the engine left in a buffer, whatever length it reported.
pub fn text_from(buffer: &ErrorBuffer) -> (text: String)
    ensures
        buffer.spells(text@),
{
    let length: usize = if buffer.length < ERROR_CAPACITY - 1 {
        buffer.length
    } else {
        ERROR_CAPACITY - 1
    };
    let bytes = slice_subrange(buffer.data.as_slice(), 0, length);
    assert(bytes@ =~= buffer.bytes());
    lossy_text(bytes)
}

/// Turns a buffer filled by a failed call into an error.
pub fn error_from(error: &ErrorBuffer) -> (result: Error)
    ensures
        error.spells(result@),
{
    Error::new(text_from(error))
}

/// The decimal digit of `digit`.
pub open spec fn decimal_digit(digit: nat) -> char {
    (('0' as u32) + digit) as char
}

/// The decimal spelling of `value`.
pub open spec fn decimal(value: nat) -> Seq<char>
    decreases value,
{
    if value < 10 {
        seq![decimal_digit(value)]
    } else {
        decimal(value / 10).push(decimal_digit(value % 10))
    }
}

fn append_digit(text: &mut String, digit: u32)
    requires
        digit < 10,
    ensures
        final(text)@ == old(text)@.push(decimal_digit(digit as nat)),
{
    let spelled = match digit {
        0 => "0",
        1 => "1",
        2 => "2",
        3 => "3",
        4 => "4",
        5 => "5",
        6 => "6",
        7 => "7",
        8 => "8",
        _ => "9",
    };
    proof {
        reveal_strlit("0");
        reveal_strlit("1");
        reveal_strlit("2");
        reveal_strlit("3");
        reveal_strlit("4");
        reveal_strlit("5");
        reveal_strlit("6");
        reveal_strlit("7");
        reveal_strlit("8");
        reveal_strlit("9");
        assert(spelled@ =~= seq![decimal_digit(digit as nat)]);
        assert(text@ + spelled@ =~= text@.push(decimal_digit(digit as nat)));
    }
    text.append(spelled);
}

/// Appends the decimal spelling of `value`.
pub(crate) fn append_decimal(text: &mut String, value: u32)
    ensures
        final(text)@ == old(text)@ + decimal(value as nat),
    decreases value,
{
    if value >= 10 {
        append_decimal(text, value / 10);
    }
    append_digit(text, value % 10);
    proof {
        if value >= 10 {
            assert(text@ =~= old(text)@ + decimal((value / 10) as nat).push(
                decimal_digit((value % 10) as nat),
            ));
        } else {
            assert(text@ =~= old(text)@ + seq![decimal_digit(value as nat)]);
        }
    }
}

/// An argument spells its text exactly: the bytes lent are the encoding of the
/// text that is read, and the encoding of a text is read as that text.
pub proof fn argument_text_is_exact(bytes: &[u8], text: Seq<char>)
    ensures
        Utf8Argument::Bytes(bytes).text() == Some(text) <==> bytes@ == encode_utf8(text),
{
    broadcast use {encode_utf8_valid_utf8, encode_utf8_decode_utf8, decode_utf8_encode_utf8};

}

/// A null pointer spells the empty string when its length is zero, and
/// otherwise it spells nothing.
pub proof fn null_pointers_spell_the_empty_string(length: usize)
    ensures
        length == 0 ==> (Utf8Argument::Null { length }).text() == Some(Seq::<char>::empty()),
        length != 0 ==> (Utf8Argument::Null { length }).text() is None,
{
}

/// Null and the empty string stay apart in a nullable argument, and a flag that
/// is no boolean spells neither.
pub proof fn nullable_arguments_are_unambiguous(value: Utf8Argument<'_>, is_null: u8)
    ensures
        value.nullable_text(is_null) == Some(None::<Seq<char>>) <==> is_null == 1 && value
            == (Utf8Argument::Null { length: 0 }),
        forall|text: Seq<char>|
            value.nullable_text(is_null) == Some(Some(text)) <==> is_null == 0 && value.text()
                == Some(text),
        is_null > 1 ==> value.nullable_text(is_null) is None,
{
}

/// A buffer never yields more than its capacity less the terminator, whatever
/// length was reported, and what it yields is a prefix of its data.
pub proof fn buffers_are_clamped(buffer: ErrorBuffer)
    ensures
        buffer.bytes().len() <= ERROR_CAPACITY - 1,
        buffer.bytes().is_prefix_of(buffer.data@),
{
}

/// Text that was written into a buffer whole, with its length, is read back as
/// it was written.
pub proof fn buffered_text_reads_back(buffer: ErrorBuffer, written: Seq<char>, text: Seq<char>)
    requires
        encode_utf8(written).len() < ERROR_CAPACITY,
        encode_utf8(written).is_prefix_of(buffer.data@),
        buffer.length == encode_utf8(written).len(),
        buffer.spells(text),
    ensures
        text == written,
{
    broadcast use {encode_utf8_valid_utf8, encode_utf8_decode_utf8};

    assert(buffer.bytes() =~= encode_utf8(written));
}

/// The view of an optional string is the text of that string, and is absent
/// exactly when the string is.
pub proof fn optional_texts_are_their_strings(value: Option<&str>)
    ensures
        optional_text(value) is None <==> value is None,
        value matches Some(text) ==> optional_text(value) == Some(text@),
{
}

/// A fresh buffer announces 2048 bytes, reports none of them, and holds zeros
/// throughout.
pub proof fn fresh_buffers_are_zeroed(buffer: ErrorBuffer)
    ensures
        buffer.fresh() <==> buffer.capacity == 2048 && buffer.length == 0 && forall|i: int|
            0 <= i < 2048 ==> #[trigger] buffer.data@[i] == 0,
{
    if forall|i: int| 0 <= i < 2048 ==> #[trigger] buffer.data@[i] == 0 {
        assert(buffer.data@ =~= Seq::new(ERROR_CAPACITY as nat, |i: int| 0u8));
    }
    if buffer.fresh() {
        assert forall|i: int| 0 <= i < 2048 implies #[trigger] buffer.data@[i] == 0 by {
            assert(Seq::new(ERROR_CAPACITY as nat, |j: int| 0u8)[i] == 0);
        }
    }
}

/// A buffer yields as many bytes as were reported, up to 2047 of them, and each
/// is the byte at its place in the data.
pub proof fn buffers_yield_what_was_reported(buffer: ErrorBuffer)
    ensures
        buffer.length <= 2047 ==> buffer.bytes().len() == buffer.length,
        buffer.length > 2047 ==> buffer.bytes().len() == 2047,
        forall|i: int|
            0 <= i < buffer.bytes().len() ==> #[trigger] buffer.bytes()[i] == buffer.data@[i],
{
}

/// A buffer that reports `count` bytes, or more than it can hold beside the
/// terminator, spells the lossy decoding of that many bytes of its data, which
/// is their decoding where they are valid UTF-8. It spells nothing else.
pub proof fn buffers_spell_what_was_reported(buffer: ErrorBuffer, count: int, text: Seq<char>)
    requires
        count <= 2047,
        count == buffer.length || (count == 2047 && buffer.length > 2047),
    ensures
        buffer.spells(text) <==> {
            &&& text == utf8_lossy(buffer.data@.take(count))
            &&& valid_utf8(buffer.data@.take(count)) ==> text == decode_utf8(
                buffer.data@.take(count),
            )
        },
{
}

/// A number below ten is spelled by its own digit.
pub proof fn single_digits_spell_themselves(value: nat)
    requires
        value < 10,
    ensures
        decimal(value).len() == 1,
        decimal(value)[0] as int == '0' as int + value,
{
}

/// Appending a digit to the spelling of a number spells ten times the number and
/// the digit.
pub proof fn appending_a_digit_multiplies_by_ten(value: nat, digit: nat)
    requires
        value > 0,
        digit < 10,
    ensures
        decimal(value * 10 + digit) == decimal(value) + decimal(digit),
{
    let whole = value * 10 + digit;
    assert(whole / 10 == value && whole % 10 == digit);
    assert(decimal(whole) =~= decimal(value) + decimal(digit));
}

/// Distinct numbers are spelled apart.
pub proof fn decimals_tell_numbers_apart(a: nat, b: nat)
    ensures
        decimal(a) == decimal(b) <==> a == b,
    decreases a,
{
    if decimal(a) == decimal(b) {
        decimals_are_not_empty(a / 10);
        decimals_are_not_empty(b / 10);
        assert(decimal(a).last() == decimal_digit(a % 10));
        assert(decimal(b).last() == decimal_digit(b % 10));
        assert(decimal_digit(a % 10) as int == '0' as int + a % 10);
        assert(decimal_digit(b % 10) as int == '0' as int + b % 10);
        if a >= 10 && b >= 10 {
            assert(decimal(a).drop_last() =~= decimal(a / 10));
            assert(decimal(b).drop_last() =~= decimal(b / 10));
            decimals_tell_numbers_apart(a / 10, b / 10);
        } else {
            assert(a >= 10 ==> decimal(a).len() > 1);
            assert(b >= 10 ==> decimal(b).len() > 1);
        }
    }
}

proof fn decimals_are_not_empty(value: nat)
    ensures
        decimal(value).len() > 0,
{
}

} // verus!
