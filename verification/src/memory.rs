//! A fixed picture of foreign memory, against which the decoders are
//! specified.
//!
//! A [`Memory`] gives one answer to each read request. Everything that the
//! decoders return is a function of those answers, and is defined here and in
//! the decoders' modules as a spec function on `Memory`.

use vstd::prelude::*;
use vstd::utf8::{decode_utf8, valid_utf8};
use crate::address::ForeignAddress;
use crate::error::ProcessMemoryError;
use crate::layout::FixedLayout;

verus! {

/// Number of bytes probed for a string's terminator.
pub const STRING_WINDOW: usize = 1024;

/// One fixed answer to every read request: the bytes that `size` bytes at
/// `address` give, or the code with which the read is refused.
pub struct Memory {
    pub answer: spec_fn(u64, usize) -> Result<Seq<u8>, i32>,
}

/// Index of the first zero byte of `bytes`, or their number where none is zero.
pub open spec fn text_len(bytes: Seq<u8>) -> nat
    decreases bytes.len(),
{
    if bytes.len() == 0 || bytes[0] == 0 {
        0
    } else {
        1 + text_len(bytes.drop_first())
    }
}

/// The string that a probe window holds: the bytes before its first zero
/// byte, all of them where none is zero, decoded as UTF-8.
pub open spec fn window_text(window: Seq<u8>) -> Result<Seq<char>, ProcessMemoryError> {
    let text = window.subrange(0, text_len(window) as int);
    if valid_utf8(text) {
        Ok(decode_utf8(text))
    } else {
        Err(ProcessMemoryError::InvalidString)
    }
}

/// `text_len` is the one index at which the first zero byte can stand.
pub proof fn lemma_text_len(bytes: Seq<u8>)
    ensures
        text_len(bytes) <= bytes.len(),
        forall|i: int| 0 <= i < text_len(bytes) ==> bytes[i] != 0,
        text_len(bytes) < bytes.len() ==> bytes[text_len(bytes) as int] == 0,
    decreases bytes.len(),
{
    if bytes.len() != 0 && bytes[0] != 0 {
        let rest = bytes.drop_first();
        lemma_text_len(rest);
        assert forall|i: int| 0 <= i < text_len(bytes) implies bytes[i] != 0 by {
            if i > 0 {
                assert(bytes[i] == rest[i - 1]);
            }
        }
    }
}

/// An index with nothing but non-zero bytes before it, and a zero byte at it
/// unless it is the end, is `text_len`.
pub proof fn lemma_text_len_is(bytes: Seq<u8>, end: int)
    requires
        0 <= end <= bytes.len(),
        forall|i: int| 0 <= i < end ==> bytes[i] != 0,
        end < bytes.len() ==> bytes[end] == 0,
    ensures
        text_len(bytes) == end,
{
    lemma_text_len(bytes);
}

/// A window without a zero byte is text from end to end.
pub proof fn lemma_unterminated_window(window: Seq<u8>)
    requires
        forall|i: int| 0 <= i < window.len() ==> window[i] != 0,
    ensures
        text_len(window) == window.len(),
        window_text(window) == if valid_utf8(window) {
            Ok::<Seq<char>, ProcessMemoryError>(decode_utf8(window))
        } else {
            Err::<Seq<char>, ProcessMemoryError>(ProcessMemoryError::InvalidString)
        },
{
    lemma_text_len_is(window, window.len() as int);
    assert(window.subrange(0, window.len() as int) =~= window);
}

/// What a read of `size` bytes gives that was answered with `answer`: the
/// bytes where they are exactly `size`, `NotEnoughBytes` where they are
/// another number, and `CouldNotReadProcessMemory` where the read was
/// refused.
pub open spec fn exact_answer(answer: Result<Seq<u8>, i32>, size: usize) -> Result<Seq<u8>, ProcessMemoryError> {
    match answer {
        Err(code) => Err(ProcessMemoryError::CouldNotReadProcessMemory { code }),
        Ok(bytes) => if bytes.len() == size {
            Ok(bytes)
        } else {
            Err(ProcessMemoryError::NotEnoughBytes { expected: size, actual: bytes.len() as usize })
        },
    }
}

/// The record that the result of a read holds at its start.
pub open spec fn record_in<T: FixedLayout>(bytes: Result<Seq<u8>, ProcessMemoryError>) -> Result<
    T,
    ProcessMemoryError,
> {
    match bytes {
        Err(e) => Err(e),
        Ok(bytes) => Ok(T::spec_decode(bytes, 0)),
    }
}

/// The `count` records that the result of a read holds, one after the other.
pub open spec fn records_in<T: FixedLayout>(bytes: Result<Seq<u8>, ProcessMemoryError>, count: usize) -> Result<
    Seq<T>,
    ProcessMemoryError,
> {
    match bytes {
        Err(e) => Err(e),
        Ok(bytes) => Ok(Seq::new(count as nat, |i: int| T::spec_decode(bytes, i * T::spec_size()))),
    }
}

/// The string that the result of a read of a probe window holds.
pub open spec fn text_in(window: Result<Seq<u8>, ProcessMemoryError>) -> Result<Seq<char>, ProcessMemoryError> {
    match window {
        Err(e) => Err(e),
        Ok(window) => window_text(window),
    }
}

/// What is left of a string that may be absent: nothing where it failed.
pub open spec fn text_or_none(text: Result<Seq<char>, ProcessMemoryError>) -> Option<Seq<char>> {
    match text {
        Ok(text) => Some(text),
        Err(_) => None,
    }
}

impl Memory {
    /// Exactly `size` bytes at `address`.
    pub open spec fn bytes(self, address: ForeignAddress, size: usize) -> Result<Seq<u8>, ProcessMemoryError> {
        exact_answer((self.answer)(address.0, size), size)
    }

    /// The record at `address`.
    pub open spec fn record<T: FixedLayout>(self, address: ForeignAddress) -> Result<T, ProcessMemoryError> {
        record_in::<T>(self.bytes(address, T::spec_size() as usize))
    }

    /// The `count` records that lie one after the other from `address` on,
    /// read in one piece; `AddressOverflow` where their size is no `usize`.
    pub open spec fn records<T: FixedLayout>(self, address: ForeignAddress, count: usize) -> Result<
        Seq<T>,
        ProcessMemoryError,
    > {
        if T::spec_size() * count > usize::MAX {
            Err(ProcessMemoryError::AddressOverflow)
        } else {
            records_in::<T>(self.bytes(address, (T::spec_size() * count) as usize), count)
        }
    }

    /// The zero-terminated string at `address`: `EmptyString` for the null
    /// address, else the text of the probe window there.
    pub open spec fn cstring(self, address: ForeignAddress) -> Result<Seq<char>, ProcessMemoryError> {
        if address.is_null() {
            Err(ProcessMemoryError::EmptyString)
        } else {
            text_in(self.bytes(address, STRING_WINDOW))
        }
    }

    /// The string at `address`, or nothing where the address is null or the
    /// string cannot be had.
    pub open spec fn optional_cstring(self, address: ForeignAddress) -> Option<Seq<char>> {
        text_or_none(self.cstring(address))
    }
}

/// A result with its value taken by its view.
pub open spec fn view_ok<T: View>(r: Result<T, ProcessMemoryError>) -> Result<T::V, ProcessMemoryError> {
    match r {
        Ok(value) => Ok(value@),
        Err(e) => Err(e),
    }
}

/// A result with its value taken by its deep view.
pub open spec fn deep_ok<T: DeepView>(r: Result<T, ProcessMemoryError>) -> Result<T::V, ProcessMemoryError> {
    match r {
        Ok(value) => Ok(value.deep_view()),
        Err(e) => Err(e),
    }
}

/// `rest` with `front` put before it; an error stays as it is.
pub open spec fn prepend<V>(front: Seq<V>, rest: Result<Seq<V>, ProcessMemoryError>) -> Result<
    Seq<V>,
    ProcessMemoryError,
> {
    match rest {
        Ok(rest) => Ok(front + rest),
        Err(e) => Err(e),
    }
}

/// Every item decoded, in order: the first failure, where there is one, is
/// the result.
pub open spec fn decode_all<T, V>(items: Seq<T>, decode: spec_fn(T) -> Result<V, ProcessMemoryError>) -> Result<
    Seq<V>,
    ProcessMemoryError,
>
    decreases items.len(),
{
    if items.len() == 0 {
        Ok(Seq::empty())
    } else {
        match decode(items[0]) {
            Err(e) => Err(e),
            Ok(first) => prepend(seq![first], decode_all(items.drop_first(), decode)),
        }
    }
}

/// Where every item decodes, `decode_all` gives one value for each.
pub proof fn lemma_decode_all_len<T, V>(items: Seq<T>, decode: spec_fn(T) -> Result<V, ProcessMemoryError>)
    ensures
        decode_all(items, decode) matches Ok(values) ==> values.len() == items.len(),
    decreases items.len(),
{
    if items.len() != 0 {
        lemma_decode_all_len(items.drop_first(), decode);
    }
}

/// One step of decoding `items` from the front: what `decode_all` gives from
/// `done` on, in terms of item `done` and of what it gives from `done + 1` on.
pub proof fn lemma_decode_all_step<T, V>(
    items: Seq<T>,
    decode: spec_fn(T) -> Result<V, ProcessMemoryError>,
    done: int,
)
    requires
        0 <= done < items.len(),
    ensures
        decode_all(items.skip(done), decode) == match decode(items[done]) {
            Err(e) => Err(e),
            Ok(value) => prepend(seq![value], decode_all(items.skip(done + 1), decode)),
        },
{
    assert(items.skip(done).drop_first() =~= items.skip(done + 1));
}

} // verus!
