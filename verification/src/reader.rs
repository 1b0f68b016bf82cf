//! Reading bytes, records and strings out of foreign memory.
//!
//! A [`ProcessMemoryReader`] owns a read function: it is asked for `size`
//! bytes at an address and answers with the bytes it got, or with the code of
//! the operating system's refusal. The reader turns those answers into
//! exact-length byte ranges, fixed-layout records and strings.
//!
//! What a read function answers may change from call to call, so nothing is
//! assumed of it. Contracts are stated against a
//! [`Memory`](crate::memory::Memory): one fixed answer for each request.
//! Whenever the read function answers as some `Memory` does, the result is
//! the one that `Memory` determines.

use vstd::prelude::*;
use vstd::utf8::{decode_utf8, valid_utf8};
use std::string::FromUtf8Error;
use crate::address::ForeignAddress;
use crate::error::ProcessMemoryError;
use crate::layout::FixedLayout;
use crate::memory::{
    exact_answer, lemma_text_len_is, lemma_unterminated_window, record_in, records_in, text_in, text_len,
    text_or_none, view_ok, window_text, Memory, STRING_WINDOW,
};

verus! {

/// Index of the first zero byte, or the length where there is none.
pub fn find_terminator(bytes: &Vec<u8>) -> (end: usize)
    ensures
        end == text_len(bytes@),
        end <= bytes@.len(),
{
    let mut end: usize = 0;
    while end < bytes.len() && bytes[end] != 0
        invariant
            end <= bytes@.len(),
            forall|i: int| 0 <= i < end ==> bytes@[i] != 0,
        decreases bytes@.len() - end,
    {
        end += 1;
    }
    proof {
        lemma_text_len_is(bytes@, end as int);
    }
    end
}

/// Decodes the string that a probe window holds.
///
/// The text ends before the first zero byte; a window without one is text
/// from end to end. Text that is not valid UTF-8 is `InvalidString`.
pub fn decode_cstring(window: Vec<u8>) -> (r: Result<String, ProcessMemoryError>)
    ensures
        view_ok(r) == window_text(window@),
        (forall|i: int| 0 <= i < window@.len() ==> window@[i] != 0) && valid_utf8(window@) ==> view_ok(r)
            == Ok::<Seq<char>, ProcessMemoryError>(decode_utf8(window@)),
{
    let end: usize = find_terminator(&window);
    proof {
        if forall|i: int| 0 <= i < window@.len() ==> window@[i] != 0 {
            lemma_unterminated_window(window@);
        }
    }
    let mut text: Vec<u8> = window;
    text.truncate(end);
    match String::from_utf8(text) {
        Ok(s) => Ok(s),
        Err(_) => Err(ProcessMemoryError::InvalidString),
    }
}

/// What a read function's answer says, its bytes taken as a sequence.
pub open spec fn answer_view(raw: Result<Vec<u8>, i32>) -> Result<Seq<u8>, i32> {
    match raw {
        Ok(bytes) => Ok(bytes@),
        Err(code) => Err(code),
    }
}

/// Turns the answer `raw` to a read of `size` bytes into the result of the
/// read.
///
/// A refusal is `CouldNotReadProcessMemory` with its code. Bytes are handed
/// on where they are exactly `size`; fewer, or more, are `NotEnoughBytes`
/// with both numbers, and none of them is handed on.
pub fn exact_length(raw: Result<Vec<u8>, i32>, size: usize) -> (r: Result<Vec<u8>, ProcessMemoryError>)
    ensures
        view_ok(r) == exact_answer(answer_view(raw), size),
        r matches Ok(bytes) ==> bytes@.len() == size,
{
    match raw {
        Err(code) => Err(ProcessMemoryError::CouldNotReadProcessMemory { code }),
        Ok(bytes) => {
            let actual: usize = bytes.len();
            if actual == size {
                Ok(bytes)
            } else {
                Err(ProcessMemoryError::NotEnoughBytes { expected: size, actual })
            }
        },
    }
}

/// The error of `String::from_utf8`. Nothing is read out of it: it only tells
/// that the bytes were not valid UTF-8.
#[verifier::external_type_specification]
#[verifier::external_body]
pub struct ExFromUtf8Error(FromUtf8Error);

/// `String::from_utf8` of the standard library: it succeeds exactly where the
/// bytes are valid UTF-8, and the string it then gives is the text that they
/// encode.
pub assume_specification[ String::from_utf8 ](vec: Vec<u8>) -> (r: Result<String, FromUtf8Error>)
    ensures
        r is Ok <==> valid_utf8(vec@),
        r matches Ok(s) ==> s@ == decode_utf8(vec@),
;

/// Reads foreign memory through the read function it was made with.
pub struct ProcessMemoryReader<F: Fn(u64, usize) -> Result<Vec<u8>, i32>> {
    source: F,
}

impl<F: Fn(u64, usize) -> Result<Vec<u8>, i32>> ProcessMemoryReader<F> {
    #[verifier::type_invariant]
    spec fn callable(&self) -> bool {
        forall|address: u64, size: usize| #[trigger] self.source.requires((address, size))
    }

    /// The read function.
    pub closed spec fn source(&self) -> F {
        self.source
    }

    /// Whether the read function answers every request as `mem` does.
    pub open spec fn reads_from(&self, mem: Memory) -> bool {
        forall|address: u64, size: usize, raw: Result<Vec<u8>, i32>| #[trigger]
            self.source().ensures((address, size), raw) ==> answer_view(raw) == (mem.answer)(
                address,
                size,
            )
    }

    /// A reader over `source`, which must accept every request.
    pub fn new(source: F) -> (r: Self)
        requires
            forall|address: u64, size: usize| #[trigger] source.requires((address, size)),
        ensures
            r.source() == source,
    {
        ProcessMemoryReader { source }
    }

    /// Reads exactly `size` bytes at `address`.
    ///
    /// Asks the read function once, for `size` bytes at `address`, and turns
    /// its answer into the result as `exact_length` says.
    pub fn read_bytes(&self, address: ForeignAddress, size: usize) -> (r: Result<Vec<u8>, ProcessMemoryError>)
        ensures
            exists|raw: Result<Vec<u8>, i32>| #[trigger]
                self.source().ensures((address.0, size), raw) && view_ok(r) == exact_answer(answer_view(raw), size),
            r matches Ok(bytes) ==> bytes@.len() == size,
            forall|mem: Memory| #[trigger] self.reads_from(mem) ==> view_ok(r) == mem.bytes(address, size),
    {
        proof {
            use_type_invariant(self);
        }
        let raw = (self.source)(address.0, size);
        assert(self.source().ensures((address.0, size), raw));
        exact_length(raw, size)
    }

    /// Reads the record at `address`: one read of the record's size, decoded
    /// by the record's layout.
    pub fn read_struct<T: FixedLayout>(&self, address: ForeignAddress) -> (r: Result<T, ProcessMemoryError>)
        ensures
            exists|raw: Result<Vec<u8>, i32>| #[trigger]
                self.source().ensures((address.0, T::spec_size() as usize), raw) && r == record_in::<T>(
                    exact_answer(answer_view(raw), T::spec_size() as usize),
                ),
            forall|mem: Memory| #[trigger] self.reads_from(mem) ==> r == mem.record::<T>(address),
    {
        let bytes: Vec<u8> = match self.read_bytes(address, T::size()) {
            Ok(bytes) => bytes,
            Err(e) => {
                return Err(e);
            },
        };
        Ok(T::decode(bytes.as_slice(), 0))
    }

    /// Reads `count` records that lie one after the other from `address` on,
    /// in one read: all of them or none.
    pub fn read_structs<T: FixedLayout>(&self, address: ForeignAddress, count: usize) -> (r: Result<
        Vec<T>,
        ProcessMemoryError,
    >)
        ensures
            T::spec_size() * count > usize::MAX ==> r == Err::<Vec<T>, ProcessMemoryError>(
                ProcessMemoryError::AddressOverflow,
            ),
            T::spec_size() * count <= usize::MAX ==> exists|raw: Result<Vec<u8>, i32>| #[trigger]
                self.source().ensures((address.0, (T::spec_size() * count) as usize), raw) && view_ok(r)
                    == records_in::<T>(exact_answer(answer_view(raw), (T::spec_size() * count) as usize), count),
            r matches Ok(records) ==> records@.len() == count,
            forall|mem: Memory| #[trigger] self.reads_from(mem) ==> view_ok(r) == mem.records::<T>(address, count),
    {
        let record_size: usize = T::size();
        let total: usize = match record_size.checked_mul(count) {
            Some(total) => total,
            None => {
                return Err(ProcessMemoryError::AddressOverflow);
            },
        };
        let bytes: Vec<u8> = match self.read_bytes(address, total) {
            Ok(bytes) => bytes,
            Err(e) => {
                return Err(e);
            },
        };
        let mut records: Vec<T> = Vec::new();
        let mut i: usize = 0;
        while i < count
            invariant
                i <= count,
                records@.len() == i,
                record_size == T::spec_size(),
                total == record_size * count,
                bytes@.len() == total,
                forall|k: int|
                    0 <= k < i ==> #[trigger] records@[k] == T::spec_decode(bytes@, k * T::spec_size()),
            decreases count - i,
        {
            assert(0 <= i * record_size && i * record_size + record_size == (i + 1) * record_size && (i + 1)
                * record_size <= record_size * count) by (nonlinear_arith)
                requires
                    0 <= i < count,
                    0 <= record_size,
            ;
            let at: usize = i * record_size;
            let record: T = T::decode(bytes.as_slice(), at);
            records.push(record);
            i += 1;
        }
        assert(records@ =~= records_in::<T>(Ok(bytes@), count)->Ok_0);
        Ok(records)
    }

    /// Reads the zero-terminated string at `address`.
    ///
    /// A null address is `EmptyString`. Otherwise a window of
    /// `STRING_WINDOW` bytes is read and decoded as `decode_cstring` says.
    pub fn read_cstring(&self, address: ForeignAddress) -> (r: Result<String, ProcessMemoryError>)
        ensures
            address.is_null() ==> r == Err::<String, ProcessMemoryError>(ProcessMemoryError::EmptyString),
            !address.is_null() ==> exists|raw: Result<Vec<u8>, i32>| #[trigger]
                self.source().ensures((address.0, STRING_WINDOW), raw) && view_ok(r) == text_in(
                    exact_answer(answer_view(raw), STRING_WINDOW),
                ),
            forall|mem: Memory| #[trigger] self.reads_from(mem) ==> view_ok(r) == mem.cstring(address),
    {
        if address.is_null() {
            return Err(ProcessMemoryError::EmptyString);
        }
        match self.read_bytes(address, STRING_WINDOW) {
            Ok(window) => decode_cstring(window),
            Err(e) => Err(e),
        }
    }

    /// Reads a string that may be absent: a null address, and a string that
    /// cannot be read or decoded, give `None`.
    pub fn read_optional_cstring(&self, address: ForeignAddress) -> (r: Option<String>)
        ensures
            address.is_null() ==> r is None,
            !address.is_null() ==> exists|raw: Result<Vec<u8>, i32>| #[trigger]
                self.source().ensures((address.0, STRING_WINDOW), raw) && r.deep_view() == text_or_none(
                    text_in(exact_answer(answer_view(raw), STRING_WINDOW)),
                ),
            forall|mem: Memory| #[trigger] self.reads_from(mem) ==> r.deep_view() == mem.optional_cstring(address),
    {
        match self.read_cstring(address) {
            Ok(text) => Some(text),
            Err(_) => None,
        }
    }
}

} // verus!
