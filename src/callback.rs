//! Calls across the boundary in both directions for `ByrefButton`: the call
//! that a foreign-backed wrapper hands to the foreign runtime and the decoding
//! of what comes back, and the dispatch of a foreign call on a handle.
use vstd::prelude::*;
use vstd::utf8::{encode_utf8, valid_utf8};
use crate::button::{back_name, BackButton, ByrefButton, Other};
use crate::handles::{HandleError, HandleTable, Target};
use crate::wire::{be32_bytes, be32_value, try_read_u32, write_u32, WireError};

verus! {

/// The dispatch index of `ByrefButton::name`.
pub const NAME_METHOD_INDEX: u32 = 0;

/// One call into the foreign runtime's dispatch function.
#[derive(Debug, Clone, PartialEq, Eq)]
pub struct ForeignCall {
    /// The foreign identifier of the implementation.
    pub handle: u64,
    pub method_index: u32,
    /// The encoded arguments.
    pub args: Vec<u8>,
}

/// A native stand-in for an implementation that lives in the foreign
/// runtime: each method call becomes a call of the foreign dispatch function.
#[derive(Debug, PartialEq, Eq, Structural, Clone, Copy)]
pub struct ForeignButton {
    pub handle: u64,
}

/// The encoding of an `Other` record: its one field.
pub open spec fn other_bytes(o: Other) -> Seq<u8> {
    be32_bytes(o.num)
}

/// Appends the encoding of `o` to `buf`.
pub fn write_other(o: &Other, buf: &mut Vec<u8>)
    requires
        old(buf)@.len() + 4 <= isize::MAX,
    ensures
        final(buf)@ == old(buf)@ + other_bytes(*o),
{
    write_u32(o.num, buf);
}

/// Reads an `Other` record from `buf` at `pos`, with the position just past
/// it.
pub fn try_read_other(buf: &[u8], pos: usize) -> (r: Result<(Other, usize), WireError>)
    requires
        pos <= buf@.len(),
    ensures
        buf@.len() - pos >= 4 ==> (r matches Ok((o, n)) && o.num == be32_value(
            buf@.subrange(pos as int, pos + 4),
        ) && n == (pos + 4) as usize),
        buf@.len() - pos < 4 ==> r == Err::<(Other, usize), WireError>(
            WireError::BufferUnderrun { needed: 4, remaining: (buf@.len() - pos) as usize },
        ),
{
    let read = try_read_u32(buf, pos);
    match read {
        Ok(pair) => Ok((Other { num: pair.0 }, pair.1)),
        Err(e) => Err(e),
    }
}

impl ForeignButton {
    pub fn new(handle: u64) -> (r: ForeignButton)
        ensures
            r.handle == handle,
    {
        ForeignButton { handle }
    }

    /// The call that `name(byref)` makes into the foreign runtime.
    pub fn name_call(&self, byref: &Other) -> (r: ForeignCall)
        ensures
            r.handle == self.handle,
            r.method_index == NAME_METHOD_INDEX,
            r.args@ == other_bytes(*byref),
    {
        let mut args: Vec<u8> = Vec::new();
        write_other(byref, &mut args);
        assert(args@ =~= other_bytes(*byref));
        ForeignCall { handle: self.handle, method_index: NAME_METHOD_INDEX, args }
    }
}

/// How a foreign call ended, as its status code says.
#[derive(Debug, PartialEq, Eq, Structural, Clone, Copy)]
pub enum CallbackOutcome {
    /// The return value is in the buffer.
    Success,
    /// A declared error is in the buffer.
    Error,
    /// A message is in the buffer.
    UnexpectedError,
}

/// Relies on `TryFrom<i32>` for `uniffi::CallbackResult`: 0, 1 and 2 are
/// success, a declared error and an unexpected error; any other code is
/// refused.
#[verifier::external_body]
fn callback_result(code: i32) -> (r: Option<CallbackOutcome>)
    ensures
        code == 0 ==> r == Some(CallbackOutcome::Success),
        code == 1 ==> r == Some(CallbackOutcome::Error),
        code == 2 ==> r == Some(CallbackOutcome::UnexpectedError),
        !(0 <= code <= 2) ==> r is None,
{
    match uniffi::CallbackResult::try_from(code) {
        Ok(uniffi::CallbackResult::Success) => Some(CallbackOutcome::Success),
        Ok(uniffi::CallbackResult::Error) => Some(CallbackOutcome::Error),
        Ok(uniffi::CallbackResult::UnexpectedError) => Some(CallbackOutcome::UnexpectedError),
        Err(_) => None,
    }
}

/// Relies on `String::from_utf8`: it succeeds exactly on valid UTF-8, with
/// the characters that the bytes encode.
#[verifier::external_body]
fn string_from_utf8(bytes: Vec<u8>) -> (r: Option<String>)
    ensures
        r is Some <==> valid_utf8(bytes@),
        r is Some ==> encode_utf8(r->0@) == bytes@,
{
    String::from_utf8(bytes).ok()
}

/// Why a foreign call did not give a value.
#[derive(Debug, Clone, PartialEq, Eq)]
pub enum CallbackError {
    /// The foreign implementation raised an error that the method does not
    /// declare.
    UndeclaredError,
    /// The foreign implementation failed unexpectedly; its message, when the
    /// buffer held valid UTF-8.
    Unexpected { message: Option<String> },
    /// The status code is none of the known ones.
    UnknownStatus { code: i32 },
    /// The returned buffer is not valid UTF-8.
    InvalidReturn,
}

/// Decodes what the foreign dispatch function gave back for
/// `ByrefButton::name`: status `code` and the buffer `buf`.
pub fn decode_name_return(code: i32, buf: Vec<u8>) -> (r: Result<String, CallbackError>)
    ensures
        code == 0 && valid_utf8(buf@) ==> r is Ok && encode_utf8(r->Ok_0@) == buf@,
        code == 0 && !valid_utf8(buf@) ==> r == Err::<String, CallbackError>(
            CallbackError::InvalidReturn,
        ),
        code == 1 ==> r == Err::<String, CallbackError>(CallbackError::UndeclaredError),
        code == 2 ==> r is Err && r->Err_0 is Unexpected && (r->Err_0->message is Some
            <==> valid_utf8(buf@)) && (r->Err_0->message is Some ==> encode_utf8(
            r->Err_0->message->0@,
        ) == buf@),
        !(0 <= code <= 2) ==> r == Err::<String, CallbackError>(
            CallbackError::UnknownStatus { code },
        ),
{
    match callback_result(code) {
        Some(CallbackOutcome::Success) => match string_from_utf8(buf) {
            Some(s) => Ok(s),
            None => Err(CallbackError::InvalidReturn),
        },
        Some(CallbackOutcome::Error) => Err(CallbackError::UndeclaredError),
        Some(CallbackOutcome::UnexpectedError) => Err(
            CallbackError::Unexpected { message: string_from_utf8(buf) },
        ),
        None => Err(CallbackError::UnknownStatus { code }),
    }
}

/// What a foreign call of `name` on a handle comes to.
#[derive(Debug, Clone, PartialEq, Eq)]
pub enum NameDispatch {
    /// A native implementation answered.
    Returned(String),
    /// The handle stands for a foreign implementation: the call goes back to
    /// the foreign runtime.
    Forward(ForeignCall),
    /// The handle is not live.
    InvalidHandle { handle: u64 },
    /// The arguments could not be decoded.
    InvalidArgs(WireError),
}

/// `r` answers a call of `name` with well-formed arguments `args` on a handle
/// of `target`: a native implementation returns its name, and a foreign one
/// gets the same call.
pub open spec fn name_answer(r: NameDispatch, target: Target, args: Seq<u8>) -> bool {
    match target {
        Target::Native { .. } => r is Returned && r->Returned_0@ == back_name(be32_value(args)),
        Target::Foreign { id } => {
            &&& r is Forward
            &&& r->Forward_0.handle == id
            &&& r->Forward_0.method_index == NAME_METHOD_INDEX
            &&& r->Forward_0.args@ == be32_bytes(be32_value(args))
        },
    }
}

/// The entry point for `ByrefButton::name` on handle `h` with encoded
/// arguments `args`. Nothing is counted or freed.
pub fn call_name(table: &HandleTable, h: u64, args: &[u8]) -> (r: NameDispatch)
    requires
        table.wf(),
    ensures
        !table.is_live(h) ==> r == (NameDispatch::InvalidHandle { handle: h }),
        table.is_live(h) && args@.len() < 4 ==> r == NameDispatch::InvalidArgs(
            (WireError::BufferUnderrun { needed: 4, remaining: args@.len() as usize }),
        ),
        table.is_live(h) && args@.len() >= 4 ==> name_answer(r, table.target(h), args@),
{
    let target = match table.lift(h) {
        Ok(t) => t,
        Err(HandleError::InvalidHandle { handle }) => {
            return NameDispatch::InvalidHandle { handle };
        },
    };
    let other = match try_read_other(args, 0) {
        Ok((o, _)) => o,
        Err(e) => {
            return NameDispatch::InvalidArgs(e);
        },
    };
    assert(be32_value(args@.subrange(0, 4)) == be32_value(args@));
    match target {
        Target::Native { .. } => {
            let button = BackButton {  };
            NameDispatch::Returned(button.name(&other))
        },
        Target::Foreign { id } => NameDispatch::Forward(ForeignButton::new(id).name_call(&other)),
    }
}

/// A native implementation lowered into a fresh handle answers a call of
/// `name` through that handle exactly as it answers a direct call.
pub proof fn lemma_lowered_native_answers(
    pre: HandleTable,
    instance: u64,
    post: HandleTable,
    h: u64,
    o: Other,
    r: NameDispatch,
)
    requires
        pre.wf(),
        HandleTable::lower_step(pre, Target::Native { instance }, post, h),
        name_answer(r, post.target(h), other_bytes(o)),
    ensures
        post.is_live(h),
        r is Returned,
        r->Returned_0@ == (BackButton {  }).name_of(o.num),
{
    crate::wire::lemma_be32_round_trip(o.num);
}

/// A call on a handle of a foreign implementation goes to the foreign runtime
/// with the identifier, the dispatch index and the encoded record unchanged.
pub proof fn lemma_foreign_forward(id: u64, o: Other, r: NameDispatch)
    requires
        name_answer(r, Target::Foreign { id }, other_bytes(o)),
    ensures
        r is Forward,
        r->Forward_0.handle == id,
        r->Forward_0.method_index == NAME_METHOD_INDEX,
        r->Forward_0.args@ == other_bytes(o),
{
    crate::wire::lemma_be32_round_trip(o.num);
}

} // verus!
