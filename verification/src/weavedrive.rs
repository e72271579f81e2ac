//! The virtual file driver.
//!
//! The host owns every file and every cursor. The driver only decides: which
//! request goes to the host, what a host answer means, and what the guest
//! gets back. The caller performs the host calls and feeds each answer in.

use vstd::prelude::*;
use vstd::slice::slice_subrange;
use vstd::utf8::encode_utf8;
use crate::text::{c_string, is_c_text};

verus! {

/// Number of bytes asked of the host in one request.
pub const CHUNK_SIZE: usize = 1024;

/// The descriptor that means "no handle".
pub const NO_HANDLE: i32 = 0;

/// The call that opens a file on the host: both arguments as C texts.
#[derive(Clone, Debug)]
pub struct OpenRequest {
    pub filename: Vec<u8>,
    pub mode: Vec<u8>,
}

/// The mode of a guest `open`: `"r"` unless the guest gave one.
pub open spec fn mode_of(mode: Option<String>) -> Seq<char> {
    match mode {
        Some(given) => given@,
        None => "r"@,
    }
}

/// Whether a guest `open` can be handed to the host: neither the name nor
/// the mode holds a NUL.
pub open spec fn can_open(filename: Seq<char>, mode: Seq<char>) -> bool {
    !encode_utf8(filename).contains(0u8) && !encode_utf8(mode).contains(0u8)
}

/// Plans the host call for a guest `open`. Where the name or the mode holds
/// a NUL there is no call to make: the guest gets "no handle".
pub fn open(filename: String, mode: Option<String>) -> (request: Option<OpenRequest>)
    ensures
        request is Some <==> can_open(filename@, mode_of(mode)),
        request matches Some(call) ==> {
            &&& call.filename@ == encode_utf8(filename@).push(0u8)
            &&& call.mode@ == encode_utf8(mode_of(mode)).push(0u8)
            &&& is_c_text(call.filename@)
            &&& is_c_text(call.mode@)
        },
{
    let mode = match mode {
        Some(given) => given,
        None => "r".to_string(),
    };
    let filename = match c_string(filename.as_str()) {
        Ok(buffer) => buffer,
        Err(_) => { return None; },
    };
    match c_string(mode.as_str()) {
        Ok(mode) => Some(OpenRequest { filename, mode }),
        Err(_) => None,
    }
}

/// What the guest sees of the host's answer to an open call: the reserved
/// descriptor becomes "no handle", every other value is a live handle.
pub fn descriptor(host_result: i32) -> (handle: Option<i32>)
    ensures
        handle == (if host_result == NO_HANDLE {
            None
        } else {
            Some(host_result)
        }),
{
    if host_result == NO_HANDLE {
        None
    } else {
        Some(host_result)
    }
}

/// Where one guest `read` stands.
#[derive(Clone, Copy, Debug, PartialEq, Eq, Structural)]
pub enum ReadPhase {
    /// The host has not yet reported the end of the stream.
    Reading,
    /// The host reported the end of the stream.
    Finished,
    /// The host reported an error.
    Failed,
}

/// The mathematical content of a read in progress.
pub struct ReadModel {
    /// The bytes gathered so far, in the order the host delivered them.
    pub data: Seq<u8>,
    pub phase: ReadPhase,
}

impl ReadModel {
    /// A read before the first host answer.
    pub open spec fn start() -> ReadModel {
        ReadModel { data: Seq::empty(), phase: ReadPhase::Reading }
    }

    /// What the guest gets: the gathered bytes once the stream has ended,
    /// and "no data" otherwise.
    pub open spec fn outcome(self) -> Option<Seq<u8>> {
        if self.phase == ReadPhase::Finished {
            Some(self.data)
        } else {
            None
        }
    }
}

/// One host answer folded into a read. `bytes_read` is the host's return
/// value and `chunk` the buffer it wrote to. A negative answer fails the read,
/// and so does one that claims more bytes than the buffer holds. Zero ends
/// the read, and a positive answer appends exactly the first `bytes_read`
/// bytes of the buffer. A read that has ended or failed ignores answers.
pub open spec fn read_step(before: ReadModel, bytes_read: int, chunk: Seq<u8>) -> ReadModel {
    if before.phase != ReadPhase::Reading {
        before
    } else if bytes_read < 0 || bytes_read > chunk.len() {
        ReadModel { data: before.data, phase: ReadPhase::Failed }
    } else if bytes_read == 0 {
        ReadModel { data: before.data, phase: ReadPhase::Finished }
    } else {
        ReadModel { data: before.data + chunk.subrange(0, bytes_read), phase: ReadPhase::Reading }
    }
}

/// A sequence of host answers folded into a read, first answer first.
pub open spec fn replay(before: ReadModel, answers: Seq<(int, Seq<u8>)>) -> ReadModel
    decreases answers.len(),
{
    if answers.len() == 0 {
        before
    } else {
        replay(read_step(before, answers[0].0, answers[0].1), answers.drop_first())
    }
}

/// One guest `read`, from the first request to the host until the result.
pub struct ReadSession {
    data: Vec<u8>,
    phase: ReadPhase,
}

impl View for ReadSession {
    type V = ReadModel;

    closed spec fn view(&self) -> ReadModel {
        ReadModel { data: self.data@, phase: self.phase }
    }
}

impl ReadSession {
    /// A read that has not heard from the host yet.
    pub fn new() -> (session: ReadSession)
        ensures
            session@ == ReadModel::start(),
    {
        ReadSession { data: Vec::new(), phase: ReadPhase::Reading }
    }

    /// Whether the host must be asked for another chunk.
    pub fn wants_more(&self) -> (more: bool)
        ensures
            more == (self@.phase == ReadPhase::Reading),
    {
        match self.phase {
            ReadPhase::Reading => true,
            _ => false,
        }
    }

    /// The bytes for the guest, or `None` for "no data".
    pub fn finish(self) -> (result: Option<Vec<u8>>)
        ensures
            match result {
                Some(bytes) => self@.outcome() == Some(bytes@),
                None => self@.outcome() is None,
            },
    {
        match self.phase {
            ReadPhase::Finished => Some(self.data),
            _ => None,
        }
    }
}

/// Takes in the host's answer to one request: its return value and the
/// buffer it was given.
pub fn read(session: &mut ReadSession, bytes_read: i32, chunk: &[u8])
    ensures
        final(session)@ == read_step(old(session)@, bytes_read as int, chunk@),
{
    match session.phase {
        ReadPhase::Reading => {
            if bytes_read < 0 || bytes_read as usize > chunk.len() {
                session.phase = ReadPhase::Failed;
            } else if bytes_read == 0 {
                session.phase = ReadPhase::Finished;
            } else {
                let taken = slice_subrange(chunk, 0, bytes_read as usize);
                session.data.extend_from_slice(taken);
                assert(session.data@ =~= old(session).data@ + chunk@.subrange(
                    0,
                    bytes_read as int,
                ));
            }
        },
        _ => {},
    }
}

/// Tells the host that the guest is done with a descriptor. The host owns
/// the descriptor and need not act on it: the driver reports success whatever
/// the descriptor is.
pub fn close(fd: i32) -> (status: i32)
    ensures
        status == 0,
{
    weavedrive_close(fd)
}

/// The release notification itself: a host without a release call answers
/// success for every descriptor.
pub fn weavedrive_close(fd: i32) -> (status: i32)
    ensures
        status == 0,
{
    0
}

/// The bytes that a backing store hands out when asked for at most `max_len`
/// bytes from position `pos`.
pub open spec fn served(store: Seq<u8>, pos: int, max_len: int) -> Seq<u8> {
    if pos + max_len <= store.len() {
        store.subrange(pos, pos + max_len)
    } else {
        store.subrange(pos, store.len() as int)
    }
}

/// The request buffer after the store has answered: the served bytes, then
/// what the buffer held before the call.
pub open spec fn filled(store: Seq<u8>, pos: int, scratch: Seq<u8>) -> Seq<u8> {
    let part = served(store, pos, scratch.len() as int);
    part + scratch.subrange(part.len() as int, scratch.len() as int)
}

/// A read served by a backing store from position `pos` on, one request of
/// `scratch.len()` bytes after the other, until the store reports its end.
pub open spec fn read_store(before: ReadModel, store: Seq<u8>, pos: int, scratch: Seq<u8>) -> ReadModel
    decreases store.len() - pos,
{
    if pos < 0 || pos > store.len() || scratch.len() == 0 {
        before
    } else {
        let count = served(store, pos, scratch.len() as int).len() as int;
        let after = read_step(before, count, filled(store, pos, scratch));
        if count == 0 {
            after
        } else {
            read_store(after, store, pos + count, scratch)
        }
    }
}

/// A read in progress that is served by a store from `pos` on ends with what
/// it had, followed by the rest of the store.
pub proof fn lemma_read_store_appends_rest(
    before: ReadModel,
    store: Seq<u8>,
    pos: int,
    scratch: Seq<u8>,
)
    requires
        before.phase == ReadPhase::Reading,
        0 <= pos <= store.len(),
        scratch.len() > 0,
    ensures
        read_store(before, store, pos, scratch) == (ReadModel {
            data: before.data + store.subrange(pos, store.len() as int),
            phase: ReadPhase::Finished,
        }),
    decreases store.len() - pos,
{
    let part = served(store, pos, scratch.len() as int);
    let count = part.len() as int;
    let buffer = filled(store, pos, scratch);
    let after = read_step(before, count, buffer);
    if count == 0 {
        assert(before.data + store.subrange(pos, store.len() as int) =~= before.data);
    } else {
        assert(buffer.subrange(0, count) =~= part);
        lemma_read_store_appends_rest(after, store, pos + count, scratch);
        assert(after.data + store.subrange(pos + count, store.len() as int) =~= before.data
            + store.subrange(pos, store.len() as int));
    }
}

/// Round trip: reading a backing store through the driver, in requests of any
/// positive size, gives back exactly the bytes of the store, whatever the
/// request buffer held beforehand.
pub proof fn lemma_round_trip(store: Seq<u8>, scratch: Seq<u8>)
    requires
        scratch.len() > 0,
    ensures
        read_store(ReadModel::start(), store, 0, scratch).outcome() == Some(store),
{
    lemma_read_store_appends_rest(ReadModel::start(), store, 0, scratch);
    assert(Seq::<u8>::empty() + store.subrange(0, store.len() as int) =~= store);
}

/// A read that has ended or failed stays as it is, whatever the host says
/// afterwards.
pub proof fn lemma_replay_settled(before: ReadModel, answers: Seq<(int, Seq<u8>)>)
    requires
        before.phase != ReadPhase::Reading,
    ensures
        replay(before, answers) == before,
    decreases answers.len(),
{
    if answers.len() > 0 {
        lemma_replay_settled(before, answers.drop_first());
    }
}

/// Sentinels: a read whose first host answer is negative, as for a descriptor
/// that the host does not know, yields "no data", whatever follows.
pub proof fn lemma_rejected_read_yields_no_data(answers: Seq<(int, Seq<u8>)>)
    requires
        answers.len() > 0,
        answers[0].0 < 0,
    ensures
        replay(ReadModel::start(), answers).outcome() is None,
{
    let first = read_step(ReadModel::start(), answers[0].0, answers[0].1);
    lemma_replay_settled(first, answers.drop_first());
}

} // verus!
