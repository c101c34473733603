//! The stream adapter: a seekable byte source offered as the four operations
//! that a foreign consumer calls, `read`, `seek`, `tell` and `get_size`.
//!
//! The consumer knows nothing of errors as values. Each operation answers with
//! one signed 64-bit number: a count of bytes or a position where it went
//! well, `-1` where it did not. The adapter takes what the source hands back,
//! whatever it is, and turns it into such a number.
//!
//! Each operation comes in two layers. The inner one is made of functions on
//! plain values, which say what to ask of the source ([`plan_read`],
//! [`plan_seek`], [`plan_tell`], [`SizeQuery::step`]) and what to answer for each
//! thing the source may reply ([`finish_read`], [`finish_seek`], [`finish_tell`],
//! [`SizeQuery::advance`]); their contracts are exact. The outer one ([`read`],
//! [`seek`], [`tell`], [`get_size`]) puts the questions to a [`ByteSource`] and
//! hands the replies to the inner layer. Nothing is assumed of the source, so
//! the contracts of the outer layer hold of every source, well behaved or not.
use vstd::prelude::*;

verus! {

/// Where a byte source is asked to go.
#[derive(Debug, Clone, Copy, PartialEq, Eq, Structural)]
pub enum SeekTarget {
    /// To the byte at this offset from the start of the source.
    Start(u64),
    /// Nowhere: the source stays where it stands, and says where that is.
    Current,
    /// Just past the last byte of the source.
    End,
}

/// A byte source has failed to read or to seek.
#[derive(Debug, Clone, Copy, PartialEq, Eq, Structural)]
pub struct SourceError;

/// A source of bytes that can be read in order and moved to any offset.
///
/// The adapter relies on nothing that an implementation does: it checks what
/// comes back. The comments say what an implementation is meant to do.
pub trait ByteSource {
    /// Reads on from where the source stands until `limit` bytes are read or
    /// the source is at its end, moves forward by as much, and returns the
    /// bytes read. At the end of the source that is no byte at all, and no
    /// error.
    fn read_up_to(&mut self, limit: u64) -> Result<Vec<u8>, SourceError>;

    /// Moves the source to `target` and returns where it then stands, as an
    /// offset from the start.
    fn seek_to(&mut self, target: SeekTarget) -> Result<u64, SourceError>;
}

/// What to do about a request to read.
#[derive(Debug, Clone, Copy, PartialEq, Eq, Structural)]
pub enum ReadPlan {
    /// Answer at once with this number, and leave source and buffer alone.
    Answer(i64),
    /// Ask the source for up to this many bytes.
    Fetch(u64),
}

/// The plan for a request to read `size` bytes into a buffer of `room` bytes.
///
/// A request for no bytes is answered with 0. A request for a negative count
/// is answered with -1, and so is one for more bytes than the buffer holds:
/// such a count is refused, not cut down. Any other goes to the source, for
/// `size` bytes.
pub open spec fn spec_plan_read(size: i64, room: usize) -> ReadPlan {
    if size == 0 {
        ReadPlan::Answer(0)
    } else if size < 0 || size > room {
        ReadPlan::Answer(-1i64)
    } else {
        ReadPlan::Fetch(size as u64)
    }
}

/// Whether what the source replied to a read is taken: it has read, and no
/// more than was asked nor than the buffer holds.
pub open spec fn read_accepted(outcome: Result<Vec<u8>, SourceError>, size: i64, room: nat) -> bool {
    outcome matches Ok(bytes) && bytes@.len() <= size && bytes@.len() <= room
}

/// The answer to a request to read `size` bytes into a buffer of `room`
/// bytes, once the source has replied `outcome`: the count of bytes read where
/// the reply is taken, -1 otherwise.
pub open spec fn spec_read_code(outcome: Result<Vec<u8>, SourceError>, size: i64, room: nat) -> i64 {
    if read_accepted(outcome, size, room) {
        outcome->Ok_0@.len() as i64
    } else {
        -1i64
    }
}

/// The buffer after a request to read `size` bytes into it, once the source
/// has replied `outcome`: the bytes read stand at its front where the reply is
/// taken, and nothing has changed otherwise.
pub open spec fn spec_read_data(outcome: Result<Vec<u8>, SourceError>, size: i64, before: Seq<u8>) -> Seq<u8> {
    if read_accepted(outcome, size, before.len()) {
        outcome->Ok_0@ + before.skip(outcome->Ok_0@.len() as int)
    } else {
        before
    }
}

/// The target of a request to seek to `position`: that offset from the start,
/// or none where `position` is negative and so no offset at all.
pub open spec fn spec_plan_seek(position: i64) -> Option<SeekTarget> {
    if position >= 0 {
        Some(SeekTarget::Start(position as u64))
    } else {
        None
    }
}

/// The answer to a request to seek, once the source has replied `outcome`:
/// the position reached, or -1 where the source failed or the position does
/// not fit in a signed 64-bit number.
pub open spec fn spec_seek_code(outcome: Result<u64, SourceError>) -> i64 {
    match outcome {
        Ok(position) => if position <= i64::MAX {
            position as i64
        } else {
            -1i64
        },
        Err(_) => -1i64,
    }
}

/// The answer to a request for the current position, once the source has
/// replied `outcome`: the position, or nothing where the source failed or the
/// position does not fit in a signed 64-bit number. There is no number that
/// stands for such a failure: the caller has no answer to give.
pub open spec fn spec_tell_answer(outcome: Result<u64, SourceError>) -> Option<i64> {
    match outcome {
        Ok(position) => if position <= i64::MAX {
            Some(position as i64)
        } else {
            None
        },
        Err(_) => None,
    }
}

/// The answer to a request for the size of the source, once the source has
/// replied `located` to the question where it stands and `measured` to the
/// move to its end.
///
/// Where the source cannot say where it stands there is no answer, as for
/// [`spec_tell_answer`]. Otherwise the answer is what the move to the end gave,
/// as for [`spec_seek_code`]: the size, or -1 where none was to be had.
pub open spec fn spec_size_answer(
    located: Result<u64, SourceError>,
    measured: Result<u64, SourceError>,
) -> Option<i64> {
    match located {
        Ok(_) => Some(spec_seek_code(measured)),
        Err(_) => None,
    }
}

/// What a read may answer, and what it does to the buffer.
///
/// The answer is -1 or a count of bytes that is not negative and exceeds
/// neither `size` nor the buffer. A source at its end, which reads no byte,
/// gives the answer 0 and no error. A source that fails gives -1. The buffer
/// keeps its length, all of its bytes where the answer is -1, and those behind
/// the bytes read where it is a count.
pub proof fn lemma_read_reply(outcome: Result<Vec<u8>, SourceError>, size: i64, before: Seq<u8>)
    requires
        size > 0,
    ensures
        ({
            let code = spec_read_code(outcome, size, before.len());
            let after = spec_read_data(outcome, size, before);
            &&& code == -1 || 0 <= code <= size
            &&& code <= before.len()
            &&& after.len() == before.len()
            &&& outcome is Err ==> code == -1
            &&& code == -1 ==> after == before
            &&& (outcome is Ok && outcome->Ok_0@.len() == 0) ==> code == 0 && after == before
            &&& code >= 0 ==> outcome is Ok && after.take(code as int) == outcome->Ok_0@ && after.skip(
                code as int,
            ) == before.skip(code as int)
        }),
{
}

/// What a seek may answer: -1, or a position that is not negative. A source
/// that says where it has come to is believed wherever that position can be
/// written down.
pub proof fn lemma_seek_reply(outcome: Result<u64, SourceError>)
    ensures
        spec_seek_code(outcome) >= -1,
        outcome is Err ==> spec_seek_code(outcome) == -1,
        (outcome is Ok && outcome->Ok_0 <= i64::MAX) ==> spec_seek_code(outcome) == outcome->Ok_0,
        spec_tell_answer(outcome) is Some <==> spec_seek_code(outcome) >= 0,
        spec_tell_answer(outcome) matches Some(position) ==> position == spec_seek_code(outcome),
{
}

/// Says what to do about a request to read `size` bytes into a buffer of
/// `room` bytes.
pub fn plan_read(size: i64, room: usize) -> (plan: ReadPlan)
    ensures
        plan == spec_plan_read(size, room),
{
    if size == 0 {
        ReadPlan::Answer(0)
    } else if size < 0 {
        ReadPlan::Answer(-1)
    } else {
        let wanted: u64 = size as u64;
        if wanted <= room as u64 {
            ReadPlan::Fetch(wanted)
        } else {
            ReadPlan::Answer(-1)
        }
    }
}

/// Writes `bytes` over the front of `data`.
fn copy_to_front(bytes: &Vec<u8>, data: &mut [u8])
    requires
        bytes@.len() <= old(data)@.len(),
    ensures
        final(data)@ == bytes@ + old(data)@.skip(bytes@.len() as int),
{
    let count: usize = bytes.len();
    let mut done: usize = 0;
    while done < count
        invariant
            count == bytes@.len(),
            done <= count,
            data@.len() == old(data)@.len(),
            count <= data@.len(),
            data@ == bytes@.take(done as int) + old(data)@.skip(done as int),
        decreases count - done,
    {
        data[done] = bytes[done];
        done = done + 1;
    }
}

/// Ends a request to read `size` bytes into `data`, to which the source has
/// replied `outcome`.
///
/// Where the source has read no more than `size` bytes, nor more than `data`
/// holds, they are written over the front of `data` and their count is the
/// answer; a count less than `size` is in order, and 0 at the end of the
/// source. In every other case the answer is -1 and `data` is left as it was:
/// no part of a failed read is handed on.
pub fn finish_read(outcome: Result<Vec<u8>, SourceError>, size: i64, data: &mut [u8]) -> (code: i64)
    ensures
        code == spec_read_code(outcome, size, old(data)@.len()),
        final(data)@ == spec_read_data(outcome, size, old(data)@),
{
    match outcome {
        Ok(bytes) => {
            let count: usize = bytes.len();
            if size >= 0 && count as u64 <= size as u64 && count <= data.len() {
                copy_to_front(&bytes, data);
                count as i64
            } else {
                -1
            }
        },
        Err(_) => -1,
    }
}

/// Says where to send the source for a request to seek to `position`.
pub fn plan_seek(position: i64) -> (target: Option<SeekTarget>)
    ensures
        target == spec_plan_seek(position),
{
    if position >= 0 {
        Some(SeekTarget::Start(position as u64))
    } else {
        None
    }
}

/// Ends a request to seek, to which the source has replied `outcome`.
pub fn finish_seek(outcome: Result<u64, SourceError>) -> (code: i64)
    ensures
        code == spec_seek_code(outcome),
{
    match outcome {
        Ok(position) => if position <= 0x7fff_ffff_ffff_ffff {
            position as i64
        } else {
            -1
        },
        Err(_) => -1,
    }
}

/// Says where to send the source for a request for its current position:
/// nowhere. The source is asked where it stands, which moves it by nothing, and
/// it is asked for no byte.
pub fn plan_tell() -> (target: SeekTarget)
    ensures
        target == SeekTarget::Current,
{
    SeekTarget::Current
}

/// Ends a request for the current position, to which the source has replied
/// `outcome`.
pub fn finish_tell(outcome: Result<u64, SourceError>) -> (position: Option<i64>)
    ensures
        position == spec_tell_answer(outcome),
{
    match outcome {
        Ok(position) => if position <= 0x7fff_ffff_ffff_ffff {
            Some(position as i64)
        } else {
            None
        },
        Err(_) => None,
    }
}

/// How far a request for the size of the source has come.
///
/// The size is found in three moves: ask the source where it stands, send it
/// to its end, which gives the size, and send it back to where it stood. A
/// query starts as [`SizeQuery::Locating`]; [`SizeQuery::step`] says what it
/// wants, and [`SizeQuery::advance`] takes the reply of the source.
#[derive(Debug, Clone, Copy, PartialEq, Eq, Structural)]
pub enum SizeQuery {
    /// The source is to say where it stands.
    Locating,
    /// The source stood at `origin`, and is to go to its end.
    Measuring {
        /// Where the source stood when the query began.
        origin: u64,
    },
    /// The answer is known, and the source is to go back to `origin`.
    Restoring {
        /// Where the source stood when the query began.
        origin: u64,
        /// The size, or -1 where the source would not give one.
        found: i64,
    },
    /// The query is over.
    Finished {
        /// The size, -1 where the source would not give one, or nothing where
        /// it could not even say where it stood.
        answer: Option<i64>,
    },
}

/// What a request for the size of the source wants next.
#[derive(Debug, Clone, Copy, PartialEq, Eq, Structural)]
pub enum SizeStep {
    /// The source is to go there, and its reply is awaited.
    Ask(SeekTarget),
    /// The query is over, with this answer.
    Return(Option<i64>),
}

impl SizeQuery {
    /// What the query wants next.
    pub open spec fn spec_step(self) -> SizeStep {
        match self {
            SizeQuery::Locating => SizeStep::Ask(SeekTarget::Current),
            SizeQuery::Measuring { origin } => SizeStep::Ask(SeekTarget::End),
            SizeQuery::Restoring { origin, found } => SizeStep::Ask(SeekTarget::Start(origin)),
            SizeQuery::Finished { answer } => SizeStep::Return(answer),
        }
    }

    /// The query once the source has replied `reply` to what it wanted.
    ///
    /// A source that cannot say where it stands ends the query without an
    /// answer. A source that cannot go to its end gives -1 for an answer, and
    /// is sent back all the same. Whether it then gets back or not, the answer
    /// stands. A query that is over stays as it is.
    pub open spec fn spec_advance(self, reply: Result<u64, SourceError>) -> SizeQuery {
        match self {
            SizeQuery::Locating => match reply {
                Ok(origin) => SizeQuery::Measuring { origin },
                Err(_) => SizeQuery::Finished { answer: None },
            },
            SizeQuery::Measuring { origin } => SizeQuery::Restoring {
                origin,
                found: spec_seek_code(reply),
            },
            SizeQuery::Restoring { origin, found } => SizeQuery::Finished { answer: Some(found) },
            SizeQuery::Finished { answer } => self,
        }
    }

    /// The number of replies that the query may still take before it is over.
    pub open spec fn moves_left(self) -> nat {
        match self {
            SizeQuery::Locating => 3,
            SizeQuery::Measuring { origin } => 2,
            SizeQuery::Restoring { origin, found } => 1,
            SizeQuery::Finished { answer } => 0,
        }
    }

    /// A new query: nothing has been asked yet.
    pub fn begin() -> (query: SizeQuery)
        ensures
            query == SizeQuery::Locating,
    {
        SizeQuery::Locating
    }

    /// Says what the query wants next: a move of the source, or to return.
    pub fn step(&self) -> (step: SizeStep)
        ensures
            step == self.spec_step(),
    {
        match self {
            SizeQuery::Locating => SizeStep::Ask(SeekTarget::Current),
            SizeQuery::Measuring { origin: _ } => SizeStep::Ask(SeekTarget::End),
            SizeQuery::Restoring { origin, found: _ } => SizeStep::Ask(SeekTarget::Start(*origin)),
            SizeQuery::Finished { answer } => SizeStep::Return(*answer),
        }
    }

    /// Takes the reply of the source to what the query wanted.
    pub fn advance(self, reply: Result<u64, SourceError>) -> (query: SizeQuery)
        ensures
            query == self.spec_advance(reply),
    {
        match self {
            SizeQuery::Locating => match reply {
                Ok(origin) => SizeQuery::Measuring { origin },
                Err(_) => SizeQuery::Finished { answer: None },
            },
            SizeQuery::Measuring { origin } => SizeQuery::Restoring {
                origin,
                found: finish_seek(reply),
            },
            SizeQuery::Restoring { origin: _, found } => SizeQuery::Finished { answer: Some(found) },
            SizeQuery::Finished { answer } => SizeQuery::Finished { answer },
        }
    }

    /// Every reply but one that finds the query over brings it one move nearer
    /// to its end, so that no query takes more than three replies.
    pub proof fn lemma_advance_moves_on(self, reply: Result<u64, SourceError>)
        ensures
            self.moves_left() <= 3,
            self.moves_left() > 0 ==> self.spec_advance(reply).moves_left() < self.moves_left(),
            self.moves_left() == 0 <==> self.spec_step() is Return,
            self.moves_left() == 0 ==> self.spec_advance(reply) == self,
    {
    }

    /// The whole course of a query whose source can say where it stands.
    ///
    /// It asks where the source stands, sends it to its end, then sends it
    /// back to the very offset that the first reply gave, and returns what
    /// [`spec_size_answer`] says, whatever the source replies to that last
    /// move.
    pub proof fn lemma_course(origin: u64, measured: Result<u64, SourceError>, restored: Result<u64, SourceError>)
        ensures
            ({
                let first = SizeQuery::Locating;
                let second = first.spec_advance(Ok(origin));
                let third = second.spec_advance(measured);
                let last = third.spec_advance(restored);
                &&& first.spec_step() == SizeStep::Ask(SeekTarget::Current)
                &&& second.spec_step() == SizeStep::Ask(SeekTarget::End)
                &&& third.spec_step() == SizeStep::Ask(SeekTarget::Start(origin))
                &&& last.spec_step() == SizeStep::Return(spec_size_answer(Ok(origin), measured))
            }),
    {
    }

    /// The whole course of a query whose source cannot say where it stands:
    /// it ends at once, without an answer, and the source is not moved.
    pub proof fn lemma_course_without_origin(located: Result<u64, SourceError>, measured: Result<u64, SourceError>)
        requires
            located is Err,
        ensures
            SizeQuery::Locating.spec_advance(located).spec_step() == SizeStep::Return(None),
            spec_size_answer(located, measured) == None::<i64>,
    {
    }
}

/// Reads up to `size` bytes from `source` into `data`, and returns the count
/// of bytes read, or -1.
///
/// * For a `size` of 0 the answer is 0, and neither the source nor `data` is
///   touched.
/// * For a negative `size`, and for one beyond the length of `data`, the
///   answer is -1, and neither is touched.
/// * Otherwise the source is asked once, for `size` bytes, and the answer is
///   what [`finish_read`] makes of its reply: the bytes read stand at the front
///   of `data` and their count is returned, or `data` is as it was and -1 is
///   returned.
pub fn read<S: ByteSource>(source: &mut S, data: &mut [u8], size: i64) -> (code: i64)
    ensures
        size == 0 ==> code == 0 && final(data)@ == old(data)@,
        size < 0 || size > old(data)@.len() ==> code == -1 && final(data)@ == old(data)@,
        size <= 0 || size > old(data)@.len() ==> *final(source) == *old(source),
        0 < size <= old(data)@.len() ==> exists|outcome: Result<Vec<u8>, SourceError>|
            code == #[trigger] spec_read_code(outcome, size, old(data)@.len()) && final(data)@
                == spec_read_data(outcome, size, old(data)@),
        code == -1 || 0 <= code <= size,
        code <= old(data)@.len(),
        final(data)@.len() == old(data)@.len(),
        code == -1 ==> final(data)@ == old(data)@,
        code >= 0 ==> final(data)@.skip(code as int) == old(data)@.skip(code as int),
{
    match plan_read(size, data.len()) {
        ReadPlan::Answer(code) => code,
        ReadPlan::Fetch(limit) => {
            let outcome = source.read_up_to(limit);
            finish_read(outcome, size, data)
        },
    }
}

/// Moves `source` to the offset `position` from its start, and returns the
/// position reached, or -1.
///
/// A negative `position` is no offset: the answer is -1 and the source is not
/// touched. Otherwise the source is asked once, and the answer is what
/// [`finish_seek`] makes of its reply. A position past the end is asked for like
/// any other: whether it can be reached is for the source to say.
pub fn seek<S: ByteSource>(source: &mut S, position: i64) -> (code: i64)
    ensures
        position < 0 ==> code == -1 && *final(source) == *old(source),
        position >= 0 ==> exists|outcome: Result<u64, SourceError>| code == #[trigger] spec_seek_code(outcome),
        code >= -1,
{
    match plan_seek(position) {
        Some(target) => {
            let outcome = source.seek_to(target);
            finish_seek(outcome)
        },
        None => -1,
    }
}

/// Returns the offset from its start at which `source` stands, or nothing
/// where that cannot be had: the source is asked once, for what [`plan_tell`]
/// says, which is where it stands, and the answer is what [`finish_tell`] makes
/// of its reply.
pub fn tell<S: ByteSource>(source: &mut S) -> (position: Option<i64>)
    ensures
        exists|outcome: Result<u64, SourceError>| position == #[trigger] spec_tell_answer(outcome),
        position matches Some(offset) ==> offset >= 0,
{
    let outcome = source.seek_to(plan_tell());
    finish_tell(outcome)
}

/// Returns the size of `source` in bytes, -1 where the source would not give
/// it, or nothing where the source cannot even say where it stands.
///
/// The source is taken through a [`SizeQuery`]: it is asked where it stands,
/// sent to its end, and sent back to where it stood.
pub fn get_size<S: ByteSource>(source: &mut S) -> (size: Option<i64>)
    ensures
        exists|located: Result<u64, SourceError>, measured: Result<u64, SourceError>|
            size == #[trigger] spec_size_answer(located, measured),
        size matches Some(bytes) ==> bytes >= -1,
{
    let mut query = SizeQuery::begin();
    let ghost mut located: Result<u64, SourceError> = Err(SourceError);
    let ghost mut measured: Result<u64, SourceError> = Err(SourceError);
    loop
        invariant
            match query {
                SizeQuery::Locating => true,
                SizeQuery::Measuring { origin } => located is Ok,
                SizeQuery::Restoring { origin, found } => located is Ok && found == spec_seek_code(
                    measured,
                ),
                SizeQuery::Finished { answer } => answer == spec_size_answer(located, measured),
            },
        decreases query.moves_left(),
    {
        match query.step() {
            SizeStep::Ask(target) => {
                let reply = source.seek_to(target);
                proof {
                    if query is Locating {
                        located = reply;
                    } else if query is Measuring {
                        measured = reply;
                    }
                }
                query = query.advance(reply);
            },
            SizeStep::Return(answer) => {
                return answer;
            },
        }
    }
}

/// Source for streaming data to a foreign consumer: a byte source borrowed for
/// as long as the consumer may call, offered as the operations `read`, `seek`,
/// `tell` and `get_size`.
#[derive(Debug)]
pub struct InputStream<'a, T> {
    source: &'a mut T,
}

impl<'a, T: ByteSource> InputStream<'a, T> {
    /// The byte source behind the adapter, as it stands.
    pub closed spec fn source(self) -> T {
        *self.source
    }

    /// Create a new `InputStream` from a source of bytes.
    pub fn new(source: &'a mut T) -> (stream: Self)
        ensures
            stream.source() == *old(source),
    {
        InputStream { source }
    }

    /// Reads up to `size` bytes into `data`, as [`read`] does.
    pub fn read(&mut self, data: &mut [u8], size: i64) -> (code: i64)
        ensures
            size == 0 ==> code == 0 && final(data)@ == old(data)@,
            size < 0 || size > old(data)@.len() ==> code == -1 && final(data)@ == old(data)@,
            size <= 0 || size > old(data)@.len() ==> final(self).source() == old(self).source(),
            0 < size <= old(data)@.len() ==> exists|outcome: Result<Vec<u8>, SourceError>|
                code == #[trigger] spec_read_code(outcome, size, old(data)@.len()) && final(data)@
                    == spec_read_data(outcome, size, old(data)@),
            code == -1 || 0 <= code <= size,
            code <= old(data)@.len(),
            final(data)@.len() == old(data)@.len(),
            code == -1 ==> final(data)@ == old(data)@,
            code >= 0 ==> final(data)@.skip(code as int) == old(data)@.skip(code as int),
    {
        read(self.source, data, size)
    }

    /// Moves to the offset `position` from the start, as [`seek`] does.
    pub fn seek(&mut self, position: i64) -> (code: i64)
        ensures
            position < 0 ==> code == -1 && final(self).source() == old(self).source(),
            position >= 0 ==> exists|outcome: Result<u64, SourceError>| code == #[trigger] spec_seek_code(outcome),
            code >= -1,
    {
        seek(self.source, position)
    }

    /// Returns the current offset from the start, as [`tell`] does.
    pub fn tell(&mut self) -> (position: Option<i64>)
        ensures
            exists|outcome: Result<u64, SourceError>| position == #[trigger] spec_tell_answer(outcome),
            position matches Some(offset) ==> offset >= 0,
    {
        tell(self.source)
    }

    /// Returns the size of the source, as [`get_size`] does.
    pub fn get_size(&mut self) -> (size: Option<i64>)
        ensures
            exists|located: Result<u64, SourceError>, measured: Result<u64, SourceError>|
                size == #[trigger] spec_size_answer(located, measured),
            size matches Some(bytes) ==> bytes >= -1,
    {
        get_size(self.source)
    }
}

} // verus!
