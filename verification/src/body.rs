//! The payload of a request, whatever it is read from.

use crate::private::Private;
use std::io::Read;
use vstd::prelude::*;

verus! {

/// `std::io::Stdin`, the handle to the standard input of the process.
#[verifier::external_type_specification]
#[verifier::external_body]
pub struct ExStdin(std::io::Stdin);

/// `http::Response`, a response with a body of the type `T`.
#[verifier::external_type_specification]
#[verifier::external_body]
#[verifier::reject_recursive_types(T)]
pub struct ExResponse<T>(http::Response<T>);

/// `http::Response::body_mut` hands out the body that the response holds.
pub assume_specification<T>[ http::Response::<T>::body_mut ](response: &mut http::Response<T>) -> (body: &mut T);

/// A readable device of any type, lent or owned, boxed as a
/// `dyn std::io::Read`. Verus does not look into a trait object, so
/// the struct is opaque to it: what the device will yield is known only by
/// reading it.
#[verifier::external_body]
pub(crate) struct Stream<'a> {
    inner: Box<dyn Read + 'a>,
}

/// Puts a readable device behind one type with `Box::new`. Nothing is read
/// from it.
#[verifier::external_body]
fn stream_of<'a, R: Read + 'a>(reader: R) -> (stream: Stream<'a>) {
    Stream { inner: Box::new(reader) }
}

/// Calls `std::io::Read::read` on the device, once. The buffer keeps its
/// length; what the call reports is handed on as it came.
#[verifier::external_body]
fn read_stream(stream: &mut Stream<'_>, buf: &mut [u8]) -> (outcome: Result<usize, std::io::Error>)
    ensures
        final(buf)@.len() == old(buf)@.len(),
{
    stream.inner.read(buf)
}

/// Where the bytes of a body come from.
pub enum Source {
    /// A byte buffer of the caller. It holds the bytes that are not read yet.
    Bytes(Seq<u8>),
    /// A readable device that the caller lent for the time of the call.
    BorrowedStream,
    /// A readable device that the body owns.
    OwnedStream,
}

/// What a body is at one moment: its source and whether it is exhausted.
pub struct BodyState {
    pub source: Source,
    pub ended: bool,
}

/// The body as it is made: nothing read, not exhausted.
pub open spec fn fresh(source: Source) -> BodyState {
    BodyState { source, ended: false }
}

/// The number of bytes that one read hands out of a byte buffer: all that is
/// left, or as many as the caller's buffer has room for.
pub open spec fn chunk_len(left: Seq<u8>, room: nat) -> nat {
    if left.len() <= room {
        left.len()
    } else {
        room
    }
}

/// Whether a device has shown itself exhausted by what it reported for a
/// buffer with room for `room` bytes: it has when it had no byte for a
/// buffer that could take one. A failure is no end, and a buffer without
/// room learns nothing.
pub open spec fn shows_end(outcome: Result<usize, std::io::Error>, room: nat) -> bool {
    outcome matches Ok(count) && count == 0 && room > 0
}

impl BodyState {
    /// The bytes that one read of a byte buffer hands out, into a buffer
    /// with room for `room` bytes: the next ones, in order. Of a device
    /// nothing is known before it is read, so none are named here.
    pub open spec fn chunk(self, room: nat) -> Seq<u8> {
        match self.source {
            Source::Bytes(left) => left.take(chunk_len(left, room) as int),
            _ => Seq::empty(),
        }
    }

    /// The state of a body over a byte buffer after that read: the bytes
    /// handed out are gone, and the body is marked exhausted if the read
    /// found nothing left.
    pub open spec fn after_read(self, room: nat) -> BodyState {
        match self.source {
            Source::Bytes(left) => BodyState {
                source: Source::Bytes(left.skip(chunk_len(left, room) as int)),
                ended: self.ended || left.len() == 0,
            },
            _ => self,
        }
    }

    /// The state after reads into buffers with room for `rooms`, in turn.
    pub open spec fn after_reads(self, rooms: Seq<nat>) -> BodyState
        decreases rooms.len(),
    {
        if rooms.len() == 0 {
            self
        } else {
            self.after_reads(rooms.drop_last()).after_read(rooms.last())
        }
    }

    /// All the bytes that those reads hand out, in the order of the reads.
    pub open spec fn chunks(self, rooms: Seq<nat>) -> Seq<u8>
        decreases rooms.len(),
    {
        if rooms.len() == 0 {
            Seq::empty()
        } else {
            self.chunks(rooms.drop_last()) + self.after_reads(rooms.drop_last()).chunk(
                rooms.last(),
            )
        }
    }
}

/// Reading a body made of a byte buffer gives back the bytes of the buffer,
/// each once and in order: after any number of reads, what was handed out
/// followed by what is left is the buffer. The body is marked exhausted by
/// the first read that starts with nothing left, and by no read before it.
pub proof fn lemma_reads_give_the_bytes(data: Seq<u8>, rooms: Seq<nat>)
    ensures
        fresh(Source::Bytes(data)).after_reads(rooms).source is Bytes,
        fresh(Source::Bytes(data)).chunks(rooms) + fresh(Source::Bytes(data)).after_reads(
            rooms,
        ).source->Bytes_0 == data,
        fresh(Source::Bytes(data)).after_reads(rooms).ended <==> exists|i: int|
            0 <= i < rooms.len() && #[trigger] fresh(Source::Bytes(data)).chunks(rooms.take(i))
                == data,
    decreases rooms.len(),
{
    let start = fresh(Source::Bytes(data));
    if rooms.len() == 0 {
        assert(start.chunks(rooms) + data =~= data);
    } else {
        let earlier = rooms.drop_last();
        lemma_reads_give_the_bytes(data, earlier);
        let before = start.after_reads(earlier);
        let left = before.source->Bytes_0;
        let n = chunk_len(left, rooms.last()) as int;
        assert(start.chunks(rooms) + left.skip(n) =~= start.chunks(earlier) + left);
        assert(rooms.take(earlier.len() as int) =~= earlier);
        assert forall|i: int| 0 <= i < earlier.len() implies #[trigger] rooms.take(i)
            == earlier.take(i) by {
            assert(rooms.take(i) =~= earlier.take(i));
        }
        if start.after_reads(rooms).ended {
            if before.ended {
                let i = choose|i: int|
                    0 <= i < earlier.len() && #[trigger] start.chunks(earlier.take(i)) == data;
                assert(start.chunks(rooms.take(i)) == data);
            } else {
                assert(start.chunks(earlier) =~= data);
                assert(start.chunks(rooms.take(earlier.len() as int)) == data);
            }
        }
        if exists|i: int| 0 <= i < rooms.len() && #[trigger] start.chunks(rooms.take(i)) == data {
            let i = choose|i: int|
                0 <= i < rooms.len() && #[trigger] start.chunks(rooms.take(i)) == data;
            if i < earlier.len() {
                assert(start.chunks(earlier.take(i)) == data);
            } else {
                assert(left.len() == 0);
            }
        }
    }
}

/// The empty body hands out no byte, and its first read marks it exhausted,
/// whatever room the buffer has.
pub proof fn lemma_empty_body_ends_at_once(room: nat)
    ensures
        fresh(Source::Bytes(Seq::empty())).chunk(room) == Seq::<u8>::empty(),
        fresh(Source::Bytes(Seq::empty())).after_read(room).ended,
{
}

/// The source of a body.
pub(crate) enum BodyInner<'a> {
    /// What is left of a byte buffer of the caller.
    ByteSlice(&'a [u8]),
    /// A device that the caller lent.
    Reader(Stream<'a>),
    /// A device that the body owns.
    OwnedReader(Stream<'static>),
}

impl<'a> BodyInner<'a> {
    pub(crate) open spec fn source(&self) -> Source {
        match self {
            BodyInner::ByteSlice(bytes) => Source::Bytes(bytes@),
            BodyInner::Reader(_) => Source::BorrowedStream,
            BodyInner::OwnedReader(_) => Source::OwnedStream,
        }
    }
}

/// The payload of a request: a source to read from, and a mark that is set
/// once the source is exhausted and never cleared.
pub struct Body<'a> {
    inner: BodyInner<'a>,
    ended: bool,
}

impl<'a> View for Body<'a> {
    type V = BodyState;

    closed spec fn view(&self) -> BodyState {
        BodyState { source: self.inner.source(), ended: self.ended }
    }
}

impl<'a> Body<'a> {
    /// The body without content.
    pub fn empty() -> (body: Body<'static>)
        ensures
            body@ == fresh(Source::Bytes(Seq::empty())),
    {
        let bytes: &'static [u8] = &[];
        assert(bytes@ =~= Seq::<u8>::empty());
        Body::from(BodyInner::ByteSlice(bytes))
    }

    /// A body that reads from a device of the caller.
    pub fn from_reader<R: Read + ?Sized>(reader: &'a mut R) -> (body: Body<'a>)
        ensures
            body@ == fresh(Source::BorrowedStream),
    {
        Body::from(BodyInner::Reader(stream_of(reader)))
    }

    /// A body that takes a device over and reads from it.
    pub fn from_owned_reader(reader: impl Read + 'static) -> (body: Body<'static>)
        ensures
            body@ == fresh(Source::OwnedStream),
    {
        Body::from(BodyInner::OwnedReader(stream_of(reader)))
    }

    /// Whether the source has been found exhausted.
    pub fn is_ended(&self) -> (ended: bool)
        ensures
            ended == self@.ended,
    {
        self.ended
    }

    /// The number of bytes still to come, where the source knows it: a byte
    /// buffer does, a device does not.
    pub fn known_len(&self) -> (len: Option<usize>)
        ensures
            match self@.source {
                Source::Bytes(left) => len == Some(left.len() as usize),
                _ => len is None,
            },
    {
        match &self.inner {
            BodyInner::ByteSlice(bytes) => Some(bytes.len()),
            _ => None,
        }
    }

    /// Whether what a device reported for a buffer with room for `room`
    /// bytes shows that it is exhausted.
    pub fn found_end(outcome: &Result<usize, std::io::Error>, room: usize) -> (ends: bool)
        ensures
            ends == shows_end(*outcome, room as nat),
    {
        match outcome {
            Ok(count) => *count == 0 && room > 0,
            Err(_) => false,
        }
    }

    /// Reads the next bytes of the body into `buf` and tells how many came.
    ///
    /// A byte buffer hands out its next bytes in order, as many as `buf`
    /// takes, and is marked exhausted by the read that finds nothing left.
    /// A device is asked once; it is marked exhausted when it has nothing
    /// for a buffer that has room. An exhausted device is not asked again.
    pub fn read(&mut self, buf: &mut [u8]) -> (outcome: Result<usize, std::io::Error>)
        ensures
            final(buf)@.len() == old(buf)@.len(),
            old(self)@.ended ==> final(self)@.ended,
            match old(self)@.source {
                Source::Bytes(_) => {
                    let chunk = old(self)@.chunk(old(buf)@.len());
                    &&& outcome matches Ok(count) && count == chunk.len()
                    &&& final(buf)@ == chunk + old(buf)@.skip(chunk.len() as int)
                    &&& final(self)@ == old(self)@.after_read(old(buf)@.len())
                },
                _ => {
                    &&& final(self)@.source == old(self)@.source
                    &&& old(self)@.ended ==> {
                        &&& outcome matches Ok(count) && count == 0
                        &&& final(self)@.ended
                        &&& final(buf)@ == old(buf)@
                    }
                    &&& !old(self)@.ended ==> final(self)@.ended == shows_end(
                        outcome,
                        old(buf)@.len(),
                    )
                },
            },
    {
        let room = buf.len();
        let was_ended = self.ended;
        let (outcome, ends) = match &mut self.inner {
            BodyInner::ByteSlice(bytes) => {
                let n = if bytes.len() <= room {
                    bytes.len()
                } else {
                    room
                };
                let mut i: usize = 0;
                while i < n
                    invariant
                        i <= n,
                        n <= bytes@.len(),
                        n <= buf@.len(),
                        buf@.len() == old(buf)@.len(),
                        buf@ == bytes@.take(i as int) + old(buf)@.skip(i as int),
                    decreases n - i,
                {
                    buf[i] = bytes[i];
                    i += 1;
                }
                let ends = bytes.len() == 0;
                *bytes = &bytes[n..bytes.len()];
                (Ok(n), ends)
            },
            BodyInner::Reader(stream) => {
                if was_ended {
                    (Ok(0), true)
                } else {
                    let outcome = read_stream(stream, buf);
                    let ends = Body::found_end(&outcome, room);
                    (outcome, ends)
                }
            },
            BodyInner::OwnedReader(stream) => {
                if was_ended {
                    (Ok(0), true)
                } else {
                    let outcome = read_stream(stream, buf);
                    let ends = Body::found_end(&outcome, room);
                    (outcome, ends)
                }
            },
        };
        if ends {
            self.ended = true;
        }
        outcome
    }
}

/// A source becomes a body of which nothing is read yet.
impl<'a> From<BodyInner<'a>> for Body<'a> {
    fn from(inner: BodyInner<'a>) -> (body: Body<'a>) {
        Body { inner, ended: false }
    }
}

impl<'a> vstd::std_specs::convert::FromSpecImpl<BodyInner<'a>> for Body<'a> {
    open spec fn obeys_from_spec() -> bool {
        true
    }

    closed spec fn from_spec(inner: BodyInner<'a>) -> Body<'a> {
        Body { inner, ended: false }
    }
}

/// The place of a response body that is on its way in and is to be sent on
/// as the payload of another request. It holds no bytes of its own.
pub struct RecvBody;

impl RecvBody {
    /// Reads from the placeholder, which has nothing to give: `buf` is left
    /// as it is and the end of the stream is reported.
    pub fn read(&mut self, buf: &mut [u8]) -> (outcome: Result<usize, std::io::Error>)
        ensures
            outcome matches Ok(count) && count == 0,
            final(buf)@ == old(buf)@,
    {
        Ok(0)
    }
}

/// The placeholder as a device of the standard kind: it reads as
/// [`RecvBody::read`] does.
impl Read for RecvBody {
    fn read(&mut self, buf: &mut [u8]) -> (outcome: Result<usize, std::io::Error>)
        ensures
            outcome matches Ok(count) && count == 0,
            final(buf)@ == old(buf)@,
    {
        RecvBody::read(self, buf)
    }
}

/// The values that can be sent as the payload of a request.
///
/// Only this crate implements it, so every conversion to a [`Body`] is one
/// of those below.
pub trait AsBody: Private {
    /// Where a body made of this value takes its bytes from.
    spec fn payload(&self) -> Source;

    /// The value as a body, with nothing read from it yet.
    fn as_body(&mut self) -> (body: Body<'_>)
        ensures
            body@ == fresh(old(self).payload()),
            final(self).payload() == old(self).payload(),
    ;
}

impl Private for &[u8] {

}

impl AsBody for &[u8] {
    open spec fn payload(&self) -> Source {
        Source::Bytes(self@)
    }

    fn as_body(&mut self) -> (body: Body<'_>) {
        Body::from(BodyInner::ByteSlice(*self))
    }
}

impl Private for &str {

}

impl AsBody for &str {
    open spec fn payload(&self) -> Source {
        Source::Bytes(vstd::utf8::encode_utf8(self@))
    }

    fn as_body(&mut self) -> (body: Body<'_>) {
        Body::from(BodyInner::ByteSlice(self.as_bytes()))
    }
}

impl Private for String {

}

impl AsBody for String {
    open spec fn payload(&self) -> Source {
        Source::Bytes(vstd::utf8::encode_utf8(self@))
    }

    fn as_body(&mut self) -> (body: Body<'_>) {
        Body::from(BodyInner::ByteSlice(self.as_str().as_bytes()))
    }
}

impl Private for Vec<u8> {

}

impl AsBody for Vec<u8> {
    open spec fn payload(&self) -> Source {
        Source::Bytes(self@)
    }

    fn as_body(&mut self) -> (body: Body<'_>) {
        Body::from(BodyInner::ByteSlice(self.as_slice()))
    }
}

impl Private for &String {

}

impl AsBody for &String {
    open spec fn payload(&self) -> Source {
        Source::Bytes(vstd::utf8::encode_utf8(self@))
    }

    fn as_body(&mut self) -> (body: Body<'_>) {
        Body::from(BodyInner::ByteSlice(self.as_str().as_bytes()))
    }
}

impl Private for &Vec<u8> {

}

impl AsBody for &Vec<u8> {
    open spec fn payload(&self) -> Source {
        Source::Bytes(self@)
    }

    fn as_body(&mut self) -> (body: Body<'_>) {
        Body::from(BodyInner::ByteSlice(self.as_slice()))
    }
}

/// The body as a device of the standard kind: it reads as [`Body::read`]
/// does.
impl<'a> Read for Body<'a> {
    fn read(&mut self, buf: &mut [u8]) -> (outcome: Result<usize, std::io::Error>)
        ensures
            final(buf)@.len() == old(buf)@.len(),
            old(self)@.ended ==> final(self)@.ended,
            match old(self)@.source {
                Source::Bytes(_) => {
                    let chunk = old(self)@.chunk(old(buf)@.len());
                    &&& outcome matches Ok(count) && count == chunk.len()
                    &&& final(buf)@ == chunk + old(buf)@.skip(chunk.len() as int)
                    &&& final(self)@ == old(self)@.after_read(old(buf)@.len())
                },
                _ => {
                    &&& final(self)@.source == old(self)@.source
                    &&& old(self)@.ended ==> {
                        &&& outcome matches Ok(count) && count == 0
                        &&& final(self)@.ended
                        &&& final(buf)@ == old(buf)@
                    }
                    &&& !old(self)@.ended ==> final(self)@.ended == shows_end(
                        outcome,
                        old(buf)@.len(),
                    )
                },
            },
    {
        Body::read(self, buf)
    }
}

impl<'a> Private for Body<'a> {

}

/// A body is sent by reading it: this is the way to send what
/// [`Body::from_reader`] and [`Body::from_owned_reader`] make of a file, a
/// socket or any other device.
impl<'a> AsBody for Body<'a> {
    open spec fn payload(&self) -> Source {
        Source::BorrowedStream
    }

    fn as_body(&mut self) -> (body: Body<'_>) {
        Body::from_reader(self)
    }
}

impl Private for std::io::Stdin {

}

impl AsBody for std::io::Stdin {
    open spec fn payload(&self) -> Source {
        Source::BorrowedStream
    }

    fn as_body(&mut self) -> (body: Body<'_>) {
        Body::from_reader(self)
    }
}

impl Private for &std::io::Stdin {

}

impl AsBody for &std::io::Stdin {
    open spec fn payload(&self) -> Source {
        Source::BorrowedStream
    }

    fn as_body(&mut self) -> (body: Body<'_>) {
        Body::from_reader(self)
    }
}

impl Private for RecvBody {

}

impl AsBody for RecvBody {
    open spec fn payload(&self) -> Source {
        Source::BorrowedStream
    }

    fn as_body(&mut self) -> (body: Body<'_>) {
        Body::from_reader(self)
    }
}

impl Private for http::Response<RecvBody> {

}

impl AsBody for http::Response<RecvBody> {
    open spec fn payload(&self) -> Source {
        Source::BorrowedStream
    }

    fn as_body(&mut self) -> (body: Body<'_>) {
        Body::from_reader(self.body_mut())
    }
}

} // verus!
