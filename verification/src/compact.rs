//! The compact serialization: segments of unpadded base64url text, joined by
//! dots. A segment's place in the sequence is what gives it its meaning, so
//! nothing here reorders or merges segments.

use crate::base64url;
use crate::errors::{Error, TokenError};
use vstd::prelude::*;
use vstd::slice::slice_to_vec;
use vstd::string::StringSliceAdditionalSpecFns;

verus! {

/// The ASCII code of the dot that separates segments.
pub const DOT: u8 = 46;

/// The segments joined by dots, as on the wire.
pub open spec fn join(parts: Seq<Seq<u8>>) -> Seq<u8>
    decreases parts.len(),
{
    if parts.len() == 0 {
        Seq::empty()
    } else if parts.len() == 1 {
        parts[0]
    } else {
        join(parts.drop_last()) + seq![DOT] + parts.last()
    }
}

/// The segments of a wire text: what stands between its dots, and before the
/// first and after the last. Empty segments stay, so a text with `n` dots has
/// `n + 1` segments.
pub open spec fn split(wire: Seq<u8>) -> Seq<Seq<u8>>
    decreases wire.len(),
{
    if wire.len() == 0 {
        seq![Seq::empty()]
    } else {
        let front = split(wire.drop_last());
        if wire.last() == DOT {
            front.push(Seq::empty())
        } else {
            front.update(front.len() - 1, front.last().push(wire.last()))
        }
    }
}

/// Whether `part` holds no dot.
pub open spec fn dotless(part: Seq<u8>) -> bool {
    forall|i: int| 0 <= i < part.len() ==> part[i] != DOT
}

/// The number of dots in `wire`.
pub open spec fn count_dots(wire: Seq<u8>) -> nat
    decreases wire.len(),
{
    if wire.len() == 0 {
        0
    } else {
        count_dots(wire.drop_last()) + if wire.last() == DOT {
            1nat
        } else {
            0nat
        }
    }
}

/// A wire text has one segment more than it has dots, and no segment holds a
/// dot.
pub proof fn lemma_split_shape(wire: Seq<u8>)
    ensures
        split(wire).len() == count_dots(wire) + 1,
        forall|i: int| 0 <= i < split(wire).len() ==> dotless(#[trigger] split(wire)[i]),
    decreases wire.len(),
{
    if wire.len() > 0 {
        lemma_split_shape(wire.drop_last());
    }
}

/// Joining the segments of a wire text gives the text back.
pub proof fn lemma_join_split(wire: Seq<u8>)
    ensures
        join(split(wire)) == wire,
    decreases wire.len(),
{
    if wire.len() == 0 {
        assert(join(split(wire)) =~= wire);
    } else {
        let shorter = wire.drop_last();
        let front = split(shorter);
        lemma_split_shape(shorter);
        lemma_join_split(shorter);
        if wire.last() == DOT {
            let parts = front.push(Seq::empty());
            assert(parts.drop_last() =~= front);
            assert(join(parts) =~= shorter + seq![DOT]);
            assert(shorter + seq![DOT] =~= wire);
        } else {
            let longer = front.last().push(wire.last());
            let parts = front.update(front.len() - 1, longer);
            if front.len() == 1 {
                assert(join(front) == front[0]);
                assert(join(parts) =~= shorter.push(wire.last()));
            } else {
                assert(parts.drop_last() =~= front.drop_last());
                assert(join(parts) =~= join(front.drop_last()) + seq![DOT] + longer);
                assert(join(front) == join(front.drop_last()) + seq![DOT] + front.last());
                assert(join(parts) =~= shorter.push(wire.last()));
            }
            assert(shorter.push(wire.last()) =~= wire);
        }
    }
}

/// Appending dotless text to a wire text appends it to the last segment.
proof fn lemma_split_append(wire: Seq<u8>, tail: Seq<u8>)
    requires
        dotless(tail),
    ensures
        split(wire + tail) == split(wire).update(
            split(wire).len() - 1,
            split(wire).last() + tail,
        ),
    decreases tail.len(),
{
    lemma_split_shape(wire);
    if tail.len() == 0 {
        assert(wire + tail =~= wire);
        assert(split(wire).last() + tail =~= split(wire).last());
        assert(split(wire).update(split(wire).len() - 1, split(wire).last()) =~= split(wire));
    } else {
        let shorter = tail.drop_last();
        lemma_split_append(wire, shorter);
        lemma_split_shape(wire + shorter);
        assert((wire + tail).drop_last() =~= wire + shorter);
        assert((wire + tail).last() == tail.last());
        assert(tail[tail.len() - 1] != DOT);
        assert((split(wire).last() + shorter).push(tail.last()) =~= split(wire).last() + tail);
        assert(split(wire + tail) =~= split(wire).update(
            split(wire).len() - 1,
            split(wire).last() + tail,
        ));
    }
}

/// Splitting the join of dotless segments, of which there is at least one,
/// gives the segments back.
pub proof fn lemma_split_join(parts: Seq<Seq<u8>>)
    requires
        parts.len() >= 1,
        forall|i: int| 0 <= i < parts.len() ==> dotless(#[trigger] parts[i]),
    ensures
        split(join(parts)) == parts,
    decreases parts.len(),
{
    let empty = Seq::<u8>::empty();
    if parts.len() == 1 {
        lemma_split_append(empty, parts[0]);
        assert(empty + parts[0] =~= parts[0]);
        assert(split(empty) =~= seq![empty]);
        assert(split(parts[0]) =~= parts);
    } else {
        let front = parts.drop_last();
        lemma_split_join(front);
        let dotted = join(front) + seq![DOT];
        assert(dotted.drop_last() =~= join(front));
        assert(split(dotted) == front.push(empty));
        lemma_split_append(dotted, parts.last());
        assert(empty + parts.last() =~= parts.last());
        assert(split(dotted + parts.last()) =~= parts);
    }
}

/// `String::from_utf8`: the string that `bytes` are the UTF-8 encoding of, if
/// they are the encoding of any. Trusted.
#[verifier::external_body]
fn text_of(bytes: Vec<u8>) -> (r: Option<String>)
    ensures
        match r {
            Some(text) => vstd::utf8::encode_utf8(text@) == bytes@,
            None => !vstd::utf8::valid_utf8(bytes@),
        },
{
    String::from_utf8(bytes).ok()
}

/// What can stand as a segment: it has a form in bytes and is read back from
/// that form.
pub trait CompactPart: Sized + View {
    /// The bytes that stand for a value, or why it has none.
    spec fn spec_to_bytes(value: Self::V) -> Result<Seq<u8>, Error>;

    /// The value that bytes stand for, or why they stand for none.
    spec fn spec_from_bytes(bytes: Seq<u8>) -> Result<Self::V, Error>;

    /// The bytes that stand for the value.
    fn to_bytes(&self) -> (r: Result<Vec<u8>, Error>)
        ensures
            match r {
                Ok(bytes) => Self::spec_to_bytes(self@) == Ok::<Seq<u8>, Error>(bytes@),
                Err(e) => Self::spec_to_bytes(self@) == Err::<Seq<u8>, Error>(e),
            },
    ;

    /// The value that `bytes` stand for.
    fn from_bytes(bytes: &[u8]) -> (r: Result<Self, Error>)
        ensures
            match r {
                Ok(value) => Self::spec_from_bytes(bytes@) == Ok::<Self::V, Error>(value@),
                Err(e) => Self::spec_from_bytes(bytes@) == Err::<Self::V, Error>(e),
            },
    ;
}

/// Bytes stand for themselves.
impl CompactPart for Vec<u8> {
    open spec fn spec_to_bytes(value: Seq<u8>) -> Result<Seq<u8>, Error> {
        Ok(value)
    }

    open spec fn spec_from_bytes(bytes: Seq<u8>) -> Result<Seq<u8>, Error> {
        Ok(bytes)
    }

    fn to_bytes(&self) -> (r: Result<Vec<u8>, Error>) {
        Ok(slice_to_vec(self.as_slice()))
    }

    fn from_bytes(bytes: &[u8]) -> (r: Result<Vec<u8>, Error>) {
        Ok(slice_to_vec(bytes))
    }
}

/// The segment that stands for `bytes`: their base64url text. Bytes beyond
/// the encoder's limit have none.
pub open spec fn spec_segment(bytes: Result<Seq<u8>, Error>) -> Result<Seq<u8>, Error> {
    match bytes {
        Err(e) => Err(e),
        Ok(bytes) => if bytes.len() <= base64url::max_encode_len() {
            Ok(base64url::encode(bytes))
        } else {
            Err(Error::UnsupportedOperation)
        },
    }
}

/// The bytes that the segment at `index` stands for. An index past the last
/// segment is an invalid token.
pub open spec fn spec_part_bytes(parts: Seq<Seq<u8>>, index: int) -> Result<Seq<u8>, Error> {
    if 0 <= index < parts.len() {
        base64url::spec_decode_bytes(parts[index])
    } else {
        Err(Error::DecodeError(TokenError::InvalidToken))
    }
}

/// The value that the segment at `index` stands for.
pub open spec fn spec_part<T: CompactPart>(parts: Seq<Seq<u8>>, index: int) -> Result<T::V, Error> {
    match spec_part_bytes(parts, index) {
        Err(e) => Err(e),
        Ok(bytes) => T::spec_from_bytes(bytes),
    }
}

/// A sequence of segments, each held as its base64url text.
#[derive(Debug, Clone, PartialEq, Eq)]
pub struct Compact {
    /// The segments, in their order on the wire.
    pub parts: Vec<Vec<u8>>,
}

impl View for Compact {
    type V = Seq<Seq<u8>>;

    open spec fn view(&self) -> Seq<Seq<u8>> {
        Seq::new(self.parts@.len(), |i: int| self.parts@[i]@)
    }
}

impl Compact {
    /// No segments.
    pub fn new() -> (compact: Compact)
        ensures
            compact@ == Seq::<Seq<u8>>::empty(),
    {
        let compact = Compact { parts: Vec::new() };
        assert(compact@ =~= Seq::<Seq<u8>>::empty());
        compact
    }

    /// No segments, with room for `capacity` of them.
    pub fn with_capacity(capacity: usize) -> (compact: Compact)
        ensures
            compact@ == Seq::<Seq<u8>>::empty(),
    {
        let compact = Compact { parts: Vec::with_capacity(capacity) };
        assert(compact@ =~= Seq::<Seq<u8>>::empty());
        compact
    }

    /// The number of segments.
    pub fn len(&self) -> (len: usize)
        ensures
            len == self@.len(),
    {
        self.parts.len()
    }

    /// Whether there are no segments.
    pub fn is_empty(&self) -> (empty: bool)
        ensures
            empty == (self@.len() == 0),
    {
        self.parts.len() == 0
    }

    /// Appends the segment that stands for `bytes`.
    pub fn push_bytes(&mut self, bytes: &[u8]) -> (r: Result<(), Error>)
        ensures
            match r {
                Ok(_) => spec_segment(Ok(bytes@)) matches Ok(segment) && final(self)@ == old(self)@.push(segment),
                Err(e) => spec_segment(Ok(bytes@)) == Err::<Seq<u8>, Error>(e) && final(self)@
                    == old(self)@,
            },
    {
        match base64url::encode_bytes(bytes) {
            Ok(segment) => {
                let ghost pushed = self@.push(segment@);
                self.parts.push(segment);
                assert(self@ =~= pushed);
                Ok(())
            },
            Err(e) => Err(e),
        }
    }

    /// Appends the segment that stands for `value`.
    pub fn push<T: CompactPart>(&mut self, value: &T) -> (r: Result<(), Error>)
        ensures
            match r {
                Ok(_) => spec_segment(T::spec_to_bytes(value@)) matches Ok(segment) && final(self)@ == old(self)@.push(segment),
                Err(e) => spec_segment(T::spec_to_bytes(value@)) == Err::<Seq<u8>, Error>(e)
                    && final(self)@ == old(self)@,
            },
    {
        let bytes = value.to_bytes()?;
        self.push_bytes(bytes.as_slice())
    }

    /// The bytes that the segment at `index` stands for.
    pub fn part_bytes(&self, index: usize) -> (r: Result<Vec<u8>, Error>)
        ensures
            match r {
                Ok(bytes) => spec_part_bytes(self@, index as int) == Ok::<Seq<u8>, Error>(bytes@),
                Err(e) => spec_part_bytes(self@, index as int) == Err::<Seq<u8>, Error>(e),
            },
    {
        if index >= self.parts.len() {
            return Err(Error::DecodeError(TokenError::InvalidToken));
        }
        base64url::decode_bytes(self.parts[index].as_slice())
    }

    /// The value that the segment at `index` stands for.
    pub fn part<T: CompactPart>(&self, index: usize) -> (r: Result<T, Error>)
        ensures
            match r {
                Ok(value) => spec_part::<T>(self@, index as int) == Ok::<T::V, Error>(value@),
                Err(e) => spec_part::<T>(self@, index as int) == Err::<T::V, Error>(e),
            },
    {
        let bytes = self.part_bytes(index)?;
        T::from_bytes(bytes.as_slice())
    }

    /// The wire text: the segments joined by dots.
    pub fn encode(&self) -> (wire: Vec<u8>)
        ensures
            wire@ == join(self@),
    {
        let mut wire: Vec<u8> = Vec::new();
        let mut i: usize = 0;
        while i < self.parts.len()
            invariant
                i <= self.parts.len(),
                wire@ == join(self@.take(i as int)),
            decreases self.parts.len() - i,
        {
            let ghost before = wire@;
            if i > 0 {
                wire.push(DOT);
            }
            let part = self.parts[i].as_slice();
            let mut j: usize = 0;
            while j < part.len()
                invariant
                    j <= part.len(),
                    wire@ == if i > 0 {
                        before + seq![DOT] + part@.take(j as int)
                    } else {
                        before + part@.take(j as int)
                    },
                decreases part.len() - j,
            {
                wire.push(part[j]);
                proof {
                    assert(part@.take(j + 1) =~= part@.take(j as int).push(part@[j as int]));
                }
                j += 1;
            }
            proof {
                let taken = self@.take(i + 1);
                assert(part@.take(part@.len() as int) =~= part@);
                assert(taken.last() == part@);
                assert(taken.drop_last() =~= self@.take(i as int));
                if i == 0 {
                    assert(before =~= Seq::<u8>::empty());
                    assert(wire@ =~= part@);
                }
            }
            i += 1;
        }
        assert(self@.take(i as int) =~= self@);
        wire
    }

    /// The wire text as a string, if the segments are text at all. The segments
    /// that `push` and `push_bytes` make always are.
    pub fn to_text(&self) -> (r: Option<String>)
        ensures
            match r {
                Some(text) => vstd::utf8::encode_utf8(text@) == join(self@),
                None => !vstd::utf8::valid_utf8(join(self@)),
            },
    {
        text_of(self.encode())
    }

    /// The segments of a wire text given as bytes. Nothing is checked of
    /// them here: a segment that is not base64url text fails when it is read.
    pub fn decode_bytes(wire: &[u8]) -> (compact: Compact)
        ensures
            compact@ == split(wire@),
    {
        let mut parts: Vec<Vec<u8>> = Vec::new();
        let mut current: Vec<u8> = Vec::new();
        let mut i: usize = 0;
        while i < wire.len()
            invariant
                i <= wire.len(),
                Seq::new(parts@.len(), |k: int| parts@[k]@).push(current@) == split(
                    wire@.take(i as int),
                ),
            decreases wire.len() - i,
        {
            let ghost done = Seq::new(parts@.len(), |k: int| parts@[k]@);
            let ghost front = split(wire@.take(i as int));
            proof {
                assert(wire@.take(i + 1).drop_last() =~= wire@.take(i as int));
                assert(wire@.take(i + 1).last() == wire@[i as int]);
            }
            if wire[i] == DOT {
                parts.push(current);
                current = Vec::new();
                assert(Seq::new(parts@.len(), |k: int| parts@[k]@).push(current@) =~= front.push(
                    Seq::empty(),
                ));
            } else {
                let ghost shorter = current@;
                current.push(wire[i]);
                assert(done.push(current@) =~= front.update(
                    front.len() - 1,
                    front.last().push(wire@[i as int]),
                ));
            }
            i += 1;
        }
        assert(wire@.take(i as int) =~= wire@);
        let ghost all = Seq::new(parts@.len(), |k: int| parts@[k]@).push(current@);
        parts.push(current);
        let compact = Compact { parts };
        assert(compact@ =~= all);
        compact
    }

    /// The segments of a wire text.
    pub fn decode(wire: &str) -> (compact: Compact)
        ensures
            compact@ == split(wire.spec_bytes()),
    {
        Compact::decode_bytes(wire.as_bytes())
    }
}

/// A sequence of segments stands for its wire text: this is how one token is
/// the payload of another. It is read back from that text where it has at
/// least one segment and none of them holds a dot.
impl CompactPart for Compact {
    open spec fn spec_to_bytes(value: Seq<Seq<u8>>) -> Result<Seq<u8>, Error> {
        Ok(join(value))
    }

    open spec fn spec_from_bytes(bytes: Seq<u8>) -> Result<Seq<Seq<u8>>, Error> {
        Ok(split(bytes))
    }

    fn to_bytes(&self) -> (r: Result<Vec<u8>, Error>) {
        Ok(self.encode())
    }

    fn from_bytes(bytes: &[u8]) -> (r: Result<Compact, Error>) {
        Ok(Compact::decode_bytes(bytes))
    }
}

} // verus!
