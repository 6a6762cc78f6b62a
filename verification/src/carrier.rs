//! The carrier of an optional byte string across the language boundary.
//!
//! The native side sees three words: a pointer, a length and a capacity. A null
//! pointer stands for "no value". A capacity of zero says that nothing is to be
//! freed: the pointer is null, or it refers to one zero byte that lives for the
//! whole run. A capacity above zero says that the pointer refers to a heap buffer
//! which the managed side allocated and which it alone may free.
//!
//! Here the pointer is held as what it refers to, so that the three words can
//! never disagree: the length and the capacity are read off the buffer itself.

use vstd::prelude::*;

verus! {

/// What the pointer word of a carrier refers to.
enum Pointee {
    /// Nothing: the pointer is null.
    Null,
    /// One zero byte in static storage.
    Static,
    /// A heap buffer: the value's bytes and one zero byte after them.
    Heap(Vec<u8>),
}

/// An optional byte string in the form in which it is handed to native code.
///
/// Its view is the value it carries, without the terminator: `None` where the
/// value is absent. The value alone decides how the carrier is laid out, so an
/// absent value and an empty one are told apart at the boundary, and an empty
/// one costs no allocation.
///
/// A carrier cannot be copied, and it is released by value: the buffer it owns
/// is given up exactly once.
pub struct COsString {
    pointee: Pointee,
}

impl View for COsString {
    type V = Option<Seq<u8>>;

    closed spec fn view(&self) -> Option<Seq<u8>> {
        match self.pointee {
            Pointee::Null => None,
            Pointee::Static => Some(Seq::empty()),
            Pointee::Heap(buffer) => Some(buffer@.drop_last()),
        }
    }
}

/// `Vec::capacity`. Claimed of it: a vector has room for the elements it holds,
/// so the capacity is at least the length. How much more the allocator gave is
/// left open.
#[verifier::external_body]
fn vec_capacity(buffer: &Vec<u8>) -> (capacity: usize)
    ensures
        buffer@.len() <= capacity,
{
    buffer.capacity()
}

impl COsString {
    /// A heap buffer holds at least one byte of the value, and ends in the
    /// terminator.
    #[verifier::type_invariant]
    spec fn well_formed(self) -> bool {
        match self.pointee {
            Pointee::Heap(buffer) => buffer@.len() >= 2 && buffer@.last() == 0,
            _ => true,
        }
    }

    /// The bytes that the native side may read behind the pointer: the value
    /// followed by one zero byte, and nothing behind a null pointer.
    pub open spec fn bytes(&self) -> Seq<u8> {
        match self@ {
            None => Seq::empty(),
            Some(value) => value.push(0),
        }
    }

    /// Whether the carrier owns a heap buffer. Only a value of at least one byte
    /// is given one.
    pub open spec fn owns_buffer(&self) -> bool {
        match self@ {
            None => false,
            Some(value) => value.len() > 0,
        }
    }

    /// The carrier of an absent value: null pointer, no bytes, nothing to free.
    pub fn null() -> (carrier: Self)
        ensures
            carrier@ == None::<Seq<u8>>,
    {
        COsString { pointee: Pointee::Null }
    }

    /// The carrier of the empty value: one zero byte in static storage, nothing
    /// to free.
    pub fn empty() -> (carrier: Self)
        ensures
            carrier@ == Some(Seq::<u8>::empty()),
    {
        COsString { pointee: Pointee::Static }
    }

    /// The pointer word is null: the value is absent.
    pub fn is_null(&self) -> (null: bool)
        ensures
            null == (self@ is None),
    {
        match &self.pointee {
            Pointee::Null => true,
            _ => false,
        }
    }

    /// The length word: how many bytes stand behind the pointer, the terminator
    /// counted.
    pub fn len(&self) -> (len: usize)
        ensures
            len == self.bytes().len(),
    {
        proof {
            use_type_invariant(self);
        }
        match &self.pointee {
            Pointee::Null => 0,
            Pointee::Static => 1,
            Pointee::Heap(buffer) => {
                assert(buffer@.drop_last().push(0) =~= buffer@);
                buffer.len()
            },
        }
    }

    /// The capacity word. It is zero where the carrier owns no buffer. Where it
    /// owns one, it is what the allocator gave, which is room for every byte
    /// behind the pointer at least.
    pub fn capacity(&self) -> (capacity: usize)
        ensures
            (capacity > 0) == self.owns_buffer(),
            self.owns_buffer() ==> capacity >= self.bytes().len(),
    {
        proof {
            use_type_invariant(self);
        }
        match &self.pointee {
            Pointee::Heap(buffer) => {
                assert(buffer@.drop_last().push(0) =~= buffer@);
                vec_capacity(buffer)
            },
            _ => 0,
        }
    }

    /// The bytes behind the pointer, as the native side reads them.
    pub fn as_bytes(&self) -> (bytes: &[u8])
        ensures
            bytes@ == self.bytes(),
    {
        proof {
            use_type_invariant(self);
        }
        match &self.pointee {
            Pointee::Null => &[],
            Pointee::Static => &[0u8],
            Pointee::Heap(buffer) => {
                assert(buffer@.drop_last().push(0) =~= buffer@);
                buffer.as_slice()
            },
        }
    }

    /// The rule by which the side that allocated reads a capacity word that
    /// comes back to it: above zero, the pointer beside it is a heap buffer and
    /// has to be freed; zero, there is nothing to free.
    pub fn must_free(capacity: usize) -> (free: bool)
        ensures
            free == (capacity > 0),
    {
        capacity > 0
    }

    /// Takes the carrier apart for the crossing. Returns the heap buffer with
    /// its ownership, where the carrier has one: the bytes behind the pointer,
    /// terminator included. Returns `None` for the two forms that own nothing.
    pub fn into_buffer(self) -> (buffer: Option<Vec<u8>>)
        ensures
            match buffer {
                Some(heap) => self.owns_buffer() && heap@ == self.bytes(),
                None => !self.owns_buffer(),
            },
    {
        proof {
            use_type_invariant(&self);
        }
        match self.pointee {
            Pointee::Heap(heap) => {
                assert(heap@.drop_last().push(0) =~= heap@);
                Some(heap)
            },
            _ => None,
        }
    }

    /// Releases the carrier, and says whether a heap buffer was freed with it.
    /// The capacity word decides, as it does for a carrier that comes back from
    /// the native side.
    pub fn dealloc(self) -> (freed: bool)
        ensures
            freed == self.owns_buffer(),
    {
        let capacity = self.capacity();
        Self::must_free(capacity)
    }

    /// Every carrier is in one of three forms, and the three words it shows
    /// never disagree. Absent: null pointer, no bytes, nothing owned. Static:
    /// the empty value, one zero byte, nothing owned. Owned: a value of at least
    /// one byte, followed by the zero byte, in a buffer that the carrier owns.
    pub proof fn lemma_three_forms(self)
        ensures
            self@ is None ==> self.bytes().len() == 0 && !self.owns_buffer(),
            self@ == Some(Seq::<u8>::empty()) ==> self.bytes() == seq![0u8] && !self.owns_buffer(),
            self.owns_buffer() ==> self@ is Some && self.bytes().len() >= 2,
            self@ is Some ==> self.bytes().len() >= 1 && self.bytes().last() == 0,
            self@ is None || self@ == Some(Seq::<u8>::empty()) || self.owns_buffer(),
    {
        if let Some(value) = self@ {
            if value.len() == 0 {
                assert(value =~= Seq::<u8>::empty());
                assert(value.push(0) =~= seq![0u8]);
            }
        }
    }

    /// Reading back what was put in: a carrier made from `value` shows, behind
    /// a pointer that is not null, `value` and then one zero byte, and it owns
    /// a buffer unless `value` is empty.
    pub proof fn lemma_read_back(self, value: Seq<u8>)
        requires
            self@ == Some(value),
        ensures
            self.bytes().len() == value.len() + 1,
            self.bytes().drop_last() == value,
            self.bytes().last() == 0,
            self.owns_buffer() <==> value.len() > 0,
    {
        assert(value.push(0).drop_last() =~= value);
    }

    /// What shows at the boundary tells the value: two carriers whose pointers
    /// are both null or both not, and which show the same bytes, carry the same
    /// value. So an absent value is never taken for an empty one.
    pub proof fn lemma_boundary_tells_value(self, other: Self)
        requires
            (self@ is None) == (other@ is None),
            self.bytes() == other.bytes(),
        ensures
            self@ == other@,
    {
        if let Some(a) = self@ {
            let b = other@->Some_0;
            assert(a.push(0).drop_last() =~= a);
            assert(b.push(0).drop_last() =~= b);
        }
    }
}

/// A present value becomes its carrier: the value's buffer with one zero byte
/// appended, or the static form where the value is empty, whose buffer is then
/// let go.
impl From<Vec<u8>> for COsString {
    fn from(value: Vec<u8>) -> (carrier: COsString)
        ensures
            carrier@ == Some(value@),
    {
        let mut buffer = value;
        if !buffer.is_empty() {
            buffer.push(0);
            assert(buffer@.drop_last() =~= value@);
            COsString { pointee: Pointee::Heap(buffer) }
        } else {
            assert(value@ =~= Seq::<u8>::empty());
            COsString::empty()
        }
    }
}

/// No spec function gives the carrier itself: it owns a buffer, which spec code
/// cannot make. What `from` returns is stated in its `ensures`, over the view.
impl vstd::std_specs::convert::FromSpecImpl<Vec<u8>> for COsString {
    open spec fn obeys_from_spec() -> bool {
        false
    }

    open spec fn from_spec(value: Vec<u8>) -> COsString {
        arbitrary()
    }
}

/// The value of a variable that may be unset becomes its carrier: the null
/// form where there is none.
impl From<Option<Vec<u8>>> for COsString {
    fn from(value: Option<Vec<u8>>) -> (carrier: COsString)
        ensures
            carrier@ == match value {
                Some(bytes) => Some(bytes@),
                None => None,
            },
    {
        match value {
            Some(bytes) => COsString::from(bytes),
            None => COsString::null(),
        }
    }
}

/// As for a present value: the `ensures` of `from` says what is returned.
impl vstd::std_specs::convert::FromSpecImpl<Option<Vec<u8>>> for COsString {
    open spec fn obeys_from_spec() -> bool {
        false
    }

    open spec fn from_spec(value: Option<Vec<u8>>) -> COsString {
        arbitrary()
    }
}

} // verus!
