//! Incremental byte-buffer serializer for on-the-fly descriptor fragments,
//! such as synthesized string descriptors.
//!
//! A descriptor fragment is framed as `[length, type, payload...]`, where
//! `length` counts the whole fragment.  String descriptors carry their text
//! as UTF-16 code units, least-significant byte first; [`utf16le`] is the
//! mathematical form of that encoding and [`utf16le_of`] the executable one.

use vstd::prelude::*;
use vstd::string::StrSliceExecFns;

use crate::descriptor_type;

verus! {

/// The two bytes of a 16-bit word, least-significant first.
pub open spec fn le16(w: int) -> Seq<u8> {
    seq![(w % 256) as u8, ((w / 256) % 256) as u8]
}

/// The UTF-16 encoding of one character, least-significant byte of each code
/// unit first.  Characters outside the basic multilingual plane become a
/// surrogate pair, high unit first.
pub open spec fn char_utf16le(c: char) -> Seq<u8> {
    let u = c as u32;
    if u < 0x10000 {
        le16(u as int)
    } else {
        le16(0xD800 + (u - 0x10000) / 0x400) + le16(0xDC00 + (u - 0x10000) % 0x400)
    }
}

/// The UTF-16 encoding of a string, least-significant byte of each code unit
/// first.
pub open spec fn utf16le(s: Seq<char>) -> Seq<u8>
    decreases s.len(),
{
    if s.len() == 0 {
        Seq::empty()
    } else {
        utf16le(s.drop_last()) + char_utf16le(s.last())
    }
}

/// A descriptor fragment: its total length, its type, then its payload.
pub open spec fn descriptor_bytes(descriptor_type: u8, payload: Seq<u8>) -> Seq<u8> {
    seq![(payload.len() + 2) as u8, descriptor_type] + payload
}

/// A string descriptor: the UTF-16 text of `s`, framed as a descriptor of
/// the STRING type.
pub open spec fn string_descriptor(s: Seq<char>) -> Seq<u8> {
    descriptor_bytes(descriptor_type::STRING, utf16le(s))
}

/// Appending one character appends its encoding.
proof fn lemma_utf16le_push(s: Seq<char>, i: int)
    requires
        0 <= i < s.len(),
    ensures
        utf16le(s.take(i + 1)) == utf16le(s.take(i)) + char_utf16le(s[i]),
{
    let t = s.take(i + 1);
    assert(t.drop_last() =~= s.take(i));
    assert(t.last() == s[i]);
}

/// The UTF-16 encoding of a string, as bytes.
pub fn utf16le_of(s: &str) -> (v: Vec<u8>)
    ensures
        v@ == utf16le(s@),
{
    let n = s.unicode_len();
    let mut v: Vec<u8> = Vec::new();
    let mut i: usize = 0;
    while i < n
        invariant
            i <= n,
            n == s@.len(),
            v@ == utf16le(s@.take(i as int)),
        decreases n - i,
    {
        let c = s.get_char(i);
        let u: u32 = c as u32;
        if u < 0x10000 {
            v.push((u % 256) as u8);
            v.push(((u / 256) % 256) as u8);
        } else {
            let hi: u32 = 0xD800 + (u - 0x10000) / 0x400;
            let lo: u32 = 0xDC00 + (u - 0x10000) % 0x400;
            v.push((hi % 256) as u8);
            v.push(((hi / 256) % 256) as u8);
            v.push((lo % 256) as u8);
            v.push(((lo / 256) % 256) as u8);
        }
        proof {
            lemma_utf16le_push(s@, i as int);
            assert(v@ =~= utf16le(s@.take(i + 1)));
        }
        i = i + 1;
    }
    proof {
        assert(s@.take(n as int) =~= s@);
    }
    v
}

/// A cursor over a bounded scratch buffer, filled one descriptor fragment at
/// a time.  The write position never exceeds the buffer's capacity.
pub struct DescriptorWriter {
    buf: Vec<u8>,
    capacity: usize,
}

impl DescriptorWriter {
    /// The bytes written so far.
    pub closed spec fn written(&self) -> Seq<u8> {
        self.buf@
    }

    /// The capacity the writer was created with.
    pub closed spec fn cap(&self) -> usize {
        self.capacity
    }

    /// The write position never exceeds the buffer's capacity.
    pub open spec fn wf(&self) -> bool {
        self.written().len() <= self.cap()
    }

    /// Whether one more fragment with the given payload length fits: the
    /// fragment's length byte must hold it, and so must the buffer.
    pub open spec fn fits(&self, payload_len: nat) -> bool {
        payload_len + 2 <= 255 && self.written().len() + payload_len + 2 <= self.cap()
    }

    /// An empty writer over a scratch buffer of the given capacity.
    pub fn new(capacity: usize) -> (r: Self)
        ensures
            r.wf(),
            r.written() == Seq::<u8>::empty(),
            r.cap() == capacity,
    {
        DescriptorWriter { buf: Vec::new(), capacity }
    }

    /// The current write position.
    pub fn position(&self) -> (r: usize)
        ensures
            r == self.written().len(),
    {
        self.buf.len()
    }

    /// Appends one descriptor fragment with the given type and payload.
    /// Fails, writing nothing, when the fragment would not fit.
    pub fn write(&mut self, descriptor_type: u8, descriptor: &[u8]) -> (r: Result<(), ()>)
        requires
            old(self).wf(),
        ensures
            final(self).wf(),
            final(self).cap() == old(self).cap(),
            if old(self).fits(descriptor@.len()) {
                r is Ok && final(self).written() == old(self).written() + descriptor_bytes(
                    descriptor_type,
                    descriptor@,
                )
            } else {
                r is Err && final(self).written() == old(self).written()
            },
    {
        if descriptor.len() > 253 || self.capacity - self.buf.len() < descriptor.len() + 2 {
            return Err(());
        }
        let ghost before = self.buf@;
        self.buf.push((descriptor.len() + 2) as u8);
        self.buf.push(descriptor_type);
        let mut i: usize = 0;
        while i < descriptor.len()
            invariant
                i <= descriptor@.len(),
                self.capacity == old(self).cap(),
                before == old(self).written(),
                before.len() + descriptor@.len() + 2 <= self.capacity,
                self.buf@ == before + seq![
                    (descriptor@.len() + 2) as u8,
                    descriptor_type,
                ] + descriptor@.take(i as int),
            decreases descriptor@.len() - i,
        {
            let b = descriptor[i];
            self.buf.push(b);
            proof {
                assert(self.buf@ =~= before + seq![
                    (descriptor@.len() + 2) as u8,
                    descriptor_type,
                ] + descriptor@.take(i + 1));
            }
            i = i + 1;
        }
        proof {
            assert(descriptor@.take(descriptor@.len() as int) =~= descriptor@);
            assert(self.buf@ =~= before + descriptor_bytes(descriptor_type, descriptor@));
        }
        Ok(())
    }

    /// Appends a string descriptor carrying the UTF-16 text of `s`.  Fails,
    /// writing nothing, when the descriptor would not fit.
    pub fn string(&mut self, s: &str) -> (r: Result<(), ()>)
        requires
            old(self).wf(),
        ensures
            final(self).wf(),
            final(self).cap() == old(self).cap(),
            if old(self).fits(utf16le(s@).len()) {
                r is Ok && final(self).written() == old(self).written() + string_descriptor(s@)
            } else {
                r is Err && final(self).written() == old(self).written()
            },
    {
        let bytes = utf16le_of(s);
        self.write(descriptor_type::STRING, bytes.as_slice())
    }

    /// Hands out the bytes written so far, consuming the writer.
    pub fn into_bytes(self) -> (r: Vec<u8>)
        ensures
            r@ == self.written(),
    {
        self.buf
    }
}

} // verus!
