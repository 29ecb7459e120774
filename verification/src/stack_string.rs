//! A short string kept inline, without a heap allocation.

use vstd::prelude::*;
use vstd::string::StringSliceAdditionalSpecFns;
use vstd::utf8::{
    decode_first_scalar, decode_utf8, length_of_first_scalar, pop_first_scalar, valid_first_scalar,
    valid_utf8, valid_utf8_concat,
};

verus! {

/// The largest number of bytes a `StackString` can hold.
pub const MAX_LENGTH: usize = 31;

/// A string of at most `MAX_LENGTH` bytes of UTF-8, stored in a fixed array
/// together with its length. Bytes past the length are zero.
pub enum StackString {
    Empty,
    Short([u8; MAX_LENGTH], usize),
}

/// The contents of the array that stores `bytes`: the first `MAX_LENGTH`
/// bytes of `bytes`, followed by zeros up to `MAX_LENGTH`.
pub open spec fn padded(bytes: Seq<u8>) -> Seq<u8> {
    Seq::new(
        MAX_LENGTH as nat,
        |i: int|
            if i < bytes.len() {
                bytes[i]
            } else {
                0u8
            },
    )
}

impl StackString {
    /// The UTF-8 bytes of the string.
    pub open spec fn bytes(&self) -> Seq<u8> {
        match self {
            StackString::Empty => Seq::empty(),
            StackString::Short(array, len) => array@.take(*len as int),
        }
    }

    /// The characters of the string.
    pub open spec fn text(&self) -> Seq<char> {
        decode_utf8(self.bytes())
    }

    /// The stored length is within the array, the stored bytes are UTF-8,
    /// and the rest of the array is zero.
    pub open spec fn wf(&self) -> bool {
        match self {
            StackString::Empty => true,
            StackString::Short(array, len) => {
                &&& *len <= MAX_LENGTH
                &&& valid_utf8(array@.take(*len as int))
                &&& array@ == padded(array@.take(*len as int))
            },
        }
    }

    /// The value that holds `bytes`, given that it is stored as `Short`.
    pub open spec fn is_short_of(&self, bytes: Seq<u8>) -> bool {
        &&& *self matches StackString::Short(array, len)
        &&& array@ == padded(bytes)
        &&& len == bytes.len()
    }

    /// Stores `s` inline: the empty string as `Empty`, any other as `Short`.
    /// The string must fit, that is, be at most `MAX_LENGTH` bytes long.
    pub fn new(s: &str) -> (r: Self)
        requires
            s.spec_bytes().len() <= MAX_LENGTH,
        ensures
            r.wf(),
            r.bytes() == s.spec_bytes(),
            r.text() == s@,
            s.spec_bytes().len() == 0 ==> r is Empty,
            s.spec_bytes().len() > 0 ==> r.is_short_of(s.spec_bytes()),
    {
        broadcast use vstd::utf8::encode_utf8_valid_utf8, vstd::utf8::encode_utf8_decode_utf8;

        let len = s.len();
        if len == 0 {
            assert(s.spec_bytes() =~= Seq::<u8>::empty());
            StackString::Empty
        } else {
            let array = str_to_array(s);
            assert(array@.take(len as int) =~= s.spec_bytes());
            StackString::Short(array, len)
        }
    }

    /// The string as an owned `String`.
    pub fn as_string(&self) -> (r: String)
        requires
            self.wf(),
        ensures
            r@ == self.text(),
    {
        let mut bytes: Vec<u8> = Vec::new();
        match self {
            StackString::Empty => {},
            StackString::Short(array, len) => {
                let mut i: usize = 0;
                while i < *len
                    invariant
                        i <= *len <= MAX_LENGTH,
                        bytes@ == array@.take(i as int),
                    decreases *len - i,
                {
                    bytes.push(array[i]);
                    i = i + 1;
                    assert(bytes@ =~= array@.take(i as int));
                }
            },
        }
        assert(bytes@ =~= self.bytes());
        match string_from_utf8(bytes) {
            Some(text) => text,
            None => unreached(),
        }
    }

    /// Appends `s`. The result is always stored as `Short`, even when it is
    /// empty. The combined string must fit in `MAX_LENGTH` bytes.
    pub fn push_str(&mut self, s: &str)
        requires
            old(self).wf(),
            old(self).bytes().len() + s.spec_bytes().len() <= MAX_LENGTH,
        ensures
            final(self).wf(),
            final(self).bytes() == old(self).bytes() + s.spec_bytes(),
            final(self).text() == old(self).text() + s@,
            final(self).is_short_of(old(self).bytes() + s.spec_bytes()),
    {
        broadcast use vstd::utf8::encode_utf8_valid_utf8, vstd::utf8::encode_utf8_decode_utf8;

        proof {
            lemma_decode_concat(self.bytes(), s.spec_bytes());
        }

        let bytes = s.as_bytes();
        let added = bytes.len();
        let ghost before = self.bytes();
        let (mut array, start): ([u8; MAX_LENGTH], usize) = match self {
            StackString::Empty => ([0u8; MAX_LENGTH], 0),
            StackString::Short(array, len) => (*array, *len),
        };
        assert(array@ =~= padded(before));
        let mut i: usize = 0;
        while i < added
            invariant
                i <= added,
                added == bytes@.len(),
                start == before.len(),
                start + added <= MAX_LENGTH,
                array@ == padded(before + bytes@.take(i as int)),
            decreases added - i,
        {
            array[start + i] = bytes[i];
            i = i + 1;
            assert(array@ =~= padded(before + bytes@.take(i as int)));
        }
        assert(bytes@.take(added as int) =~= bytes@);
        assert(array@.take((start + added) as int) =~= before + bytes@);
        *self = StackString::Short(array, start + added);
    }
}

/// Decoding two pieces of UTF-8 written one after the other gives the text
/// of the first followed by the text of the second.
pub proof fn lemma_decode_concat(first: Seq<u8>, second: Seq<u8>)
    requires
        valid_utf8(first),
        valid_utf8(second),
    ensures
        valid_utf8(first + second),
        decode_utf8(first + second) == decode_utf8(first) + decode_utf8(second),
    decreases first.len(),
{
    valid_utf8_concat(first, second);
    if first.len() == 0 {
        assert(first + second =~= second);
        assert(decode_utf8(first) =~= Seq::<char>::empty());
        assert(decode_utf8(first) + decode_utf8(second) =~= decode_utf8(second));
    } else {
        let rest = pop_first_scalar(first);
        assert(valid_first_scalar(first));
        assert(1 <= length_of_first_scalar(first) <= first.len());
        assert(rest.len() < first.len());
        lemma_decode_concat(rest, second);
        assert(valid_first_scalar(first + second));
        assert(length_of_first_scalar(first + second) == length_of_first_scalar(first));
        assert(pop_first_scalar(first + second) =~= rest + second);
        assert(decode_first_scalar(first + second) == decode_first_scalar(first));
        assert(decode_utf8(first + second) =~= decode_utf8(first) + decode_utf8(second));
    }
}

/// `String::from_utf8`: the string whose UTF-8 encoding is `bytes`, or
/// nothing if `bytes` is not valid UTF-8.
#[verifier::external_body]
fn string_from_utf8(bytes: Vec<u8>) -> (r: Option<String>)
    ensures
        r is Some <==> valid_utf8(bytes@),
        r matches Some(text) ==> text@ == decode_utf8(bytes@),
{
    String::from_utf8(bytes).ok()
}

/// The first `MAX_LENGTH` bytes of `s` in an array, followed by zeros. A
/// longer string is cut off at the array's end.
pub fn str_to_array(s: &str) -> (array: [u8; MAX_LENGTH])
    ensures
        array@ == padded(s.spec_bytes()),
{
    let bytes = s.as_bytes();
    let mut array: [u8; MAX_LENGTH] = [0u8; MAX_LENGTH];
    let count: usize = if bytes.len() < MAX_LENGTH {
        bytes.len()
    } else {
        MAX_LENGTH
    };
    let mut i: usize = 0;
    while i < count
        invariant
            i <= count <= MAX_LENGTH,
            count <= bytes@.len(),
            forall|j: int| 0 <= j < i ==> array@[j] == bytes@[j],
            forall|j: int| i <= j < MAX_LENGTH ==> array@[j] == 0u8,
        decreases count - i,
    {
        array[i] = bytes[i];
        i = i + 1;
    }
    assert(array@ =~= padded(bytes@));
    array
}

impl Clone for StackString {
    fn clone(&self) -> (r: Self)
        ensures
            r == *self,
    {
        match self {
            StackString::Empty => StackString::Empty,
            StackString::Short(array, len) => StackString::Short(*array, *len),
        }
    }
}

impl Default for StackString {
    fn default() -> (r: Self)
        ensures
            r is Empty,
    {
        StackString::Empty
    }
}

} // verus!
