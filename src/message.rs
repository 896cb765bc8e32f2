use vstd::prelude::*;
use vstd::utf8::*;
use crate::reminder::{Frequency, tag_of};

verus! {

/// The short message format: a frequency tag byte followed by the text.
pub struct Message {
    pub frequency: Frequency,
    pub content: String,
}

impl Message {
    pub fn new(f: Frequency, msg: String) -> (r: Message)
        ensures
            r.frequency == f,
            r.content@ == msg@,
    {
        Message { frequency: f, content: msg }
    }

    /// The tag byte, then the text's UTF-8 bytes.
    pub fn serialize(&self) -> (r: Vec<u8>)
        ensures
            r@ == seq![tag_of(self.frequency)] + encode_utf8(self.content@),
    {
        let mut v: Vec<u8> = Vec::new();
        v.push(crate::reminder::serialize_frequency(self.frequency));
        let text = self.content.as_str().as_bytes();
        let mut i: usize = 0;
        while i < text.len()
            invariant
                0 <= i <= text@.len(),
                text@ == encode_utf8(self.content@),
                v@ == seq![tag_of(self.frequency)] + text@.subrange(0, i as int),
            decreases text@.len() - i,
        {
            v.push(text[i]);
            i = i + 1;
            assert(v@ =~= seq![tag_of(self.frequency)] + text@.subrange(0, i as int));
        }
        assert(text@.subrange(0, i as int) =~= text@);
        v
    }
}

} // verus!
