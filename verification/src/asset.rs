//! Plain text assets and their loader.
use vstd::prelude::*;
use crate::shader::utf8_to_string;

verus! {

/// A text asset.
pub struct Text(pub String);

/// Turns loaded bytes into a `Text` asset; the bytes must be UTF-8.
pub struct TextLoader;

impl TextLoader {
    pub fn load(&self, bytes: &Vec<u8>) -> (r: Text)
        requires
            vstd::utf8::valid_utf8(bytes@),
        ensures
            r.0@ == vstd::utf8::decode_utf8(bytes@),
    {
        let text = utf8_to_string(bytes);
        match text {
            Some(raw) => Text(raw),
            None => {
                proof {
                    assert(false);
                }
                Text(String::new())
            },
        }
    }
}

} // verus!
