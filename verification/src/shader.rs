//! Shader assets: plain WGSL-style source text with two well-known entry
//! points. The text is treated as opaque and handed to the backend compiler
//! unmodified.
use vstd::prelude::*;

verus! {

/// The id of a shader asset in the shader asset store.
pub type ShaderAssetId = u64;

pub const VS_ENTRY_DEFAULT: &'static str = "vs_main";

pub const FS_ENTRY_DEFAULT: &'static str = "fs_main";

/// A shader asset: its source text, kept unmodified.
pub struct Shader {
    pub raw: String,
}

impl Shader {
    pub fn from_wgsl(source: &str) -> (r: Self)
        ensures
            r.raw@ == source@,
    {
        Shader { raw: source.to_owned() }
    }
}

/// Relies on `String::from_utf8`: it succeeds exactly on valid UTF-8 and
/// returns its decoding.
#[verifier::external_body]
pub fn utf8_to_string(bytes: &Vec<u8>) -> (r: Option<String>)
    ensures
        r is Some <==> vstd::utf8::valid_utf8(bytes@),
        r is Some ==> r.unwrap()@ == vstd::utf8::decode_utf8(bytes@),
{
    String::from_utf8(bytes.clone()).ok()
}

/// Turns loaded bytes into a `Shader` asset. Handing it bytes that are not
/// UTF-8 is a wiring mistake, so the input is constrained instead of mapped
/// to an error.
pub struct ShaderLoader;

impl ShaderLoader {
    pub fn load(&self, bytes: &Vec<u8>) -> (r: Shader)
        requires
            vstd::utf8::valid_utf8(bytes@),
        ensures
            r.raw@ == vstd::utf8::decode_utf8(bytes@),
    {
        let text = utf8_to_string(bytes);
        match text {
            Some(raw) => Shader { raw },
            None => {
                proof {
                    assert(false);
                }
                Shader { raw: String::new() }
            },
        }
    }
}

} // verus!
