use vstd::prelude::*;
use vstd::string::StringSliceAdditionalSpecFns;

verus! {

#[verifier::external_type_specification]
#[verifier::external_body]
pub struct ExBytes(bytes::Bytes);

/// The bytes a `Bytes` buffer holds.
pub uninterp spec fn bytes_content(b: bytes::Bytes) -> Seq<u8>;

/// The end-of-transmission byte, which a terminal reads as end of input on an
/// empty line.
pub const END_OF_TRANSMISSION: u8 = 4;

/// Relies on `From<Vec<u8>> for Bytes`: the buffer holds the vector's bytes.
#[verifier::external_body]
fn bytes_from_vec(v: Vec<u8>) -> (r: bytes::Bytes)
    ensures
        bytes_content(r) == v@,
{
    bytes::Bytes::from(v)
}

fn copy_bytes(s: &str) -> (r: Vec<u8>)
    ensures
        r@ == s.spec_bytes(),
{
    let src = s.as_bytes();
    let mut r: Vec<u8> = Vec::new();
    let mut i: usize = 0;
    while i < src.len()
        invariant
            i <= src@.len(),
            src@ == s.spec_bytes(),
            r@ == src@.subrange(0, i as int),
        decreases src@.len() - i,
    {
        r.push(src[i]);
        i = i + 1;
        assert(r@ =~= src@.subrange(0, i as int));
    }
    assert(src@.subrange(0, src@.len() as int) =~= src@);
    r
}

/// The input chunk that types `cmd` into the shell: its UTF-8 bytes.
pub fn string_payload(cmd: &str) -> (r: bytes::Bytes)
    ensures
        bytes_content(r) == cmd.spec_bytes(),
{
    bytes_from_vec(copy_bytes(cmd))
}

/// The input chunk that types `cmd` into the shell followed by end of
/// transmission.
pub fn single_string_payload(cmd: &str) -> (r: bytes::Bytes)
    ensures
        bytes_content(r) == cmd.spec_bytes().push(END_OF_TRANSMISSION),
{
    let mut v = copy_bytes(cmd);
    v.push(END_OF_TRANSMISSION);
    bytes_from_vec(v)
}

} // verus!
