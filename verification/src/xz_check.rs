use vstd::prelude::*;
use xz4rust::XzReader;

verus! {

#[verifier::external_type_specification]
#[verifier::external_body]
pub struct ExIoError(std::io::Error);

/// The number of bytes that xz4rust's `XzReader` decodes from `input` when
/// read to its end, or `None` when reading fails: the stream is invalid,
/// its checksum does not match, or the input ends before the stream does.
pub uninterp spec fn xz_decoded_size(input: Seq<u8>) -> Option<nat>;

/// Decodes all of `input` with xz4rust: an `XzReader` over the bytes is
/// copied by `std::io::copy` into a sink, and the number of decoded bytes
/// is returned.
///
/// Stated: success exactly when `xz_decoded_size` of the input is a size,
/// and then that size; an empty input fails (the reader's first fill finds
/// no byte and reports an unexpected end of file). Which error comes is not
/// stated.
#[verifier::external_body]
fn xz_copy_to_end(input: &[u8]) -> (r: Result<u64, std::io::Error>)
    ensures
        r is Ok <==> xz_decoded_size(input@) is Some,
        r matches Ok(n) ==> xz_decoded_size(input@) == Some(n as nat),
        input@.len() == 0 ==> r is Err,
{
    let mut reader = XzReader::new(std::io::Cursor::new(input.to_vec()));
    std::io::copy(&mut reader, &mut std::io::sink())
}

/// Checks that `input` holds a complete, valid xz stream: decodes it to its
/// end, checking the stream's checksums, and gives the number of decoded
/// bytes. Fails with the reader's error otherwise; an empty input fails.
pub fn check_xz_data(input: &[u8]) -> (r: Result<u64, std::io::Error>)
    ensures
        r is Ok <==> xz_decoded_size(input@) is Some,
        r matches Ok(n) ==> xz_decoded_size(input@) == Some(n as nat),
        input@.len() == 0 ==> r is Err,
{
    xz_copy_to_end(input)
}

} // verus!
