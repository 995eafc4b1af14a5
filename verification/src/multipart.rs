//! The body of a multipart form of text fields, built with `ureq_multipart`.
//!
//! The crate picks a boundary of 29 random digits; every outcome is the
//! fields laid out between lines that carry that boundary.

use vstd::prelude::*;
use vstd::utf8::encode_utf8;

use crate::requests::pairs_view;
use ureq_multipart::MultipartBuilder;

verus! {

#[verifier::external_type_specification]
#[verifier::external_body]
pub struct ExMultipartBuilder(MultipartBuilder);

#[verifier::external_type_specification]
#[verifier::external_body]
pub struct ExIoError(std::io::Error);

/// The text fields handed to a builder so far, in order.
pub uninterp spec fn builder_fields(b: MultipartBuilder) -> Seq<(Seq<char>, Seq<char>)>;

/// A boundary as the builder picks it: 29 decimal digits.
pub open spec fn is_boundary(b: Seq<char>) -> bool {
    b.len() == 29 && forall|i: int| 0 <= i < 29 ==> '0' <= #[trigger] b[i] <= '9'
}

/// The line that opens each field: 29 dashes and the boundary.
pub open spec fn delimiter(boundary: Seq<char>) -> Seq<char> {
    "-----------------------------"@ + boundary
}

/// The content type announcing the boundary.
pub open spec fn multipart_content_type(boundary: Seq<char>) -> Seq<char> {
    "multipart/form-data; boundary=---------------------------"@ + boundary
}

/// The bytes of one text field: a line break unless it comes first, its
/// delimiter, its header naming it, an empty line, and its text.
pub open spec fn field_bytes(field: (Seq<char>, Seq<char>), boundary: Seq<char>, first: bool) -> Seq<u8> {
    (if first {
        Seq::empty()
    } else {
        encode_utf8("\r\n"@)
    }) + encode_utf8(
        delimiter(boundary) + "\r\n"@ + "Content-Disposition: form-data; name=\""@ + field.0 + "\""@
            + "\r\n\r\n"@,
    ) + encode_utf8(field.1)
}

/// The bytes of the fields, one after the other.
pub open spec fn fields_bytes(fields: Seq<(Seq<char>, Seq<char>)>, boundary: Seq<char>) -> Seq<u8>
    decreases fields.len(),
{
    if fields.len() == 0 {
        Seq::empty()
    } else {
        fields_bytes(fields.drop_last(), boundary) + field_bytes(fields.last(), boundary, fields.len() == 1)
    }
}

/// The whole body: the fields, a line break after them when there are any,
/// and the closing delimiter.
pub open spec fn multipart_bytes(fields: Seq<(Seq<char>, Seq<char>)>, boundary: Seq<char>) -> Seq<u8> {
    fields_bytes(fields, boundary) + (if fields.len() > 0 {
        encode_utf8("\r\n"@)
    } else {
        Seq::empty()
    }) + encode_utf8(delimiter(boundary) + "--\r\n"@)
}

/// Trusted: calls `ureq_multipart::MultipartBuilder::new`, which starts an
/// empty body under a random boundary; the contract claims no field has been
/// added.
#[verifier::external_body]
fn builder_new() -> (r: MultipartBuilder)
    ensures
        builder_fields(r) == Seq::<(Seq<char>, Seq<char>)>::empty(),
{
    MultipartBuilder::new()
}

/// Trusted: calls `MultipartBuilder::add_text`; the contract claims that it
/// succeeds and that the field comes after those added before. In the crate's
/// source every error of `add_text` could only come from a write into the
/// builder's own `Vec<u8>`, and writing into a `Vec<u8>` appends to it and
/// does not fail.
#[verifier::external_body]
fn builder_add_text(b: MultipartBuilder, name: &str, text: &str) -> (r: Result<MultipartBuilder, std::io::Error>)
    ensures
        r is Ok,
        r matches Ok(next) ==> builder_fields(next) == builder_fields(b).push((name@, text@)),
{
    b.add_text(name, text)
}

/// Trusted: calls `MultipartBuilder::finish`; the contract claims that it
/// succeeds (its only errors would come from writes into the builder's own
/// `Vec<u8>`, which do not fail) and that the content type and the bytes are
/// those the crate's source writes for the fields added, under some boundary
/// of 29 digits (the one it drew at random).
#[verifier::external_body]
fn builder_finish(b: MultipartBuilder) -> (r: Result<(String, Vec<u8>), std::io::Error>)
    ensures
        r is Ok,
        r matches Ok((content_type, data)) ==> exists|boundary: Seq<char>|
            is_boundary(boundary) && content_type@ == multipart_content_type(boundary) && data@
                == multipart_bytes(builder_fields(b), boundary),
{
    b.finish()
}

/// Which step of building a multipart body failed.
#[derive(Debug, Clone, Copy, PartialEq, Eq, Structural)]
pub enum MultipartFailure {
    /// A field could not be added.
    AddField,
    /// The body could not be closed.
    Finish,
}

/// The content type and bytes of a multipart form holding the text fields,
/// in order, under a boundary of 29 random digits.
pub fn multipart_body(fields: &Vec<(String, String)>) -> (r: Result<(String, Vec<u8>), MultipartFailure>)
    ensures
        r is Ok,
        r matches Ok((content_type, data)) ==> exists|boundary: Seq<char>|
            is_boundary(boundary) && content_type@ == multipart_content_type(boundary) && data@
                == multipart_bytes(pairs_view(fields@), boundary),
{
    let ghost all = pairs_view(fields@);
    let mut builder = builder_new();
    let mut i: usize = 0;
    while i < fields.len()
        invariant
            i <= fields@.len(),
            all == pairs_view(fields@),
            builder_fields(builder) == all.take(i as int),
        decreases fields@.len() - i,
    {
        match builder_add_text(builder, fields[i].0.as_str(), fields[i].1.as_str()) {
            Ok(next) => {
                builder = next;
            },
            Err(_) => {
                return Err(MultipartFailure::AddField);
            },
        }
        assert(all.take(i + 1) =~= all.take(i as int).push(all[i as int]));
        i += 1;
    }
    assert(all.take(i as int) =~= all);
    match builder_finish(builder) {
        Ok(done) => Ok(done),
        Err(_) => Err(MultipartFailure::Finish),
    }
}

} // verus!
