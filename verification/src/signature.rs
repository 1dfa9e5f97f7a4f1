//! Signature profiles: one document for each name, and the images that the
//! profiles refer to.

use crate::error::{DocumentKind, StoreError};
use crate::found::Found;
use crate::layout::{document_names, signature_file, signatures_path, stems_of, RelPath};
use std::collections::HashMap;
use vstd::prelude::*;

verus! {

/// A signature profile. Its `signature_name` is what it is stored and asked
/// for under; the location holds a name and an address.
#[derive(Clone, Debug, PartialEq, Eq)]
pub struct Signature {
    pub signature_name: String,
    pub name: String,
    pub position: String,
    pub department: String,
    pub company: String,
    pub location: HashMap<String, String>,
    pub image_filename: String,
}

/// The text that `base64` writes for bytes in the standard alphabet with
/// padding.
pub uninterp spec fn base64_standard(bytes: Seq<u8>) -> Seq<char>;

/// Whether the encoded form of `len` bytes has a length that fits the
/// machine: four characters for every three bytes begun.
pub open spec fn encodable(len: nat) -> bool {
    (len / 3 + 1) * 4 <= usize::MAX
}

/// `Engine::encode` of `base64` on its `STANDARD` engine. The text depends
/// on the bytes alone. The call does not return where the length of the
/// text overflows, so such input is kept out.
#[verifier::external_body]
fn encode_standard(bytes: &Vec<u8>) -> (text: String)
    requires
        encodable(bytes@.len()),
    ensures
        text@ == base64_standard(bytes@),
{
    base64::Engine::encode(&base64::engine::general_purpose::STANDARD, bytes)
}

/// What loading a signature profile gives for what was found at its place.
pub open spec fn signature_loaded(name: String, found: Found<Signature>) -> Result<
    Signature,
    StoreError,
> {
    match found {
        Found::Absent => Err(StoreError::NotFound { kind: DocumentKind::Signature, name }),
        Found::Unreadable(text) => Err(StoreError::Io(text)),
        Found::Corrupt(text) => Err(StoreError::Decode(text)),
        Found::Present(signature) => Ok(signature),
    }
}

/// Whether `r` is what encoding an image gives for what was found at its
/// place.
pub open spec fn image_encoded(
    filename: String,
    found: Found<Vec<u8>>,
    r: Result<String, StoreError>,
) -> bool {
    match found {
        Found::Absent => r == Err::<String, StoreError>(
            StoreError::NotFound { kind: DocumentKind::Image, name: filename },
        ),
        Found::Unreadable(text) => r == Err::<String, StoreError>(StoreError::Io(text)),
        Found::Corrupt(text) => r == Err::<String, StoreError>(StoreError::Decode(text)),
        Found::Present(bytes) => r matches Ok(text) && text@ == base64_standard(bytes@),
    }
}

/// Loads the signature profile `name` from what was found at its place. A
/// profile that is absent is a failure of its own kind, one that could not be
/// read or is no profile fails too, and none of them is replaced by a
/// default.
pub fn load_signature_file(name: String, found: Found<Signature>) -> (r: Result<
    Signature,
    StoreError,
>)
    ensures
        r == signature_loaded(name, found),
{
    match found {
        Found::Absent => Err(StoreError::NotFound { kind: DocumentKind::Signature, name }),
        Found::Unreadable(text) => Err(StoreError::Io(text)),
        Found::Corrupt(text) => Err(StoreError::Decode(text)),
        Found::Present(signature) => Ok(signature),
    }
}

/// Where `signature` is saved: the file of its `signature_name`.
pub fn save_signature_to_file(signature: &Signature) -> (path: RelPath)
    ensures
        path@ == signatures_path().push(signature.signature_name@ + ".json"@),
{
    signature_file(signature.signature_name.as_str())
}

/// The file that deleting the signature profile `name` removes. That it is
/// absent already is no failure.
pub fn delete_signature_file(name: &str) -> (path: RelPath)
    ensures
        path@ == signatures_path().push(name@ + ".json"@),
{
    signature_file(name)
}

/// The names of the signature profiles among the files listed in the
/// directory of the signatures: the stems of the files with the extension
/// `json`, in the order of the listing.
pub fn load_signatures(file_names: &Vec<String>) -> (names: Vec<String>)
    ensures
        names.deep_view() == stems_of(file_names.deep_view(), "json"@),
{
    document_names(file_names, "json")
}

/// The image `filename` of a signature in text form, from what was found at
/// its place: the bytes in base64, standard alphabet, padded. An image that
/// is absent is a failure of its own kind.
pub fn get_signature_image_base64(filename: String, found: Found<Vec<u8>>) -> (r: Result<
    String,
    StoreError,
>)
    requires
        found matches Found::Present(bytes) ==> encodable(bytes@.len()),
    ensures
        image_encoded(filename, found, r),
{
    match found {
        Found::Absent => Err(StoreError::NotFound { kind: DocumentKind::Image, name: filename }),
        Found::Unreadable(text) => Err(StoreError::Io(text)),
        Found::Corrupt(text) => Err(StoreError::Decode(text)),
        Found::Present(bytes) => Ok(encode_standard(&bytes)),
    }
}

} // verus!
