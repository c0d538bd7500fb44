//! The registry side of images: finding an image by tag, naming a manifest
//! by its digest, and reading the registry's answer to a delete.
use vstd::prelude::*;
use sha2::Digest;
use crate::error::{AcmError, ErrorKind, is_error};
use crate::image_import::Image;
use crate::text::{decimal, decimal_of, hex, hex_bytes, str_eq};

verus! {

/// What SHA-256 gives for some bytes.
pub uninterp spec fn sha256_of(bytes: Seq<u8>) -> Seq<u8>;

/// Relies on sha2's `Sha256::digest`: the 32-byte digest of the input.
#[verifier::external_body]
fn sha256(bytes: &[u8]) -> (r: Vec<u8>)
    ensures
        r@ == sha256_of(bytes@),
        r@.len() == 32,
{
    sha2::Sha256::digest(bytes).to_vec()
}

/// The digest that names a manifest: `sha256:` and the lowercase hex of the
/// manifest's SHA-256.
pub open spec fn digest_name(hash: Seq<u8>) -> Seq<char> {
    "sha256:"@ + hex_bytes(hash)
}

/// The digest name of an already computed SHA-256.
pub fn digest_of_hash(hash: &[u8]) -> (r: String)
    ensures
        r@ == digest_name(hash@),
{
    let mut out = String::from_str("sha256:");
    let h = hex(hash);
    out.append(h.as_str());
    out
}

/// The digest name of a manifest.
pub fn manifest_digest(manifest: &[u8]) -> (r: String)
    ensures
        r@ == digest_name(sha256_of(manifest@)),
{
    let hash = sha256(manifest);
    digest_of_hash(hash.as_slice())
}

/// The first image with the given tag.
pub fn find_by_tag(images: &Vec<Image>, tag: &str) -> (r: Option<usize>)
    ensures
        r matches Some(i) ==> i < images@.len() && images@[i as int].tag@ == tag@
            && forall|j: int| 0 <= j < i ==> (#[trigger] images@[j]).tag@ != tag@,
        r is None ==> forall|j: int| 0 <= j < images@.len() ==> (#[trigger] images@[j]).tag@ != tag@,
{
    let mut i: usize = 0;
    while i < images.len()
        invariant
            i <= images@.len(),
            forall|j: int| 0 <= j < i ==> (#[trigger] images@[j]).tag@ != tag@,
        decreases images@.len() - i,
    {
        if str_eq(images[i].tag.as_str(), tag) {
            return Some(i);
        }
        i = i + 1;
    }
    None
}

/// The image of the given tag among those listed, if any.
pub fn get(images: Vec<Image>, tag: &str) -> (r: Option<Image>)
    ensures
        r matches Some(im) ==> im.tag@ == tag@ && exists|i: int| 0 <= i < images@.len() && images@[i] == im,
        r is None ==> forall|j: int| 0 <= j < images@.len() ==> (#[trigger] images@[j]).tag@ != tag@,
{
    match find_by_tag(&images, tag) {
        None => None,
        Some(i) => {
            let mut images = images;
            let ghost all = images@;
            let im = images.swap_remove(i);
            assert(all[i as int] == im);
            Some(im)
        },
    }
}

/// The HTTP status of a delete that the registry accepted.
pub const ACCEPTED_STATUS: u16 = 202;
/// The HTTP status of a delete of an image that does not exist.
pub const MISSING_STATUS: u16 = 404;

/// The outcome of asking the registry to delete a manifest: accepted and
/// missing images count as deleted; any other status is an error whose cause
/// is the status code.
pub fn image_delete_outcome(status: u16) -> (r: Result<(), AcmError>)
    ensures
        r is Ok <==> (status == ACCEPTED_STATUS || status == MISSING_STATUS),
        r matches Err(e) ==> e.kind == ErrorKind::ImageDeleteError,
        r matches Err(e) ==> (e.cause matches Some(c) && c@ == decimal_of(status as int)),
{
    if status == ACCEPTED_STATUS || status == MISSING_STATUS {
        Ok(())
    } else {
        Err(AcmError::new(ErrorKind::ImageDeleteError, Some(decimal(status as i64))))
    }
}

/// One failure that ECR reported for a batch delete.
pub struct EcrUninstallFailure {
    pub image_tag: String,
    pub failure_code: String,
    pub failure_reason: String,
}

/// The outcome of an ECR batch delete of one tag: without failures, or when
/// the first failure says that the image was not found, the tag is gone;
/// any other first failure is an error whose cause is its reason.
pub fn ecr_uninstall_outcome(failures: &Vec<EcrUninstallFailure>) -> (r: Result<(), AcmError>)
    ensures
        r is Ok <==> (failures@.len() == 0 || failures@[0].failure_code@ == "ImageNotFound"@),
        r matches Err(e) ==> is_error(e, ErrorKind::EcrUninstallError, Some(failures@[0].failure_reason)),
{
    if failures.len() == 0 {
        return Ok(());
    }
    let first = &failures[0];
    if str_eq(first.failure_code.as_str(), "ImageNotFound") {
        Ok(())
    } else {
        Err(AcmError::new(ErrorKind::EcrUninstallError, Some(first.failure_reason.clone())))
    }
}

} // verus!
