use vstd::prelude::*;
use crate::paths::{join_path, joined_path};

verus! {

/// Failures of image materialization.
pub enum Error {
    /// The image layout is not usable, with what is wrong.
    Filesystem(String),
    /// A file operation failed, with the path and the system's description.
    Io(String),
    /// A JSON document did not decode, with the decoder's description.
    Json(String),
    /// Walking a prebuilt root filesystem failed.
    Walkdir(String),
}

impl Error {
    /// Human-readable text of the error.
    pub fn message(&self) -> (r: String)
        ensures
            r@ == match self {
                Error::Filesystem(s) => "Filesystem error: "@ + s@,
                Error::Io(s) => "I/O error: "@ + s@,
                Error::Json(s) => "Failed to deserialize JSON from manifest: "@ + s@,
                Error::Walkdir(s) => "Failed to walk directory: "@ + s@,
            },
    {
        let (head, detail) = match self {
            Error::Filesystem(s) => ("Filesystem error: ", s),
            Error::Io(s) => ("I/O error: ", s),
            Error::Json(s) => ("Failed to deserialize JSON from manifest: ", s),
            Error::Walkdir(s) => ("Failed to walk directory: ", s),
        };
        let mut out = String::from_str(head);
        out.append(detail.as_str());
        out
    }
}

/// One manifest reference of an OCI image index.
pub struct OciManifestRef {
    pub digest: String,
}

/// An OCI image index (`index.json`), as far as materialization reads it.
pub struct OciIndex {
    pub manifests: Vec<OciManifestRef>,
}

/// One layer of an OCI image manifest.
pub struct OciLayer {
    pub digest: String,
}

/// An OCI image manifest, as far as materialization reads it.
pub struct OciManifest {
    pub layers: Vec<OciLayer>,
}

/// The hexadecimal part of a `sha256:<hex>` digest.
pub open spec fn digest_hex(d: Seq<char>) -> Option<Seq<char>> {
    if d.len() >= 7 && d.take(7) == "sha256:"@ {
        Some(d.skip(7))
    } else {
        None
    }
}

pub open spec fn image_dir_of(image: Seq<char>) -> Seq<char> {
    joined_path("images"@, image)
}

pub open spec fn blob_path_of(image: Seq<char>, hex: Seq<char>) -> Seq<char> {
    joined_path(joined_path(joined_path(image_dir_of(image), "blobs"@), "sha256"@), hex)
}

/// The directory of image `image`: `images/<image>`.
pub fn image_dir(image: &str) -> (r: String)
    ensures
        r@ == image_dir_of(image@),
{
    join_path("images", image)
}

/// The ready-made root filesystem an image may carry: `images/<image>/rootfs`.
pub fn prebuilt_rootfs_dir(image: &str) -> (r: String)
    ensures
        r@ == joined_path(image_dir_of(image@), "rootfs"@),
{
    join_path(image_dir(image).as_str(), "rootfs")
}

/// The OCI index of an image: `images/<image>/index.json`.
pub fn index_path(image: &str) -> (r: String)
    ensures
        r@ == joined_path(image_dir_of(image@), "index.json"@),
{
    join_path(image_dir(image).as_str(), "index.json")
}

/// Where an image's root filesystem is materialized: `rootfs/<image>`.
pub fn rootfs_dir(image: &str) -> (r: String)
    ensures
        r@ == joined_path("rootfs"@, image@),
{
    join_path("rootfs", image)
}

/// The hexadecimal part of a digest, when it has the `sha256:` prefix.
pub fn sha256_hex(digest: &String) -> (r: Option<String>)
    ensures
        r is Some <==> digest_hex(digest@) is Some,
        r matches Some(h) ==> digest_hex(digest@) == Some(h@),
{
    let d = digest.as_str();
    let n = d.unicode_len();
    if n < 7 {
        return None;
    }
    let prefix = String::from_str(d.substring_char(0, 7));
    let expected = String::from_str("sha256:");
    if prefix == expected {
        Some(String::from_str(d.substring_char(7, n)))
    } else {
        None
    }
}

/// The blob file of a digest in image `image`:
/// `images/<image>/blobs/sha256/<hex>`. A digest without the `sha256:`
/// prefix is a `Filesystem` error.
pub fn blob_path(image: &String, digest: &String) -> (r: Result<String, Error>)
    ensures
        match digest_hex(digest@) {
            Some(h) => r matches Ok(p) && p@ == blob_path_of(image@, h),
            None => r matches Err(Error::Filesystem(_)),
        },
{
    match sha256_hex(digest) {
        None => Err(Error::Filesystem(String::from_str("digest is not of the form sha256:<hex>"))),
        Some(hex) => {
            let dir = join_path(join_path(image_dir(image.as_str()).as_str(), "blobs").as_str(), "sha256");
            Ok(join_path(dir.as_str(), hex.as_str()))
        },
    }
}

/// The blob holding the manifest that the index names first. An index with
/// no manifest is a `Filesystem` error, as is a malformed digest.
pub fn manifest_path(image: &String, index: &OciIndex) -> (r: Result<String, Error>)
    ensures
        index.manifests@.len() == 0 ==> (r matches Err(Error::Filesystem(m)) && m@ == "No manifests found in index.json"@),
        index.manifests@.len() > 0 ==> match digest_hex(index.manifests@[0].digest@) {
            Some(h) => r matches Ok(p) && p@ == blob_path_of(image@, h),
            None => r matches Err(Error::Filesystem(_)),
        },
{
    if index.manifests.len() == 0 {
        return Err(Error::Filesystem(String::from_str("No manifests found in index.json")));
    }
    blob_path(image, &index.manifests[0].digest)
}

/// The blobs of the manifest's layers, in the manifest's order; a `Filesystem`
/// error when some layer's digest is malformed.
pub fn layer_paths(image: &String, manifest: &OciManifest) -> (r: Result<Vec<String>, Error>)
    ensures
        (forall|i: int| 0 <= i < manifest.layers@.len() ==> (#[trigger] digest_hex(manifest.layers@[i].digest@)) is Some)
            <==> r is Ok,
        r matches Ok(v) ==> v@.len() == manifest.layers@.len() && forall|i: int| 0 <= i < v@.len()
            ==> #[trigger] v@[i]@ == blob_path_of(image@, digest_hex(manifest.layers@[i].digest@)->Some_0),
        r matches Err(e) ==> e is Filesystem,
{
    let mut out: Vec<String> = Vec::new();
    let mut i: usize = 0;
    while i < manifest.layers.len()
        invariant
            i <= manifest.layers@.len(),
            out@.len() == i,
            forall|j: int| 0 <= j < i ==> (#[trigger] digest_hex(manifest.layers@[j].digest@)) is Some,
            forall|j: int| 0 <= j < i
                ==> #[trigger] out@[j]@ == blob_path_of(image@, digest_hex(manifest.layers@[j].digest@)->Some_0),
        decreases manifest.layers.len() - i,
    {
        match blob_path(image, &manifest.layers[i].digest) {
            Ok(p) => out.push(p),
            Err(e) => return Err(e),
        }
        i = i + 1;
    }
    Ok(out)
}

} // verus!
