use aethel::storage::{
    blob_path, image_dir, index_path, layer_paths, manifest_path, prebuilt_rootfs_dir, rootfs_dir, sha256_hex, Error,
    OciIndex, OciLayer, OciManifest, OciManifestRef,
};

#[test]
fn image_paths() {
    assert_eq!(image_dir("alpine"), "images/alpine");
    assert_eq!(prebuilt_rootfs_dir("alpine"), "images/alpine/rootfs");
    assert_eq!(index_path("broken"), "images/broken/index.json");
    assert_eq!(rootfs_dir("alpine"), "rootfs/alpine");
}

#[test]
fn digest_prefix_is_stripped() {
    assert_eq!(sha256_hex(&"sha256:abc123".to_string()), Some("abc123".to_string()));
    assert_eq!(sha256_hex(&"sha512:abc123".to_string()), None);
    assert_eq!(sha256_hex(&"sha25".to_string()), None);
    assert_eq!(
        blob_path(&"alpine".to_string(), &"sha256:deadbeef".to_string()).ok().unwrap(),
        "images/alpine/blobs/sha256/deadbeef"
    );
    assert!(matches!(blob_path(&"alpine".to_string(), &"md5:x".to_string()), Err(Error::Filesystem(_))));
}

#[test]
fn manifest_is_the_first_reference() {
    let index = OciIndex {
        manifests: vec![
            OciManifestRef { digest: "sha256:m1".to_string() },
            OciManifestRef { digest: "sha256:m2".to_string() },
        ],
    };
    assert_eq!(manifest_path(&"alpine".to_string(), &index).ok().unwrap(), "images/alpine/blobs/sha256/m1");
}

#[test]
fn index_without_manifests_is_refused() {
    let index = OciIndex { manifests: vec![] };
    match manifest_path(&"alpine".to_string(), &index) {
        Err(e) => assert_eq!(e.message(), "Filesystem error: No manifests found in index.json"),
        Ok(_) => panic!("accepted"),
    }
}

#[test]
fn layers_keep_their_order() {
    let m = OciManifest {
        layers: vec![OciLayer { digest: "sha256:l1".to_string() }, OciLayer { digest: "sha256:l2".to_string() }],
    };
    assert_eq!(
        layer_paths(&"alpine".to_string(), &m).ok().unwrap(),
        vec!["images/alpine/blobs/sha256/l1".to_string(), "images/alpine/blobs/sha256/l2".to_string()]
    );
    let bad = OciManifest {
        layers: vec![OciLayer { digest: "sha256:l1".to_string() }, OciLayer { digest: "l2".to_string() }],
    };
    assert!(matches!(layer_paths(&"alpine".to_string(), &bad), Err(Error::Filesystem(_))));
    assert!(layer_paths(&"alpine".to_string(), &OciManifest { layers: vec![] }).ok().unwrap().is_empty());
}

#[test]
fn storage_error_messages() {
    assert_eq!(Error::Json("eof".to_string()).message(), "Failed to deserialize JSON from manifest: eof");
    assert_eq!(Error::Io("x".to_string()).message(), "I/O error: x");
    assert_eq!(Error::Walkdir("x".to_string()).message(), "Failed to walk directory: x");
}
