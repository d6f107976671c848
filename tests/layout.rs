use ghcr::ghcr::{Ghcr, GhcrError};
use ghcr::json::{block_text, decimal_text, quote};
use ghcr::oci::image::{
    image_config_text, image_index_text, image_layout_text, image_manifest_text, ref_name,
    write_hash, Annotation, Descriptor, DocumentKind, Image, Layer, Platform,
};
use ghcr::oci::schema::{
    refs_stay_outside_text, verdict, Schema, Violation, SchemaDoc, SchemaError, IMAGE_CONFIG_SCHEMA_URI, IMAGE_INDEX_SCHEMA_URI,
};

fn text(v: Vec<char>) -> String {
    v.into_iter().collect()
}

fn permissive_schema() -> Schema {
    let mut schema = Schema::new();
    for doc in SchemaDoc::all() {
        schema.register(doc, "{}".to_string());
    }
    schema
}

fn sample_layer() -> Layer {
    Layer {
        digest: "ab".repeat(32),
        size: 1234,
        title: "/tmp/archive.tar.gz".to_string(),
        diff_digest: [0xde, 0xad, 0xbe, 0xef].repeat(8),
    }
}

fn sample_ghcr() -> Ghcr {
    match Ghcr::new(
        "Ken-Matsui".to_string(),
        "ghcr".to_string(),
        Some("user".to_string()),
        Some("SECRET-REDACTED".to_string()),
        true,
    ) {
        Ok(g) => g,
        Err(_) => panic!("credentials were given"),
    }
}

#[test]
fn quote_escapes_specials() {
    assert_eq!(text(quote("a\"b\\c\nd\u{1}é")), "\"a\\\"b\\\\c\\nd\\u0001é\"");
    assert_eq!(text(quote("")), "\"\"");
}

#[test]
fn decimal_numerals() {
    assert_eq!(text(decimal_text(0)), "0");
    assert_eq!(text(decimal_text(1234)), "1234");
    assert_eq!(text(decimal_text(u64::MAX)), u64::MAX.to_string());
}

#[test]
fn empty_and_nested_blocks() {
    assert_eq!(text(block_text(0, '{', '}', &vec![])), "{}");
    let items = vec!["1".chars().collect(), "2".chars().collect()];
    assert_eq!(text(block_text(1, '[', ']', &items)), "[\n    1,\n    2\n  ]");
}

#[test]
fn layout_marker_text() {
    assert_eq!(text(image_layout_text()), "{\n  \"imageLayoutVersion\": \"1.0.0\"\n}");
}

#[test]
fn config_text_is_pretty_json() {
    let t = text(image_config_text("amd64", "linux", &vec!["00ff".to_string()]));
    assert_eq!(
        t,
        "{\n  \"architecture\": \"amd64\",\n  \"os\": \"linux\",\n  \"rootfs\": {\n    \"diff_ids\": [\n      \"sha256:00ff\"\n    ],\n    \"type\": \"layers\"\n  }\n}"
    );
    let v: serde_json::Value = serde_json::from_str(&t).unwrap();
    assert_eq!(v["rootfs"]["diff_ids"][0], "sha256:00ff");
}

#[test]
fn manifest_and_index_parse_back() {
    let config = Descriptor {
        media_type: "application/vnd.oci.image.config.v1+json".to_string(),
        digest: "12".repeat(32),
        size: 99,
        platform: None,
        annotations: vec![],
    };
    let layer = Descriptor {
        media_type: "application/vnd.oci.image.layer.v1.tar+gzip".to_string(),
        digest: "34".repeat(32),
        size: 7,
        platform: Some(Platform { architecture: "amd64".to_string(), os: "linux".to_string() }),
        annotations: ref_name("1.0"),
    };
    let m = text(image_manifest_text(&config, &vec![layer], &ref_name("1.0")));
    let v: serde_json::Value = serde_json::from_str(&m).unwrap();
    assert_eq!(v["schemaVersion"], 2);
    assert_eq!(v["config"]["size"], 99);
    assert_eq!(v["layers"][0]["platform"]["os"], "linux");
    assert_eq!(v["annotations"]["org.opencontainers.image.ref.name"], "1.0");
    let i = text(image_index_text(&vec![], &vec![]));
    assert_eq!(i, "{\n  \"manifests\": [],\n  \"schemaVersion\": 2\n}");
}

#[test]
fn write_hash_names_blob_by_digest() {
    let (file, digest, size) = write_hash(&"hello".chars().collect(), None);
    assert_eq!(digest, "2cf24dba5fb0a30e26e83b2ac5b9e29e1b161e5c1fa7425e73043362938b9824");
    assert_eq!(file.path, format!("blobs/sha256/{digest}"));
    assert_eq!(file.content, "hello");
    assert_eq!(size, 5);
    let (named, _, wide) = write_hash(&"é".chars().collect(), Some("index.json"));
    assert_eq!(named.path, "index.json");
    assert_eq!(wide, 2);
}

#[test]
fn registry_lookup_and_unknown_uri() {
    let mut schema = Schema::new();
    schema.register(SchemaDoc::Config, "{\"type\": \"object\", \"required\": [\"rootfs\"]}".to_string());
    assert!(schema.validate_schema(IMAGE_CONFIG_SCHEMA_URI, "{\"rootfs\": {}}").is_ok());
    match schema.validate_schema(IMAGE_CONFIG_SCHEMA_URI, "{\"architecture\": \"amd64\"}") {
        Err(SchemaError::Invalid(v)) => assert!(!v.is_empty()),
        _ => panic!("a config without rootfs must be rejected"),
    }
    assert!(matches!(
        schema.validate_schema(IMAGE_INDEX_SCHEMA_URI, "{}"),
        Err(SchemaError::UnknownSchema)
    ));
}

#[test]
fn schema_urls_are_pinned() {
    assert_eq!(
        SchemaDoc::Config.url(),
        "https://raw.githubusercontent.com/opencontainers/image-spec/170393e57ed656f7f81c3070bfa8c3346eaa0a5a/schema/config-schema.json"
    );
    assert_eq!(SchemaDoc::Defs.uris().len(), 6);
    assert_eq!(SchemaDoc::all().len(), 7);
}

#[test]
fn layout_is_deterministic_and_walkable() {
    let image = Image::new(permissive_schema());
    let g = sample_ghcr();
    let layer = sample_layer();
    let a = match g.build_layout(&image, &layer, "test-org/test", "0.1.0") {
        Ok(f) => f,
        Err(_) => panic!("permissive schemas accept every document"),
    };
    let b = match g.build_layout(&image, &layer, "test-org/test", "0.1.0") {
        Ok(f) => f,
        Err(_) => panic!("permissive schemas accept every document"),
    };
    assert_eq!(a.len(), 5);
    for (x, y) in a.iter().zip(b.iter()) {
        assert_eq!(x.path, y.path);
        assert_eq!(x.content, y.content);
    }
    assert_eq!(a[0].path, "oci-layout");
    assert_eq!(a[4].path, "index.json");
    for f in &a[1..4] {
        assert_eq!(f.path, format!("blobs/sha256/{}", sha256::digest(f.content.as_str())));
    }
    let find = |digest: &str| {
        let hex = digest.strip_prefix("sha256:").unwrap();
        a.iter().find(|f| f.path == format!("blobs/sha256/{hex}")).unwrap()
    };
    let top: serde_json::Value = serde_json::from_str(&a[4].content).unwrap();
    let index_file = find(top["manifests"][0]["digest"].as_str().unwrap());
    assert_eq!(top["manifests"][0]["size"], index_file.content.len());
    let index: serde_json::Value = serde_json::from_str(&index_file.content).unwrap();
    let manifest_file = find(index["manifests"][0]["digest"].as_str().unwrap());
    assert_eq!(index["manifests"][0]["size"], manifest_file.content.len());
    assert_eq!(index["manifests"][0]["platform"]["architecture"], "amd64");
    let manifest: serde_json::Value = serde_json::from_str(&manifest_file.content).unwrap();
    let config_file = find(manifest["config"]["digest"].as_str().unwrap());
    assert_eq!(manifest["config"]["size"], config_file.content.len());
    assert_eq!(manifest["layers"][0]["digest"], format!("sha256:{}", "ab".repeat(32)));
    assert_eq!(manifest["layers"][0]["size"], 1234);
    assert_eq!(manifest["annotations"]["org.opencontainers.image.title"], "test-org/test");
    assert_eq!(manifest["annotations"]["org.opencontainers.image.vendor"], "Ken-Matsui");
    let config: serde_json::Value = serde_json::from_str(&config_file.content).unwrap();
    assert_eq!(config["rootfs"]["diff_ids"][0], format!("sha256:{}", "deadbeef".repeat(8)));
}

#[test]
fn rejected_config_stops_the_build() {
    let mut schema = permissive_schema();
    schema.register(SchemaDoc::Config, "{\"required\": [\"missing\"]}".to_string());
    let image = Image::new(schema);
    match sample_ghcr().build_layout(&image, &sample_layer(), "n", "1") {
        Err(e) => {
            assert!(e.document == DocumentKind::ImageConfig);
            assert!(matches!(e.error, SchemaError::Invalid(_)));
        },
        Ok(_) => panic!("the config breaks its schema"),
    }
}

#[test]
fn missing_schema_rejects_the_marker() {
    let image = Image::new(Schema::new());
    match image.write_image_layout() {
        Err(e) => assert!(e.document == DocumentKind::ImageLayout),
        Ok(_) => panic!("no schema is registered"),
    }
}

#[test]
fn preconditions_in_order() {
    let mk = |u: Option<&str>, t: Option<&str>, found: bool| {
        Ghcr::new("o".to_string(), "r".to_string(), u.map(String::from), t.map(String::from), found)
    };
    assert!(matches!(mk(None, None, true), Err(GhcrError::MissingUser)));
    assert!(matches!(mk(Some("u"), None, true), Err(GhcrError::MissingToken)));
    assert!(matches!(mk(Some("u"), Some("t"), false), Err(GhcrError::MissingTool)));
    assert!(mk(Some("u"), Some("t"), true).is_ok());
}

#[test]
fn root_url_lowercases_org() {
    assert_eq!(Ghcr::root_url("docker://ghcr.io/", "Ken-Matsui", "Repo"), "docker://ghcr.io/ken-matsui/Repo");
}

#[test]
fn inspect_arguments() {
    let args = sample_ghcr().inspect_args("test-org/test", "0.1.0");
    assert_eq!(
        args,
        vec![
            "inspect".to_string(),
            "--raw".to_string(),
            "docker://ghcr.io/ken-matsui/ghcr/test-org/test:0.1.0".to_string(),
            "--creds=user:SECRET-REDACTED".to_string(),
        ]
    );
}

#[test]
fn existing_image_is_a_conflict() {
    let g = sample_ghcr();
    match g.check_existence("test-org/test", "0.1.0", true) {
        Err(GhcrError::AlreadyExists { name, version }) => {
            assert_eq!(name, "test-org/test");
            assert_eq!(version, "0.1.0");
        },
        _ => panic!("an existing image must be refused"),
    }
    assert!(matches!(g.check_existence("x", "1", false), Ok(n) if n == "x"));
}

#[test]
fn working_dir_has_no_separator() {
    assert_eq!(Ghcr::working_dir_name("test-org/test", "0.1.0"), "test-org-test--0.1.0");
    assert_eq!(Ghcr::working_dir_name("a/../b", "1"), "a-..-b--1");
}

#[test]
fn package_annotations_sorted() {
    let anns: Vec<Annotation> = sample_ghcr().package_annotations("n", "2");
    let keys: Vec<&str> = anns.iter().map(|a| a.key.as_str()).collect();
    let mut sorted = keys.clone();
    sorted.sort();
    assert_eq!(keys, sorted);
    assert_eq!(anns[0].value, "container");
}

#[test]
fn self_reference_is_not_evaluated() {
    let mut schema = Schema::new();
    schema.register(SchemaDoc::Config, "{\"$ref\": \"#\"}".to_string());
    assert!(matches!(
        schema.validate_schema(IMAGE_CONFIG_SCHEMA_URI, "{}"),
        Err(SchemaError::UnsupportedReference)
    ));
    assert!(!refs_stay_outside_text("{\"$id\": \"http://a\", \"$ref\": \"http://a\"}"));
    assert!(!refs_stay_outside_text("{\"\\u0024ref\": \"#\"}"));
    assert!(!refs_stay_outside_text("{\"$ref\": \"a/../\"}"));
}

#[test]
fn reference_to_another_file_is_evaluated() {
    let text = "{\"type\": \"object\", \"properties\": {\"size\": {\"$ref\": \"defs.json#/definitions/int64\"}}, \"required\": [\"size\"]}";
    assert!(refs_stay_outside_text(text));
    let mut schema = Schema::new();
    schema.register(SchemaDoc::Config, text.to_string());
    assert!(schema.validate_schema(IMAGE_CONFIG_SCHEMA_URI, "{\"size\": 3}").is_ok());
    assert!(matches!(
        schema.validate_schema(IMAGE_CONFIG_SCHEMA_URI, "{}"),
        Err(SchemaError::Invalid(_))
    ));
}

#[test]
fn every_violation_is_reported() {
    let mut schema = Schema::new();
    schema.register(
        SchemaDoc::Config,
        "{\"properties\": {\"a\": {\"type\": \"string\"}, \"b\": {\"type\": \"string\"}}}".to_string(),
    );
    match schema.validate_schema(IMAGE_CONFIG_SCHEMA_URI, "{\"a\": 1, \"b\": 2}") {
        Err(SchemaError::Invalid(v)) => {
            assert_eq!(v.len(), 2);
            let mut places: Vec<String> = v.iter().map(|x| x.location.clone()).collect();
            places.sort();
            assert_eq!(places, vec!["/a".to_string(), "/b".to_string()]);
        },
        _ => panic!("both members break the schema"),
    }
}

#[test]
fn layer_well_formedness() {
    assert!(sample_layer().is_well_formed());
    let mut short = sample_layer();
    short.diff_digest = vec![1, 2, 3];
    assert!(!short.is_well_formed());
    let mut upper = sample_layer();
    upper.digest = "AB".repeat(32);
    assert!(!upper.is_well_formed());
}

#[test]
fn verdict_of_violations() {
    assert!(verdict(vec![]).is_ok());
    let v = Violation { location: "/rootfs".to_string(), message: "Required".to_string() };
    match verdict(vec![v]) {
        Err(SchemaError::Invalid(list)) => {
            assert_eq!(list.len(), 1);
            assert_eq!(list[0].location, "/rootfs");
            assert_eq!(list[0].message, "Required");
        },
        _ => panic!("a violation rejects the document"),
    }
}
