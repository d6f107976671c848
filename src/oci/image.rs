//! The documents of an OCI image layout, as text, and the layout built from
//! them: each document checked against its schema, then stored under the
//! digest of its bytes.
use vstd::prelude::*;
use vstd::string::*;
use vstd::utf8::encode_utf8;
use crate::digest::{blob_path, is_hex_digest, is_hex_digest_text, blob_path_text, hex_encode, hex_lower, prefixed, prefixed_text, sha256_hex, sha256_of_text};
use crate::json::{block, block_text, decimal, decimal_text, member, member_text, quote, quoted};
use crate::oci::schema::{
    Schema, SchemaError, Violation, IMAGE_CONFIG_SCHEMA_URI, IMAGE_INDEX_SCHEMA_URI,
    IMAGE_LAYOUT_SCHEMA_URI, IMAGE_MANIFEST_SCHEMA_URI,
};

verus! {

pub const MEDIA_TYPE_CONFIG: &'static str = "application/vnd.oci.image.config.v1+json";

pub const MEDIA_TYPE_LAYER: &'static str = "application/vnd.oci.image.layer.v1.tar+gzip";

pub const MEDIA_TYPE_MANIFEST: &'static str = "application/vnd.oci.image.manifest.v1+json";

pub const MEDIA_TYPE_INDEX: &'static str = "application/vnd.oci.image.index.v1+json";

pub const ANNOTATION_REF_NAME: &'static str = "org.opencontainers.image.ref.name";

pub const ANNOTATION_TITLE: &'static str = "org.opencontainers.image.title";

/// One annotation: a key and its value.
pub struct Annotation {
    pub key: String,
    pub value: String,
}

impl View for Annotation {
    type V = (Seq<char>, Seq<char>);

    open spec fn view(&self) -> (Seq<char>, Seq<char>) {
        (self.key@, self.value@)
    }
}

/// The platform an image runs on.
pub struct Platform {
    pub architecture: String,
    pub os: String,
}

impl View for Platform {
    type V = (Seq<char>, Seq<char>);

    open spec fn view(&self) -> (Seq<char>, Seq<char>) {
        (self.architecture@, self.os@)
    }
}

/// A reference to a blob: its media type, digest (bare hex), size in bytes,
/// the platform it is for, and annotations.
pub struct Descriptor {
    pub media_type: String,
    pub digest: String,
    pub size: u64,
    pub platform: Option<Platform>,
    pub annotations: Vec<Annotation>,
}

pub struct DescriptorModel {
    pub media_type: Seq<char>,
    pub digest: Seq<char>,
    pub size: nat,
    pub platform: Option<(Seq<char>, Seq<char>)>,
    pub annotations: Seq<(Seq<char>, Seq<char>)>,
}

pub open spec fn annotations_view(a: Seq<Annotation>) -> Seq<(Seq<char>, Seq<char>)> {
    a.map_values(|x: Annotation| x@)
}

impl View for Descriptor {
    type V = DescriptorModel;

    open spec fn view(&self) -> DescriptorModel {
        DescriptorModel {
            media_type: self.media_type@,
            digest: self.digest@,
            size: self.size as nat,
            platform: match self.platform {
                Some(p) => Some(p@),
                None => None,
            },
            annotations: annotations_view(self.annotations@),
        }
    }
}

/// `a` comes strictly before `b` in code-point order.
pub open spec fn lex_lt(a: Seq<char>, b: Seq<char>) -> bool {
    exists|k: int|
        0 <= k <= a.len() && k <= b.len() && #[trigger] a.take(k) == b.take(k) && ((k == a.len() && k
            < b.len()) || (k < a.len() && k < b.len() && (a[k] as u32) < (b[k] as u32)))
}

/// Annotation keys strictly increasing: each key once, in sorted order, as a
/// JSON object holds them.
pub open spec fn keys_increasing(a: Seq<(Seq<char>, Seq<char>)>) -> bool {
    forall|i: int| 0 <= i < a.len() - 1 ==> lex_lt(#[trigger] a[i].0, a[i + 1].0)
}

pub open spec fn descriptors_wf(ds: Seq<Descriptor>) -> bool {
    forall|i: int| 0 <= i < ds.len() ==> keys_increasing(#[trigger] ds[i]@.annotations)
}

/// An annotation map nested `level` deep, members in the given order.
pub open spec fn annotations_json(level: nat, a: Seq<(Seq<char>, Seq<char>)>) -> Seq<char> {
    block(level, '{', '}', a.map_values(|x: (Seq<char>, Seq<char>)| member(x.0, quoted(x.1))))
}

pub open spec fn platform_json(level: nat, p: (Seq<char>, Seq<char>)) -> Seq<char> {
    block(level, '{', '}', seq![member("architecture"@, quoted(p.0)), member("os"@, quoted(p.1))])
}

/// The members of a descriptor object, keys in sorted order; `annotations`
/// and `platform` only where there are any.
pub open spec fn descriptor_members(level: nat, d: DescriptorModel) -> Seq<Seq<char>> {
    (if d.annotations.len() > 0 {
        seq![member("annotations"@, annotations_json(level + 1, d.annotations))]
    } else {
        seq![]
    }) + seq![
        member("digest"@, quoted(prefixed(d.digest))),
        member("mediaType"@, quoted(d.media_type)),
    ] + (match d.platform {
        Some(p) => seq![member("platform"@, platform_json(level + 1, p))],
        None => seq![],
    }) + seq![member("size"@, decimal(d.size))]
}

pub open spec fn descriptor_json(level: nat, d: DescriptorModel) -> Seq<char> {
    block(level, '{', '}', descriptor_members(level, d))
}

/// An array of descriptors nested `level` deep.
pub open spec fn descriptors_json(level: nat, ds: Seq<DescriptorModel>) -> Seq<char> {
    block(level, '[', ']', ds.map_values(|d: DescriptorModel| descriptor_json(level + 1, d)))
}

proof fn lemma_chars_deep_view(v: &Vec<char>)
    ensures
        v.deep_view() == v@,
{
    assert(v.deep_view() =~= v@);
}

/// Collects rendered items, each as its text.
fn push_item(items: &mut Vec<Vec<char>>, x: Vec<char>)
    ensures
        final(items).deep_view() == old(items).deep_view().push(x@),
{
    proof {
        lemma_chars_deep_view(&x);
    }
    items.push(x);
    assert(items.deep_view() =~= old(items).deep_view().push(x@));
}

fn annotations_text(level: usize, a: &Vec<Annotation>) -> (r: Vec<char>)
    requires
        level < 16,
    ensures
        r@ == annotations_json(level as nat, annotations_view(a@)),
{
    let ghost target = annotations_view(a@).map_values(
        |x: (Seq<char>, Seq<char>)| member(x.0, quoted(x.1)),
    );
    let mut items: Vec<Vec<char>> = Vec::new();
    let mut i: usize = 0;
    while i < a.len()
        invariant
            i <= a@.len(),
            level < 16,
            target == annotations_view(a@).map_values(
                |x: (Seq<char>, Seq<char>)| member(x.0, quoted(x.1)),
            ),
            items.deep_view() == target.take(i as int),
        decreases a@.len() - i,
    {
        let v = quote(a[i].value.as_str());
        let x = member_text(a[i].key.as_str(), v);
        assert(annotations_view(a@)[i as int] == a@[i as int]@);
        assert(x@ == target[i as int]);
        push_item(&mut items, x);
        assert(target.take(i + 1) =~= target.take(i as int).push(target[i as int]));
        i = i + 1;
    }
    assert(target.take(a@.len() as int) =~= target);
    block_text(level, '{', '}', &items)
}

fn descriptor_text(level: usize, d: &Descriptor) -> (r: Vec<char>)
    requires
        level < 15,
    ensures
        r@ == descriptor_json(level as nat, d@),
{
    let mut items: Vec<Vec<char>> = Vec::new();
    if d.annotations.len() > 0 {
        push_item(&mut items, member_text("annotations", annotations_text(level + 1, &d.annotations)));
    }
    push_item(&mut items, member_text("digest", quote(prefixed_text(d.digest.as_str()).as_str())));
    push_item(&mut items, member_text("mediaType", quote(d.media_type.as_str())));
    match &d.platform {
        Some(p) => {
            let mut ps: Vec<Vec<char>> = Vec::new();
            push_item(&mut ps, member_text("architecture", quote(p.architecture.as_str())));
            push_item(&mut ps, member_text("os", quote(p.os.as_str())));
            assert(ps.deep_view() =~= seq![
                member("architecture"@, quoted(p@.0)),
                member("os"@, quoted(p@.1)),
            ]);
            push_item(&mut items, member_text("platform", block_text(level + 1, '{', '}', &ps)));
        },
        None => {},
    }
    push_item(&mut items, member_text("size", decimal_text(d.size)));
    assert(items.deep_view() =~= descriptor_members(level as nat, d@));
    block_text(level, '{', '}', &items)
}

fn descriptors_text(level: usize, ds: &Vec<Descriptor>) -> (r: Vec<char>)
    requires
        level < 14,
    ensures
        r@ == descriptors_json(level as nat, ds@.map_values(|d: Descriptor| d@)),
{
    let ghost target = ds@.map_values(|d: Descriptor| d@).map_values(
        |d: DescriptorModel| descriptor_json(level as nat + 1, d),
    );
    let mut items: Vec<Vec<char>> = Vec::new();
    let mut i: usize = 0;
    while i < ds.len()
        invariant
            i <= ds@.len(),
            level < 14,
            target == ds@.map_values(|d: Descriptor| d@).map_values(
                |d: DescriptorModel| descriptor_json(level as nat + 1, d),
            ),
            items.deep_view() == target.take(i as int),
        decreases ds@.len() - i,
    {
        let x = descriptor_text(level + 1, &ds[i]);
        assert(ds@.map_values(|d: Descriptor| d@)[i as int] == ds@[i as int]@);
        assert(x@ == target[i as int]);
        push_item(&mut items, x);
        assert(target.take(i + 1) =~= target.take(i as int).push(target[i as int]));
        i = i + 1;
    }
    assert(target.take(ds@.len() as int) =~= target);
    block_text(level, '[', ']', &items)
}

/// The layout marker: `{"imageLayoutVersion": "1.0.0"}`.
#[verifier::opaque]
pub open spec fn image_layout_json() -> Seq<char> {
    block(0, '{', '}', seq![member("imageLayoutVersion"@, quoted("1.0.0"@))])
}

/// An image config: platform, and the digests of the layers' uncompressed
/// contents in order.
#[verifier::opaque]
pub open spec fn image_config_json(arch: Seq<char>, os: Seq<char>, diff_ids: Seq<Seq<char>>) -> Seq<char> {
    block(
        0,
        '{',
        '}',
        seq![
            member("architecture"@, quoted(arch)),
            member("os"@, quoted(os)),
            member(
                "rootfs"@,
                block(
                    1,
                    '{',
                    '}',
                    seq![
                        member(
                            "diff_ids"@,
                            block(2, '[', ']', diff_ids.map_values(|h: Seq<char>| quoted(prefixed(h)))),
                        ),
                        member("type"@, quoted("layers"@)),
                    ],
                ),
            ),
        ],
    )
}

/// An image manifest: annotations, the config's descriptor, the layers'
/// descriptors, schema version 2.
#[verifier::opaque]
pub open spec fn image_manifest_json(
    config: DescriptorModel,
    layers: Seq<DescriptorModel>,
    annotations: Seq<(Seq<char>, Seq<char>)>,
) -> Seq<char> {
    block(
        0,
        '{',
        '}',
        seq![
            member("annotations"@, annotations_json(1, annotations)),
            member("config"@, descriptor_json(1, config)),
            member("layers"@, descriptors_json(1, layers)),
            member("schemaVersion"@, decimal(2)),
        ],
    )
}

/// An image index: annotations where there are any, the manifests'
/// descriptors, schema version 2.
#[verifier::opaque]
pub open spec fn image_index_json(
    manifests: Seq<DescriptorModel>,
    annotations: Seq<(Seq<char>, Seq<char>)>,
) -> Seq<char> {
    block(
        0,
        '{',
        '}',
        (if annotations.len() > 0 {
            seq![member("annotations"@, annotations_json(1, annotations))]
        } else {
            seq![]
        }) + seq![
            member("manifests"@, descriptors_json(1, manifests)),
            member("schemaVersion"@, decimal(2)),
        ],
    )
}

/// The text of the layout marker.
pub fn image_layout_text() -> (r: Vec<char>)
    ensures
        r@ == image_layout_json(),
{
    reveal(image_layout_json);
    let mut items: Vec<Vec<char>> = Vec::new();
    push_item(&mut items, member_text("imageLayoutVersion", quote("1.0.0")));
    assert(items.deep_view() =~= seq![member("imageLayoutVersion"@, quoted("1.0.0"@))]);
    block_text(0, '{', '}', &items)
}

/// The text of an image config.
pub fn image_config_text(arch: &str, os: &str, diff_ids: &Vec<String>) -> (r: Vec<char>)
    ensures
        r@ == image_config_json(arch@, os@, diff_ids@.map_values(|h: String| h@)),
{
    reveal(image_config_json);
    let ghost target = diff_ids@.map_values(|h: String| h@).map_values(
        |h: Seq<char>| quoted(prefixed(h)),
    );
    let mut ids: Vec<Vec<char>> = Vec::new();
    let mut i: usize = 0;
    while i < diff_ids.len()
        invariant
            i <= diff_ids@.len(),
            target == diff_ids@.map_values(|h: String| h@).map_values(
                |h: Seq<char>| quoted(prefixed(h)),
            ),
            ids.deep_view() == target.take(i as int),
        decreases diff_ids@.len() - i,
    {
        let x = quote(prefixed_text(diff_ids[i].as_str()).as_str());
        assert(diff_ids@.map_values(|h: String| h@)[i as int] == diff_ids@[i as int]@);
        push_item(&mut ids, x);
        assert(target.take(i + 1) =~= target.take(i as int).push(target[i as int]));
        i = i + 1;
    }
    assert(target.take(diff_ids@.len() as int) =~= target);
    let mut rootfs: Vec<Vec<char>> = Vec::new();
    push_item(&mut rootfs, member_text("diff_ids", block_text(2, '[', ']', &ids)));
    push_item(&mut rootfs, member_text("type", quote("layers")));
    let mut items: Vec<Vec<char>> = Vec::new();
    push_item(&mut items, member_text("architecture", quote(arch)));
    push_item(&mut items, member_text("os", quote(os)));
    push_item(&mut items, member_text("rootfs", block_text(1, '{', '}', &rootfs)));
    assert(items.deep_view() =~= seq![
        member("architecture"@, quoted(arch@)),
        member("os"@, quoted(os@)),
        member("rootfs"@, block(1, '{', '}', rootfs.deep_view())),
    ]);
    assert(rootfs.deep_view() =~= seq![
        member("diff_ids"@, block(2, '[', ']', target)),
        member("type"@, quoted("layers"@)),
    ]);
    block_text(0, '{', '}', &items)
}

/// The text of an image manifest.
pub fn image_manifest_text(
    config: &Descriptor,
    layers: &Vec<Descriptor>,
    annotations: &Vec<Annotation>,
) -> (r: Vec<char>)
    ensures
        r@ == image_manifest_json(
            config@,
            layers@.map_values(|d: Descriptor| d@),
            annotations_view(annotations@),
        ),
{
    reveal(image_manifest_json);
    let mut items: Vec<Vec<char>> = Vec::new();
    push_item(&mut items, member_text("annotations", annotations_text(1, annotations)));
    push_item(&mut items, member_text("config", descriptor_text(1, config)));
    push_item(&mut items, member_text("layers", descriptors_text(1, layers)));
    push_item(&mut items, member_text("schemaVersion", decimal_text(2)));
    assert(items.deep_view() =~= seq![
        member("annotations"@, annotations_json(1, annotations_view(annotations@))),
        member("config"@, descriptor_json(1, config@)),
        member("layers"@, descriptors_json(1, layers@.map_values(|d: Descriptor| d@))),
        member("schemaVersion"@, decimal(2)),
    ]);
    block_text(0, '{', '}', &items)
}

/// The text of an image index.
pub fn image_index_text(manifests: &Vec<Descriptor>, annotations: &Vec<Annotation>) -> (r: Vec<char>)
    ensures
        r@ == image_index_json(
            manifests@.map_values(|d: Descriptor| d@),
            annotations_view(annotations@),
        ),
{
    reveal(image_index_json);
    let mut items: Vec<Vec<char>> = Vec::new();
    if annotations.len() > 0 {
        push_item(&mut items, member_text("annotations", annotations_text(1, annotations)));
    }
    push_item(&mut items, member_text("manifests", descriptors_text(1, manifests)));
    push_item(&mut items, member_text("schemaVersion", decimal_text(2)));
    let ghost ann = annotations_view(annotations@);
    assert(items.deep_view() =~= (if ann.len() > 0 {
        seq![member("annotations"@, annotations_json(1, ann))]
    } else {
        seq![]
    }) + seq![
        member("manifests"@, descriptors_json(1, manifests@.map_values(|d: Descriptor| d@))),
        member("schemaVersion"@, decimal(2)),
    ]);
    block_text(0, '{', '}', &items)
}

/// The digest of a document: SHA-256 of its UTF-8 bytes.
pub open spec fn text_digest(t: Seq<char>) -> Seq<char> {
    sha256_hex(encode_utf8(t))
}

/// The size of a document: the length of its UTF-8 bytes.
pub open spec fn text_size(t: Seq<char>) -> nat {
    encode_utf8(t).len()
}

/// Relies on std's `FromIterator<char>` for `String`: the characters, in
/// order.
#[verifier::external_body]
pub(crate) fn string_of_chars(chars: &Vec<char>) -> (r: String)
    ensures
        r@ == chars@,
{
    chars.iter().collect()
}

/// A file of the layout: where it goes, relative to the layout's root, and
/// its text.
pub struct BlobFile {
    pub path: String,
    pub content: String,
}

impl View for BlobFile {
    type V = (Seq<char>, Seq<char>);

    open spec fn view(&self) -> (Seq<char>, Seq<char>) {
        (self.path@, self.content@)
    }
}

/// A document made into a file: under `filename` where one is given, else
/// under its digest in the blob directory; with its digest and size.
pub fn write_hash(text: &Vec<char>, filename: Option<&str>) -> (r: (BlobFile, String, u64))
    ensures
        r.0.content@ == text@,
        r.0.path@ == match filename {
            Some(n) => n@,
            None => blob_path(text_digest(text@)),
        },
        r.1@ == text_digest(text@),
        r.2 == text_size(text@),
{
    let content = string_of_chars(text);
    let digest = sha256_of_text(content.as_str());
    let size = content.as_str().as_bytes().len() as u64;
    let path = match filename {
        Some(n) => String::from_str(n),
        None => blob_path_text(digest.as_str()),
    };
    (BlobFile { path, content }, digest, size)
}

/// The documents of a layout, in the order they are built.
#[derive(Clone, Copy, PartialEq, Eq, Structural)]
pub enum DocumentKind {
    ImageLayout,
    ImageConfig,
    ImageManifest,
    ImageIndex,
    IndexJson,
}

/// The URI of the schema each document is checked against.
pub open spec fn schema_uri_of(d: DocumentKind) -> Seq<char> {
    match d {
        DocumentKind::ImageLayout => IMAGE_LAYOUT_SCHEMA_URI@,
        DocumentKind::ImageConfig => IMAGE_CONFIG_SCHEMA_URI@,
        DocumentKind::ImageManifest => IMAGE_MANIFEST_SCHEMA_URI@,
        DocumentKind::ImageIndex => IMAGE_INDEX_SCHEMA_URI@,
        DocumentKind::IndexJson => IMAGE_INDEX_SCHEMA_URI@,
    }
}

/// A document that did not pass its schema, and why.
pub struct LayoutError {
    pub document: DocumentKind,
    pub error: SchemaError,
}

/// The compressed layer archive, as the layout refers to it.
pub struct Layer {
    /// Digest of the compressed archive, bare hex.
    pub digest: String,
    /// Size of the compressed archive in bytes.
    pub size: u64,
    /// The archive's file name, kept as the layer's title.
    pub title: String,
    /// SHA-256 of the uncompressed archive, as 32 bytes.
    pub diff_digest: Vec<u8>,
}

pub struct LayerModel {
    pub digest: Seq<char>,
    pub size: nat,
    pub title: Seq<char>,
    pub diff_digest: Seq<u8>,
}

impl Layer {
    /// The archive's digest is 64 lower-case hex digits, and the digest of
    /// its uncompressed content is 32 bytes.
    pub open spec fn wf(&self) -> bool {
        is_hex_digest(self.digest@) && self.diff_digest@.len() == 32
    }

    pub fn is_well_formed(&self) -> (r: bool)
        ensures
            r == self.wf(),
    {
        is_hex_digest_text(self.digest.as_str()) && self.diff_digest.len() == 32
    }
}

impl View for Layer {
    type V = LayerModel;

    open spec fn view(&self) -> LayerModel {
        LayerModel {
            digest: self.digest@,
            size: self.size as nat,
            title: self.title@,
            diff_digest: self.diff_digest@,
        }
    }
}

/// The annotation that names an image's tag.
pub open spec fn ref_name_annotations(version: Seq<char>) -> Seq<(Seq<char>, Seq<char>)> {
    seq![(ANNOTATION_REF_NAME@, version)]
}

/// The config of a one-layer image for platform `p`.
pub open spec fn config_of(l: LayerModel, p: (Seq<char>, Seq<char>)) -> Seq<char> {
    image_config_json(p.0, p.1, seq![hex_lower(l.diff_digest)])
}

/// The descriptor of a stored document with media type `media_type`.
pub open spec fn document_descriptor(
    media_type: Seq<char>,
    t: Seq<char>,
    platform: Option<(Seq<char>, Seq<char>)>,
    annotations: Seq<(Seq<char>, Seq<char>)>,
) -> DescriptorModel {
    DescriptorModel {
        media_type,
        digest: text_digest(t),
        size: text_size(t),
        platform,
        annotations,
    }
}

pub open spec fn layer_descriptor(l: LayerModel) -> DescriptorModel {
    DescriptorModel {
        media_type: MEDIA_TYPE_LAYER@,
        digest: l.digest,
        size: l.size,
        platform: None,
        annotations: seq![(ANNOTATION_TITLE@, l.title)],
    }
}

pub open spec fn manifest_of(
    l: LayerModel,
    pkg: Seq<(Seq<char>, Seq<char>)>,
    p: (Seq<char>, Seq<char>),
) -> Seq<char> {
    image_manifest_json(
        document_descriptor(MEDIA_TYPE_CONFIG@, config_of(l, p), None, seq![]),
        seq![layer_descriptor(l)],
        pkg,
    )
}

pub open spec fn index_of(
    l: LayerModel,
    pkg: Seq<(Seq<char>, Seq<char>)>,
    version: Seq<char>,
    p: (Seq<char>, Seq<char>),
) -> Seq<char> {
    image_index_json(
        seq![
            document_descriptor(
                MEDIA_TYPE_MANIFEST@,
                manifest_of(l, pkg, p),
                Some(p),
                ref_name_annotations(version),
            ),
        ],
        pkg,
    )
}

pub open spec fn index_json_of(
    l: LayerModel,
    pkg: Seq<(Seq<char>, Seq<char>)>,
    version: Seq<char>,
    p: (Seq<char>, Seq<char>),
) -> Seq<char> {
    image_index_json(
        seq![
            document_descriptor(
                MEDIA_TYPE_INDEX@,
                index_of(l, pkg, version, p),
                None,
                ref_name_annotations(version),
            ),
        ],
        seq![],
    )
}

/// The files of the layout of a one-layer image, as (path, text): the
/// marker, the config, manifest and index under their digests, and
/// `index.json`. The layer archive itself goes under `blob_path(l.digest)`.
pub open spec fn layout_files(
    l: LayerModel,
    pkg: Seq<(Seq<char>, Seq<char>)>,
    version: Seq<char>,
    p: (Seq<char>, Seq<char>),
) -> Seq<(Seq<char>, Seq<char>)> {
    let config = config_of(l, p);
    let manifest = manifest_of(l, pkg, p);
    let index = index_of(l, pkg, version, p);
    seq![
        ("oci-layout"@, image_layout_json()),
        (blob_path(text_digest(config)), config),
        (blob_path(text_digest(manifest)), manifest),
        (blob_path(text_digest(index)), index),
        ("index.json"@, index_json_of(l, pkg, version, p)),
    ]
}

/// Building a layout twice from the same archive, annotations, tag and
/// platform gives the same files: every path and every text is a function of
/// those inputs alone.
pub proof fn lemma_layout_deterministic(
    l1: LayerModel,
    l2: LayerModel,
    pkg: Seq<(Seq<char>, Seq<char>)>,
    version: Seq<char>,
    p: (Seq<char>, Seq<char>),
    files1: Seq<(Seq<char>, Seq<char>)>,
    files2: Seq<(Seq<char>, Seq<char>)>,
)
    requires
        l1 == l2,
        files1 == layout_files(l1, pkg, version, p),
        files2 == layout_files(l2, pkg, version, p),
    ensures
        files1 == files2,
{
}

/// Every document of the layout but the two named files is stored under the
/// SHA-256 of its own bytes; the config's diff id is the digest of the
/// uncompressed archive, and the layer is referred to by the archive's own
/// digest.
pub proof fn lemma_blobs_named_by_digest(
    l: LayerModel,
    pkg: Seq<(Seq<char>, Seq<char>)>,
    version: Seq<char>,
    p: (Seq<char>, Seq<char>),
)
    ensures
        ({
            let f = layout_files(l, pkg, version, p);
            &&& f.len() == 5
            &&& forall|i: int| 1 <= i < 4 ==> (#[trigger] f[i]).0 == blob_path(text_digest(f[i].1))
            &&& f[0].0 == "oci-layout"@
            &&& f[4].0 == "index.json"@
            &&& f[1].1 == image_config_json(p.0, p.1, seq![hex_lower(l.diff_digest)])
            &&& layer_descriptor(l).digest == l.digest
        }),
{
}

/// The layout can be walked from `index.json`: each descriptor on the way
/// names by its digest a file of the layout, and its size is that file's
/// length in bytes; the manifest's layer descriptor names the archive by its
/// digest and size.
pub proof fn lemma_layout_walk(
    l: LayerModel,
    pkg: Seq<(Seq<char>, Seq<char>)>,
    version: Seq<char>,
    p: (Seq<char>, Seq<char>),
)
    ensures
        ({
            let f = layout_files(l, pkg, version, p);
            let top = document_descriptor(MEDIA_TYPE_INDEX@, f[3].1, None, ref_name_annotations(version));
            let man = document_descriptor(
                MEDIA_TYPE_MANIFEST@,
                f[2].1,
                Some(p),
                ref_name_annotations(version),
            );
            let cfg = document_descriptor(MEDIA_TYPE_CONFIG@, f[1].1, None, seq![]);
            &&& f[4] == ("index.json"@, image_index_json(seq![top], seq![]))
            &&& f[3].0 == blob_path(top.digest) && top.size == text_size(f[3].1)
            &&& f[3].1 == image_index_json(seq![man], pkg)
            &&& f[2].0 == blob_path(man.digest) && man.size == text_size(f[2].1)
            &&& f[2].1 == image_manifest_json(cfg, seq![layer_descriptor(l)], pkg)
            &&& f[1].0 == blob_path(cfg.digest) && cfg.size == text_size(f[1].1)
            &&& layer_descriptor(l).digest == l.digest && layer_descriptor(l).size == l.size
        }),
{
}

/// The annotation naming tag `version`.
pub fn ref_name(version: &str) -> (r: Vec<Annotation>)
    ensures
        annotations_view(r@) == ref_name_annotations(version@),
{
    let mut r: Vec<Annotation> = Vec::new();
    r.push(Annotation { key: String::from_str(ANNOTATION_REF_NAME), value: String::from_str(version) });
    assert(annotations_view(r@) =~= ref_name_annotations(version@));
    r
}

/// Builds the documents of an image layout, each behind its schema.
pub struct Image {
    pub schema: Schema,
}

impl Image {
    pub fn new(schema: Schema) -> (r: Image)
        ensures
            r.schema == schema,
    {
        Image { schema }
    }

    fn gate(&self, uri: &str, document: DocumentKind, text: &String) -> (r: Result<(), LayoutError>)
        ensures
            match r {
                Ok(()) => self.schema.verdict_fits(uri@, Ok(())),
                Err(e) => e.document == document && self.schema.verdict_fits(uri@, Err(e.error)),
            },
    {
        match self.schema.validate_schema(uri, text.as_str()) {
            Ok(()) => Ok(()),
            Err(error) => Err(LayoutError { document, error }),
        }
    }

    /// The layout marker, stored as `oci-layout`.
    pub fn write_image_layout(&self) -> (r: Result<BlobFile, LayoutError>)
        ensures
            match r {
                Ok(f) => self.schema.verdict_fits(IMAGE_LAYOUT_SCHEMA_URI@, Ok(())) && f@ == (
                "oci-layout"@,
                image_layout_json(),
                ),
                Err(e) => e.document == DocumentKind::ImageLayout && self.schema.verdict_fits(
                    IMAGE_LAYOUT_SCHEMA_URI@,
                    Err(e.error),
                ),
            },
    {
        let text = image_layout_text();
        let (file, _, _) = write_hash(&text, Some("oci-layout"));
        match self.gate(IMAGE_LAYOUT_SCHEMA_URI, DocumentKind::ImageLayout, &file.content) {
            Ok(()) => Ok(file),
            Err(e) => Err(e),
        }
    }

    /// An image config with one layer, stored under its digest; with its
    /// digest and size.
    pub fn write_image_config(&self, arch: &str, os: &str, tar_sha256: &str) -> (r: Result<
        (BlobFile, String, u64),
        LayoutError,
    >)
        ensures
            ({
                let t = image_config_json(arch@, os@, seq![tar_sha256@]);
                match r {
                    Ok((f, d, n)) => self.schema.verdict_fits(IMAGE_CONFIG_SCHEMA_URI@, Ok(())) && f@ == (
                    blob_path(text_digest(t)),
                    t,
                    ) && d@ == text_digest(t) && n == text_size(t),
                    Err(e) => e.document == DocumentKind::ImageConfig && self.schema.verdict_fits(
                        IMAGE_CONFIG_SCHEMA_URI@,
                        Err(e.error),
                    ),
                }
            }),
    {
        let mut diff_ids: Vec<String> = Vec::new();
        diff_ids.push(String::from_str(tar_sha256));
        assert(diff_ids@.map_values(|h: String| h@) =~= seq![tar_sha256@]);
        let text = image_config_text(arch, os, &diff_ids);
        let stored = write_hash(&text, None);
        match self.gate(IMAGE_CONFIG_SCHEMA_URI, DocumentKind::ImageConfig, &stored.0.content) {
            Ok(()) => Ok(stored),
            Err(e) => Err(e),
        }
    }

    /// An image manifest, stored under its digest; with its digest and size.
    pub fn write_image_manifest(
        &self,
        config: &Descriptor,
        layers: &Vec<Descriptor>,
        annotations: &Vec<Annotation>,
    ) -> (r: Result<(BlobFile, String, u64), LayoutError>)
        requires
            keys_increasing(config@.annotations),
            descriptors_wf(layers@),
            keys_increasing(annotations_view(annotations@)),
        ensures
            ({
                let t = image_manifest_json(
                    config@,
                    layers@.map_values(|d: Descriptor| d@),
                    annotations_view(annotations@),
                );
                match r {
                    Ok((f, d, n)) => self.schema.verdict_fits(IMAGE_MANIFEST_SCHEMA_URI@, Ok(())) && f@ == (
                    blob_path(text_digest(t)),
                    t,
                    ) && d@ == text_digest(t) && n == text_size(t),
                    Err(e) => e.document == DocumentKind::ImageManifest && self.schema.verdict_fits(
                        IMAGE_MANIFEST_SCHEMA_URI@,
                        Err(e.error),
                    ),
                }
            }),
    {
        let text = image_manifest_text(config, layers, annotations);
        let stored = write_hash(&text, None);
        match self.gate(IMAGE_MANIFEST_SCHEMA_URI, DocumentKind::ImageManifest, &stored.0.content) {
            Ok(()) => Ok(stored),
            Err(e) => Err(e),
        }
    }

    /// An image index, stored under its digest; with its digest and size.
    pub fn write_image_index(&self, manifests: &Vec<Descriptor>, annotations: &Vec<Annotation>) -> (r:
        Result<(BlobFile, String, u64), LayoutError>)
        requires
            descriptors_wf(manifests@),
            keys_increasing(annotations_view(annotations@)),
        ensures
            ({
                let t = image_index_json(
                    manifests@.map_values(|d: Descriptor| d@),
                    annotations_view(annotations@),
                );
                match r {
                    Ok((f, d, n)) => self.schema.verdict_fits(IMAGE_INDEX_SCHEMA_URI@, Ok(())) && f@ == (
                    blob_path(text_digest(t)),
                    t,
                    ) && d@ == text_digest(t) && n == text_size(t),
                    Err(e) => e.document == DocumentKind::ImageIndex && self.schema.verdict_fits(
                        IMAGE_INDEX_SCHEMA_URI@,
                        Err(e.error),
                    ),
                }
            }),
    {
        let text = image_index_text(manifests, annotations);
        let stored = write_hash(&text, None);
        match self.gate(IMAGE_INDEX_SCHEMA_URI, DocumentKind::ImageIndex, &stored.0.content) {
            Ok(()) => Ok(stored),
            Err(e) => Err(e),
        }
    }

    /// The top-level `index.json`: one descriptor of the image index with
    /// digest `index_json_sha256` and size `index_json_size`.
    pub fn write_index_json(
        &self,
        index_json_sha256: &str,
        index_json_size: u64,
        annotations: &Vec<Annotation>,
    ) -> (r: Result<BlobFile, LayoutError>)
        requires
            keys_increasing(annotations_view(annotations@)),
        ensures
            ({
                let t = image_index_json(
                    seq![
                        DescriptorModel {
                            media_type: MEDIA_TYPE_INDEX@,
                            digest: index_json_sha256@,
                            size: index_json_size as nat,
                            platform: None,
                            annotations: annotations_view(annotations@),
                        },
                    ],
                    seq![],
                );
                match r {
                    Ok(f) => self.schema.verdict_fits(IMAGE_INDEX_SCHEMA_URI@, Ok(())) && f@ == ("index.json"@, t),
                    Err(e) => e.document == DocumentKind::IndexJson && self.schema.verdict_fits(
                        IMAGE_INDEX_SCHEMA_URI@,
                        Err(e.error),
                    ),
                }
            }),
    {
        let mut copied: Vec<Annotation> = Vec::new();
        let mut i: usize = 0;
        while i < annotations.len()
            invariant
                i <= annotations@.len(),
                annotations_view(copied@) == annotations_view(annotations@).take(i as int),
            decreases annotations@.len() - i,
        {
            let ghost prev = copied@;
            let a = Annotation { key: annotations[i].key.clone(), value: annotations[i].value.clone() };
            assert(a@ == annotations@[i as int]@);
            copied.push(a);
            assert(annotations_view(copied@) =~= annotations_view(prev).push(a@));
            assert(annotations_view(annotations@).take(i + 1) =~= annotations_view(annotations@).take(
                i as int,
            ).push(annotations@[i as int]@));
            i = i + 1;
        }
        assert(annotations_view(annotations@).take(annotations@.len() as int) =~= annotations_view(
            annotations@,
        ));
        let descriptor = Descriptor {
            media_type: String::from_str(MEDIA_TYPE_INDEX),
            digest: String::from_str(index_json_sha256),
            size: index_json_size,
            platform: None,
            annotations: copied,
        };
        let mut manifests: Vec<Descriptor> = Vec::new();
        manifests.push(descriptor);
        let text = image_index_text(&manifests, &Vec::new());
        assert(manifests@.map_values(|d: Descriptor| d@) =~= seq![descriptor@]);
        assert(annotations_view(Seq::<Annotation>::empty()) =~= Seq::<(Seq<char>, Seq<char>)>::empty());
        let (file, _, _) = write_hash(&text, Some("index.json"));
        match self.gate(IMAGE_INDEX_SCHEMA_URI, DocumentKind::IndexJson, &file.content) {
            Ok(()) => Ok(file),
            Err(e) => Err(e),
        }
    }

    /// Every schema the layout is checked against is registered and let
    /// through, and passed its document.
    pub open spec fn all_passed(&self) -> bool {
        &&& self.schema.verdict_fits(IMAGE_LAYOUT_SCHEMA_URI@, Ok(()))
        &&& self.schema.verdict_fits(IMAGE_CONFIG_SCHEMA_URI@, Ok(()))
        &&& self.schema.verdict_fits(IMAGE_MANIFEST_SCHEMA_URI@, Ok(()))
        &&& self.schema.verdict_fits(IMAGE_INDEX_SCHEMA_URI@, Ok(()))
    }

    /// Builds the layout of a one-layer image for `platform`, annotated with
    /// `annotations` and tagged `version`, checking each document against
    /// its schema before the next is built. Stops at the first document
    /// rejected, and then hands back no file at all.
    pub fn build_layout(
        &self,
        layer: &Layer,
        annotations: &Vec<Annotation>,
        version: &str,
        platform: &Platform,
    ) -> (r: Result<Vec<BlobFile>, LayoutError>)
        requires
            layer.wf(),
            keys_increasing(annotations_view(annotations@)),
        ensures
            match r {
                Ok(files) => self.all_passed() && files@.map_values(|f: BlobFile| f@) == layout_files(
                    layer@,
                    annotations_view(annotations@),
                    version@,
                    platform@,
                ),
                Err(e) => self.schema.verdict_fits(schema_uri_of(e.document), Err(e.error)),
            },
    {
        let ghost pkg = annotations_view(annotations@);
        let oci_layout = match self.write_image_layout() {
            Ok(f) => f,
            Err(e) => return Err(e),
        };
        let diff = hex_encode(layer.diff_digest.as_slice());
        let (config_file, config_digest, config_size) = match self.write_image_config(
            platform.architecture.as_str(),
            platform.os.as_str(),
            diff.as_str(),
        ) {
            Ok(stored) => stored,
            Err(e) => return Err(e),
        };
        let config = Descriptor {
            media_type: String::from_str(MEDIA_TYPE_CONFIG),
            digest: config_digest,
            size: config_size,
            platform: None,
            annotations: Vec::new(),
        };
        assert(config@ == document_descriptor(MEDIA_TYPE_CONFIG@, config_of(layer@, platform@), None, seq![]))
            by {
            assert(annotations_view(Seq::<Annotation>::empty()) =~= Seq::<(Seq<char>, Seq<char>)>::empty());
        }
        let mut layer_annotations: Vec<Annotation> = Vec::new();
        layer_annotations.push(
            Annotation { key: String::from_str(ANNOTATION_TITLE), value: layer.title.clone() },
        );
        let mut layers: Vec<Descriptor> = Vec::new();
        layers.push(
            Descriptor {
                media_type: String::from_str(MEDIA_TYPE_LAYER),
                digest: layer.digest.clone(),
                size: layer.size,
                platform: None,
                annotations: layer_annotations,
            },
        );
        assert(annotations_view(layers@[0].annotations@) =~= seq![(ANNOTATION_TITLE@, layer@.title)]);
        assert(layers@.map_values(|d: Descriptor| d@) =~= seq![layer_descriptor(layer@)]);
        let (manifest_file, manifest_digest, manifest_size) = match self.write_image_manifest(
            &config,
            &layers,
            annotations,
        ) {
            Ok(stored) => stored,
            Err(e) => return Err(e),
        };
        let mut manifests: Vec<Descriptor> = Vec::new();
        manifests.push(
            Descriptor {
                media_type: String::from_str(MEDIA_TYPE_MANIFEST),
                digest: manifest_digest,
                size: manifest_size,
                platform: Some(
                    Platform {
                        architecture: platform.architecture.clone(),
                        os: platform.os.clone(),
                    },
                ),
                annotations: ref_name(version),
            },
        );
        assert(manifests@.map_values(|d: Descriptor| d@) =~= seq![
            document_descriptor(
                MEDIA_TYPE_MANIFEST@,
                manifest_of(layer@, pkg, platform@),
                Some(platform@),
                ref_name_annotations(version@),
            ),
        ]);
        let (index_file, index_digest, index_size) = match self.write_image_index(
            &manifests,
            annotations,
        ) {
            Ok(stored) => stored,
            Err(e) => return Err(e),
        };
        let index_json = match self.write_index_json(
            index_digest.as_str(),
            index_size,
            &ref_name(version),
        ) {
            Ok(f) => f,
            Err(e) => return Err(e),
        };
        let files = vec![oci_layout, config_file, manifest_file, index_file, index_json];
        assert(files@.map_values(|f: BlobFile| f@) =~= layout_files(layer@, pkg, version@, platform@));
        Ok(files)
    }
}

} // verus!