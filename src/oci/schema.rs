//! The JSON Schemas of the OCI image documents, each reachable under every URI
//! that the schemas use for it, and the check of a document against one.
use vstd::prelude::*;
use vstd::string::*;
use vstd::utf8::encode_utf8;
use valico::common::error::ValicoError;

verus! {

pub const IMAGE_CONFIG_SCHEMA_URI: &'static str = "https://opencontainers.org/schema/image/config";

pub const IMAGE_INDEX_SCHEMA_URI: &'static str = "https://opencontainers.org/schema/image/index";

pub const IMAGE_LAYOUT_SCHEMA_URI: &'static str = "https://opencontainers.org/schema/image/layout";

pub const IMAGE_MANIFEST_SCHEMA_URI: &'static str = "https://opencontainers.org/schema/image/manifest";

/// The image-spec revision that schemas are fetched from, pinned so that the
/// rules cannot drift under a build.
pub const SCHEMA_BASE_URL: &'static str =
    "https://raw.githubusercontent.com/opencontainers/image-spec/170393e57ed656f7f81c3070bfa8c3346eaa0a5a/schema/";

/// One thing wrong with a document: where, and what.
pub struct Violation {
    pub location: String,
    pub message: String,
}

impl View for Violation {
    type V = (Seq<char>, Seq<char>);

    open spec fn view(&self) -> (Seq<char>, Seq<char>) {
        (self.location@, self.message@)
    }
}

/// What a check of a document against the schema text `t` may end in once
/// `t` has been let through: the document passes, or it is rejected with at
/// least one violation.
pub open spec fn checked_outcome(r: Result<(), SchemaError>) -> bool {
    match r {
        Ok(()) => true,
        Err(SchemaError::Invalid(v)) => v@.len() > 0,
        Err(_) => false,
    }
}

pub open spec fn occurs_at(t: Seq<u8>, i: int, p: Seq<u8>) -> bool {
    0 <= i && i + p.len() <= t.len() && t.subrange(i, i + p.len()) == p
}

/// `\u`
pub open spec fn unicode_escape() -> Seq<u8> {
    seq![92u8, 117u8]
}

/// `"$id"`
pub open spec fn id_key() -> Seq<u8> {
    seq![34u8, 36u8, 105u8, 100u8, 34u8]
}

/// `"$ref"`
pub open spec fn ref_key() -> Seq<u8> {
    seq![34u8, 36u8, 114u8, 101u8, 102u8, 34u8]
}

/// `"$ref": "`
pub open spec fn ref_member() -> Seq<u8> {
    seq![34u8, 36u8, 114u8, 101u8, 102u8, 34u8, 58u8, 32u8, 34u8]
}

pub open spec fn is_lower(b: u8) -> bool {
    97 <= b <= 122
}

/// A byte of a file name in a reference: `a`-`z`, `0`-`9`, `-`, `.`.
pub open spec fn name_byte(b: u8) -> bool {
    is_lower(b) || (48 <= b <= 57) || b == 45 || b == 46
}

/// A byte of a reference's fragment: a name byte, `A`-`Z`, `_`, `/`.
pub open spec fn fragment_byte(b: u8) -> bool {
    name_byte(b) || (65 <= b <= 90) || b == 95 || b == 47
}

/// From `j` on, the rest of a reference and its closing quote: name bytes,
/// then optionally `#` and fragment bytes.
pub open spec fn ref_rest(t: Seq<u8>, j: int, in_fragment: bool) -> bool
    decreases t.len() - j,
{
    if j < 0 || j >= t.len() {
        false
    } else if t[j] == 34u8 {
        true
    } else if t[j] == 35u8 && !in_fragment {
        ref_rest(t, j + 1, true)
    } else if (in_fragment && fragment_byte(t[j])) || (!in_fragment && name_byte(t[j])) {
        ref_rest(t, j + 1, in_fragment)
    } else {
        false
    }
}

/// A schema text (as UTF-8) whose references cannot resolve inside the
/// schema itself: no `\u` escape (so `"$id"` and `"$ref"` appear only as
/// written), no `"$id"`, and each `"$ref"` is written `"$ref": "name..."`
/// with a name that starts with a lower-case letter and holds no `/` or `:`
/// before `#`: a relative file name, which lands beside the schema, never on
/// it.
pub open spec fn refs_stay_outside(t: Seq<u8>) -> bool {
    forall|i: int| 0 <= i < t.len() ==> #[trigger] clean_at(t, i)
}

/// What `refs_stay_outside` asks of the text at position `i`.
pub open spec fn clean_at(t: Seq<u8>, i: int) -> bool {
    &&& !occurs_at(t, i, unicode_escape())
    &&& !occurs_at(t, i, id_key())
    &&& occurs_at(t, i, ref_key()) ==> occurs_at(t, i, ref_member()) && i + 9 < t.len() && is_lower(
        t[i + 9],
    ) && ref_rest(t, i + 9, false)
}

pub enum SchemaError {
    /// No schema was registered under the URI asked for.
    UnknownSchema,
    /// The document breaks its schema; every violation found is listed.
    Invalid(Vec<Violation>),
    /// The schema refers to itself, or could: it is not evaluated.
    UnsupportedReference,
}

/// Relies on serde_json::from_str to read both texts and on valico's
/// json_schema (a fresh Scope, compile_and_return, validate) to check the
/// document; the violations are ValidationState::errors, which is_valid
/// reports empty. A text that does not parse is one violation. valico
/// follows a `$ref` without a depth bound only when the scope resolves it;
/// in a fresh scope that needs a `$id` or a reference onto the schema
/// itself, which `requires` leaves out. Nothing is stated of the list:
/// valico compiles a schema object's keywords in the order of a std HashSet,
/// seeded anew for each set, and both the errors' order and, where a
/// keyword is malformed or stands beside `$ref`, which errors come out
/// depend on it.
#[verifier::external_body]
fn valico_violations(schema: &str, document: &str) -> (r: Vec<Violation>)
    requires
        refs_stay_outside(schema.spec_bytes()),
{
    let parsed: Result<(serde_json::Value, serde_json::Value), _> =
        serde_json::from_str(schema).and_then(|s| serde_json::from_str(document).map(|d| (s, d)));
    let (s, d) = match parsed {
        Ok(p) => p,
        Err(e) => return vec![Violation { location: String::new(), message: e.to_string() }],
    };
    match valico::json_schema::Scope::new().compile_and_return(s, false) {
        Ok(c) => c.validate(&d).errors.iter().map(|e| Violation {
            location: e.get_path().to_string(), message: e.get_title().to_string() }).collect(),
        Err(e) => vec![Violation { location: String::new(), message: format!("{e:?}") }],
    }
}

fn occurs_at_exec(t: &[u8], i: usize, p: &Vec<u8>) -> (r: bool)
    ensures
        r == occurs_at(t@, i as int, p@),
{
    if i > t.len() || p.len() > t.len() - i {
        return false;
    }
    let n = t.len();
    let mut k: usize = 0;
    while k < p.len()
        invariant
            n == t@.len(),
            i + p@.len() <= t@.len(),
            k <= p@.len(),
            forall|m: int| 0 <= m < k ==> t@[i + m] == p@[m],
        decreases p@.len() - k,
    {
        if t[i + k] != p[k] {
            assert(t@.subrange(i as int, i + p@.len())[k as int] != p@[k as int]);
            return false;
        }
        k = k + 1;
    }
    assert(t@.subrange(i as int, i + p@.len()) =~= p@);
    true
}

fn ref_rest_exec(t: &[u8], start: usize) -> (r: bool)
    ensures
        r == ref_rest(t@, start as int, false),
{
    let mut j: usize = start;
    let mut in_fragment = false;
    while j < t.len()
        invariant
            start <= j,
            ref_rest(t@, start as int, false) == ref_rest(t@, j as int, in_fragment),
        decreases t@.len() - j,
    {
        let b = t[j];
        if b == 34u8 {
            return true;
        } else if b == 35u8 && !in_fragment {
            in_fragment = true;
        } else if (in_fragment && (name_byte_exec(b) || (65 <= b && b <= 90) || b == 95 || b == 47))
            || (!in_fragment && name_byte_exec(b)) {
        } else {
            return false;
        }
        j = j + 1;
    }
    false
}

fn name_byte_exec(b: u8) -> (r: bool)
    ensures
        r == name_byte(b),
{
    (97 <= b && b <= 122) || (48 <= b && b <= 57) || b == 45 || b == 46
}

/// Whether the schema text's references all stay outside it (see
/// `refs_stay_outside`).
pub fn refs_stay_outside_text(schema: &str) -> (r: bool)
    ensures
        r == refs_stay_outside(schema.spec_bytes()),
{
    let t = schema.as_bytes();
    let esc: Vec<u8> = vec![92u8, 117u8];
    let id: Vec<u8> = vec![34u8, 36u8, 105u8, 100u8, 34u8];
    let rk: Vec<u8> = vec![34u8, 36u8, 114u8, 101u8, 102u8, 34u8];
    let rm: Vec<u8> = vec![34u8, 36u8, 114u8, 101u8, 102u8, 34u8, 58u8, 32u8, 34u8];
    assert(esc@ =~= unicode_escape());
    assert(id@ =~= id_key());
    assert(rk@ =~= ref_key());
    assert(rm@ =~= ref_member());
    let mut i: usize = 0;
    while i < t.len()
        invariant
            t@ == schema.spec_bytes(),
            esc@ == unicode_escape(),
            id@ == id_key(),
            rk@ == ref_key(),
            rm@ == ref_member(),
            i <= t@.len(),
            forall|k: int| 0 <= k < i ==> #[trigger] clean_at(t@, k),
        decreases t@.len() - i,
    {
        if occurs_at_exec(t, i, &esc) || occurs_at_exec(t, i, &id) {
            assert(!clean_at(t@, i as int));
            return false;
        }
        if occurs_at_exec(t, i, &rk) {
            if !occurs_at_exec(t, i, &rm) || i + 9 >= t.len() {
                assert(!clean_at(t@, i as int));
                return false;
            }
            if !(97 <= t[i + 9] && t[i + 9] <= 122) || !ref_rest_exec(t, i + 9) {
                assert(!clean_at(t@, i as int));
                return false;
            }
        }
        assert(clean_at(t@, i as int));
        i = i + 1;
    }
    true
}

/// The schema documents of the image spec that this library loads.
#[derive(Clone, Copy, PartialEq, Eq, Structural)]
pub enum SchemaDoc {
    ContentDescriptor,
    Defs,
    DefsDescriptor,
    Config,
    ImageIndex,
    ImageLayout,
    ImageManifest,
}

impl SchemaDoc {
    pub open spec fn basename_spec(self) -> Seq<char> {
        match self {
            SchemaDoc::ContentDescriptor => "content-descriptor"@,
            SchemaDoc::Defs => "defs"@,
            SchemaDoc::DefsDescriptor => "defs-descriptor"@,
            SchemaDoc::Config => "config-schema"@,
            SchemaDoc::ImageIndex => "image-index-schema"@,
            SchemaDoc::ImageLayout => "image-layout-schema"@,
            SchemaDoc::ImageManifest => "image-manifest-schema"@,
        }
    }

    /// The URIs under which other schemas, and this library, refer to it.
    pub open spec fn uris_spec(self) -> Seq<Seq<char>> {
        match self {
            SchemaDoc::ContentDescriptor => seq![
                "https://opencontainers.org/schema/image/content-descriptor.json"@,
            ],
            SchemaDoc::Defs => seq![
                "https://opencontainers.org/schema/defs.json"@,
                "https://opencontainers.org/schema/descriptor/defs.json"@,
                "https://opencontainers.org/schema/image/defs.json"@,
                "https://opencontainers.org/schema/image/descriptor/defs.json"@,
                "https://opencontainers.org/schema/image/index/defs.json"@,
                "https://opencontainers.org/schema/image/manifest/defs.json"@,
            ],
            SchemaDoc::DefsDescriptor => seq![
                "https://opencontainers.org/schema/descriptor.json"@,
                "https://opencontainers.org/schema/defs-descriptor.json"@,
                "https://opencontainers.org/schema/descriptor/defs-descriptor.json"@,
                "https://opencontainers.org/schema/image/defs-descriptor.json"@,
                "https://opencontainers.org/schema/image/descriptor/defs-descriptor.json"@,
                "https://opencontainers.org/schema/image/index/defs-descriptor.json"@,
                "https://opencontainers.org/schema/image/manifest/defs-descriptor.json"@,
                "https://opencontainers.org/schema/index/defs-descriptor.json"@,
            ],
            SchemaDoc::Config => seq![IMAGE_CONFIG_SCHEMA_URI@],
            SchemaDoc::ImageIndex => seq![IMAGE_INDEX_SCHEMA_URI@],
            SchemaDoc::ImageLayout => seq![IMAGE_LAYOUT_SCHEMA_URI@],
            SchemaDoc::ImageManifest => seq![IMAGE_MANIFEST_SCHEMA_URI@],
        }
    }

    /// Every schema document, in the order they are loaded.
    pub fn all() -> (r: Vec<SchemaDoc>)
        ensures
            r@ == seq![
                SchemaDoc::ContentDescriptor,
                SchemaDoc::Defs,
                SchemaDoc::DefsDescriptor,
                SchemaDoc::Config,
                SchemaDoc::ImageIndex,
                SchemaDoc::ImageLayout,
                SchemaDoc::ImageManifest,
            ],
    {
        let r = vec![
            SchemaDoc::ContentDescriptor,
            SchemaDoc::Defs,
            SchemaDoc::DefsDescriptor,
            SchemaDoc::Config,
            SchemaDoc::ImageIndex,
            SchemaDoc::ImageLayout,
            SchemaDoc::ImageManifest,
        ];
        assert(r@ =~= seq![
            SchemaDoc::ContentDescriptor,
            SchemaDoc::Defs,
            SchemaDoc::DefsDescriptor,
            SchemaDoc::Config,
            SchemaDoc::ImageIndex,
            SchemaDoc::ImageLayout,
            SchemaDoc::ImageManifest,
        ]);
        r
    }

    /// The file name of the schema in the image spec, without `.json`.
    pub fn basename(&self) -> (r: &'static str)
        ensures
            r@ == self.basename_spec(),
    {
        match self {
            SchemaDoc::ContentDescriptor => "content-descriptor",
            SchemaDoc::Defs => "defs",
            SchemaDoc::DefsDescriptor => "defs-descriptor",
            SchemaDoc::Config => "config-schema",
            SchemaDoc::ImageIndex => "image-index-schema",
            SchemaDoc::ImageLayout => "image-layout-schema",
            SchemaDoc::ImageManifest => "image-manifest-schema",
        }
    }

    pub fn uris(&self) -> (r: Vec<&'static str>)
        ensures
            r@.map_values(|u: &str| u@) == self.uris_spec(),
    {
        let r = match self {
            SchemaDoc::ContentDescriptor => vec![
                "https://opencontainers.org/schema/image/content-descriptor.json",
            ],
            SchemaDoc::Defs => vec![
                "https://opencontainers.org/schema/defs.json",
                "https://opencontainers.org/schema/descriptor/defs.json",
                "https://opencontainers.org/schema/image/defs.json",
                "https://opencontainers.org/schema/image/descriptor/defs.json",
                "https://opencontainers.org/schema/image/index/defs.json",
                "https://opencontainers.org/schema/image/manifest/defs.json",
            ],
            SchemaDoc::DefsDescriptor => vec![
                "https://opencontainers.org/schema/descriptor.json",
                "https://opencontainers.org/schema/defs-descriptor.json",
                "https://opencontainers.org/schema/descriptor/defs-descriptor.json",
                "https://opencontainers.org/schema/image/defs-descriptor.json",
                "https://opencontainers.org/schema/image/descriptor/defs-descriptor.json",
                "https://opencontainers.org/schema/image/index/defs-descriptor.json",
                "https://opencontainers.org/schema/image/manifest/defs-descriptor.json",
                "https://opencontainers.org/schema/index/defs-descriptor.json",
            ],
            SchemaDoc::Config => vec![IMAGE_CONFIG_SCHEMA_URI],
            SchemaDoc::ImageIndex => vec![IMAGE_INDEX_SCHEMA_URI],
            SchemaDoc::ImageLayout => vec![IMAGE_LAYOUT_SCHEMA_URI],
            SchemaDoc::ImageManifest => vec![IMAGE_MANIFEST_SCHEMA_URI],
        };
        assert(r@.map_values(|u: &str| u@) =~= self.uris_spec());
        r
    }

    /// Where the schema is fetched from: the pinned revision's file.
    pub fn url(&self) -> (r: String)
        ensures
            r@ == SCHEMA_BASE_URL@ + self.basename_spec() + ".json"@,
    {
        let s = String::from_str(SCHEMA_BASE_URL);
        s.concat(self.basename()).concat(".json")
    }
}

/// What `uri` finds among registrations made in this order: the latest one
/// under that URI.
pub open spec fn find(entries: Seq<(Seq<char>, Seq<char>)>, uri: Seq<char>) -> Option<Seq<char>>
    decreases entries.len(),
{
    if entries.len() == 0 {
        None
    } else if entries.last().0 == uri {
        Some(entries.last().1)
    } else {
        find(entries.drop_last(), uri)
    }
}

/// The outcome of a check that found `violations`: passed when there are
/// none, else rejected with all of them, in their order.
pub fn verdict(violations: Vec<Violation>) -> (r: Result<(), SchemaError>)
    ensures
        violations@.len() == 0 ==> r is Ok,
        violations@.len() > 0 ==> (r matches Err(SchemaError::Invalid(v)) && v@ == violations@),
{
    if violations.len() == 0 {
        Ok(())
    } else {
        Err(SchemaError::Invalid(violations))
    }
}

/// The loaded schemas, each kept as its JSON text under its URIs.
pub struct Schema {
    schema_json: Vec<(String, String)>,
}

impl Schema {
    pub closed spec fn entries(&self) -> Seq<(Seq<char>, Seq<char>)> {
        self.schema_json@.map_values(|e: (String, String)| (e.0@, e.1@))
    }

    /// The schema text registered under `uri`, if any.
    pub open spec fn lookup(&self, uri: Seq<char>) -> Option<Seq<char>> {
        find(self.entries(), uri)
    }

    /// What checking a document against the schema under `uri` may end
    /// in: no schema, a schema whose references could lead back into it, or
    /// else the document passes or is rejected with its violations.
    pub open spec fn verdict_fits(&self, uri: Seq<char>, r: Result<(), SchemaError>) -> bool {
        match self.lookup(uri) {
            None => r matches Err(SchemaError::UnknownSchema),
            Some(t) => if !refs_stay_outside(encode_utf8(t)) {
                r matches Err(SchemaError::UnsupportedReference)
            } else {
                checked_outcome(r)
            },
        }
    }

    /// A registry with no schema in it.
    pub fn new() -> (r: Schema)
        ensures
            forall|u: Seq<char>| #[trigger] r.lookup(u) is None,
    {
        let r = Schema { schema_json: Vec::new() };
        assert(r.entries() =~= Seq::<(Seq<char>, Seq<char>)>::empty());
        r
    }

    /// Registers `text` as the schema `doc`, under each of its URIs.
    pub fn register(&mut self, doc: SchemaDoc, text: String)
        ensures
            forall|u: Seq<char>| #[trigger] final(self).lookup(u) == if doc.uris_spec().contains(u) {
                Some(text@)
            } else {
                old(self).lookup(u)
            },
    {
        let uris = doc.uris();
        let ghost us = doc.uris_spec();
        let mut i: usize = 0;
        while i < uris.len()
            invariant
                i <= uris@.len(),
                us == uris@.map_values(|u: &str| u@),
                forall|u: Seq<char>| #[trigger] self.lookup(u) == if us.take(i as int).contains(u) {
                    Some(text@)
                } else {
                    old(self).lookup(u)
                },
            decreases uris@.len() - i,
        {
            let ghost prev = self.entries();
            let ghost prev_self = *self;
            self.schema_json.push((String::from_str(uris[i]), text.clone()));
            assert(self.entries() =~= prev.push((us[i as int], text@)));
            assert(self.entries().drop_last() =~= prev);
            assert(us.take(i + 1) =~= us.take(i as int).push(us[i as int]));
            assert forall|u: Seq<char>| #[trigger] self.lookup(u) == if us.take(i + 1).contains(u) {
                Some(text@)
            } else {
                old(self).lookup(u)
            } by {
                assert(self.lookup(u) == find(self.entries(), u));
                if u == us[i as int] {
                    assert(us.take(i + 1)[i as int] == u);
                } else {
                    assert(self.lookup(u) == prev_self.lookup(u));
                    assert(us.take(i + 1).contains(u) == us.take(i as int).contains(u)) by {
                        if us.take(i + 1).contains(u) {
                            let k = choose|k: int| 0 <= k < i + 1 && #[trigger] us.take(i + 1)[k] == u;
                            assert(us.take(i as int)[k] == u);
                        }
                        if us.take(i as int).contains(u) {
                            let k = choose|k: int| 0 <= k < i && #[trigger] us.take(i as int)[k] == u;
                            assert(us.take(i + 1)[k] == u);
                        }
                    }
                }
            }
            i = i + 1;
        }
        assert(us.take(uris@.len() as int) =~= us);
    }

    fn get(&self, uri: &str) -> (r: Option<&String>)
        ensures
            match r {
                Some(t) => self.lookup(uri@) == Some(t@),
                None => self.lookup(uri@) is None,
            },
    {
        let key = String::from_str(uri);
        let ghost es = self.entries();
        let mut i: usize = self.schema_json.len();
        assert(es.take(i as int) =~= es);
        while i > 0
            invariant
                i <= es.len(),
                es == self.entries(),
                key@ == uri@,
                find(es, uri@) == find(es.take(i as int), uri@),
            decreases i,
        {
            i = i - 1;
            assert(es.take(i + 1).drop_last() =~= es.take(i as int));
            assert(es[i as int] == (self.schema_json@[i as int].0@, self.schema_json@[i as int].1@));
            if self.schema_json[i].0 == key {
                return Some(&self.schema_json[i].1);
            }
        }
        None
    }

    /// Checks `document` (JSON text) against the schema registered under
    /// `uri`: an error if there is none or if its references could lead
    /// back into it; else the document passes, or is rejected with every
    /// violation the check found.
    pub fn validate_schema(&self, uri: &str, document: &str) -> (r: Result<(), SchemaError>)
        ensures
            self.verdict_fits(uri@, r),
    {
        match self.get(uri) {
            None => Err(SchemaError::UnknownSchema),
            Some(t) => {
                if !refs_stay_outside_text(t.as_str()) {
                    return Err(SchemaError::UnsupportedReference);
                }
                verdict(valico_violations(t.as_str(), document))
            },
        }
    }
}

} // verus!
