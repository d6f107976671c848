//! Publishing an image to the GitHub container registry: the credentials and
//! tool it needs, the image's address, the answer to "does it exist yet",
//! the local working directory, and the layout to push.
use vstd::prelude::*;
use vstd::string::*;
use crate::oci::image::{
    annotations_view, keys_increasing, layout_files, lex_lt, schema_uri_of, Annotation, BlobFile, Image, Layer, LayoutError, Platform,
    ANNOTATION_REF_NAME, ANNOTATION_TITLE,
};

verus! {

pub const DOMAIN: &'static str = "ghcr.io";

pub const URL_PREFIX: &'static str = "https://ghcr.io/v2/";

pub const DOCKER_PREFIX: &'static str = "docker://ghcr.io/";

/// The registry client that inspects and pushes images.
pub const SKOPEO_BINARY_NAME: &'static str = "skopeo";

pub const GITHUB_PACKAGE_TYPE: &'static str = "container";

pub const ANNOTATION_PACKAGE_TYPE: &'static str = "com.github.package.type";

pub const ANNOTATION_VENDOR: &'static str = "org.opencontainers.image.vendor";

pub const ANNOTATION_VERSION: &'static str = "org.opencontainers.image.version";

/// Images are built on, and for, x86_64 Linux.
pub const ARCH: &'static str = "amd64";

pub const OS: &'static str = "linux";

/// `s` in lower case, as Unicode defines it.
pub uninterp spec fn lower_of(s: Seq<char>) -> Seq<char>;

/// Relies on str::to_lowercase: the result depends on the characters alone.
#[verifier::external_body]
fn lowercase(s: &str) -> (r: String)
    ensures
        r@ == lower_of(s@),
{
    s.to_lowercase()
}

pub enum GhcrError {
    /// The registry user name was not given.
    MissingUser,
    /// The registry token was not given.
    MissingToken,
    /// The registry client is not installed.
    MissingTool,
    /// The image `name:version` is already in the registry.
    AlreadyExists { name: String, version: String },
}

/// A package repository `org/repo` on the registry, with the credentials to
/// reach it.
pub struct Ghcr {
    user: String,
    token: String,
    org: String,
    repo: String,
}

/// `name` with each `/` turned into `-`.
pub open spec fn sanitized(name: Seq<char>) -> Seq<char> {
    name.map_values(|c: char| if c == '/' { '-' } else { c })
}

/// The local directory an image `name:version` is laid out in.
pub open spec fn working_dir(name: Seq<char>, version: Seq<char>) -> Seq<char> {
    sanitized(name) + "--"@ + version
}

/// The annotations of a package: its type, tag, title, vendor and version,
/// keys in sorted order.
pub open spec fn package_annotations_of(
    name: Seq<char>,
    version: Seq<char>,
    org: Seq<char>,
) -> Seq<(Seq<char>, Seq<char>)> {
    seq![
        (ANNOTATION_PACKAGE_TYPE@, GITHUB_PACKAGE_TYPE@),
        (ANNOTATION_REF_NAME@, version),
        (ANNOTATION_TITLE@, name),
        (ANNOTATION_VENDOR@, org),
        (ANNOTATION_VERSION@, version),
    ]
}

/// An image name with path separators in it gives a working directory name
/// without any: the directory is made right under the current one, never
/// further down or elsewhere (for a version without separators).
pub proof fn lemma_working_dir_flat(name: Seq<char>, version: Seq<char>)
    requires
        !version.contains('/'),
    ensures
        !working_dir(name, version).contains('/'),
{
    reveal_strlit("--");
    assert("--"@ =~= seq!['-', '-']);
    let w = working_dir(name, version);
    let s = sanitized(name);
    assert forall|i: int| 0 <= i < w.len() implies w[i] != '/' by {
        if i < s.len() {
            assert(w[i] == s[i]);
        } else if i < s.len() + 2 {
            assert(w[i] == "--"@[i - s.len()]);
        } else {
            assert(w[i] == version[i - s.len() - 2]);
            assert(version.contains(version[i - s.len() - 2]));
        }
    }
}

proof fn lemma_prefix_lt(a: Seq<char>, b: Seq<char>, k: int)
    requires
        0 <= k < a.len(),
        k < b.len(),
        a.take(k) == b.take(k),
        (a[k] as u32) < (b[k] as u32),
    ensures
        lex_lt(a, b),
{
}

/// The package annotation keys are in strictly increasing order.
proof fn lemma_package_keys_increasing(name: Seq<char>, version: Seq<char>, org: Seq<char>)
    ensures
        keys_increasing(package_annotations_of(name, version, org)),
{
    reveal_strlit("com.github.package.type");
    reveal_strlit("org.opencontainers.image.ref.name");
    reveal_strlit("org.opencontainers.image.title");
    reveal_strlit("org.opencontainers.image.vendor");
    reveal_strlit("org.opencontainers.image.version");
    let a = package_annotations_of(name, version, org);
    let k0 = ANNOTATION_PACKAGE_TYPE@;
    let k1 = ANNOTATION_REF_NAME@;
    let k2 = ANNOTATION_TITLE@;
    let k3 = ANNOTATION_VENDOR@;
    let k4 = ANNOTATION_VERSION@;
    assert(k0.take(0) =~= k1.take(0));
    lemma_prefix_lt(k0, k1, 0);
    assert(k1.take(25) =~= k2.take(25));
    lemma_prefix_lt(k1, k2, 25);
    assert(k2.take(25) =~= k3.take(25));
    lemma_prefix_lt(k2, k3, 25);
    assert(k3.take(27) =~= k4.take(27));
    lemma_prefix_lt(k3, k4, 27);
    assert forall|i: int| 0 <= i < a.len() - 1 implies lex_lt(#[trigger] a[i].0, a[i + 1].0) by {
        if i == 0 {
        } else if i == 1 {
        } else if i == 2 {
        } else {
        }
    }
}

impl Ghcr {
    pub closed spec fn user_view(&self) -> Seq<char> {
        self.user@
    }

    pub closed spec fn token_view(&self) -> Seq<char> {
        self.token@
    }

    pub closed spec fn org_view(&self) -> Seq<char> {
        self.org@
    }

    pub closed spec fn repo_view(&self) -> Seq<char> {
        self.repo@
    }

    /// The credentials, in the order they are asked for, once the registry
    /// client is known to be there.
    fn precondition(user: Option<String>, token: Option<String>, tool_found: bool) -> (r: Result<
        (String, String),
        GhcrError,
    >)
        ensures
            match (user, token) {
                (Some(u), Some(t)) => if tool_found {
                    r matches Ok((ru, rt)) && ru@ == u@ && rt@ == t@
                } else {
                    r matches Err(GhcrError::MissingTool)
                },
                (None, _) => r matches Err(GhcrError::MissingUser),
                (Some(_), None) => r matches Err(GhcrError::MissingToken),
            },
    {
        let user = match user {
            Some(u) => u,
            None => return Err(GhcrError::MissingUser),
        };
        let token = match token {
            Some(t) => t,
            None => return Err(GhcrError::MissingToken),
        };
        if !tool_found {
            return Err(GhcrError::MissingTool);
        }
        Ok((user, token))
    }

    /// The repository `org/repo`, reached with `user` and `token`; an error
    /// if either is missing or the registry client is not installed.
    pub fn new(
        org: String,
        repo: String,
        user: Option<String>,
        token: Option<String>,
        tool_found: bool,
    ) -> (r: Result<Ghcr, GhcrError>)
        ensures
            match (user, token) {
                (Some(u), Some(t)) => if tool_found {
                    r matches Ok(g) && g.user_view() == u@ && g.token_view() == t@ && g.org_view()
                        == org@ && g.repo_view() == repo@
                } else {
                    r matches Err(GhcrError::MissingTool)
                },
                (None, _) => r matches Err(GhcrError::MissingUser),
                (Some(_), None) => r matches Err(GhcrError::MissingToken),
            },
    {
        let (user, token) = match Ghcr::precondition(user, token, tool_found) {
            Ok(c) => c,
            Err(e) => return Err(e),
        };
        Ok(Self { user, token, org, repo })
    }

    /// `prefix`, the organisation in lower case (registry clients insist on
    /// it), `/`, the repository.
    pub fn root_url(prefix: &str, org: &str, repo: &str) -> (r: String)
        ensures
            r@ == prefix@ + lower_of(org@) + "/"@ + repo@,
    {
        let org = lowercase(org);
        String::from_str(prefix).concat(org.as_str()).concat("/").concat(repo)
    }

    /// Where the image `name:version` is inspected and pushed.
    pub fn image_uri(&self, name: &str, version: &str) -> (r: String)
        ensures
            r@ == DOCKER_PREFIX@ + lower_of(self.org_view()) + "/"@ + self.repo_view() + "/"@ + name@
                + ":"@ + version@,
    {
        let prefix = Ghcr::root_url(DOCKER_PREFIX, self.org.as_str(), self.repo.as_str());
        prefix.concat("/").concat(name).concat(":").concat(version)
    }

    /// The arguments of the registry client's inspection of `name:version`.
    pub fn inspect_args(&self, name: &str, version: &str) -> (r: Vec<String>)
        ensures
            r@.len() == 4,
            r@[0]@ == "inspect"@,
            r@[1]@ == "--raw"@,
            r@[2]@ == DOCKER_PREFIX@ + lower_of(self.org_view()) + "/"@ + self.repo_view() + "/"@
                + name@ + ":"@ + version@,
            r@[3]@ == "--creds="@ + self.user_view() + ":"@ + self.token_view(),
    {
        let mut args: Vec<String> = Vec::new();
        args.push(String::from_str("inspect"));
        args.push(String::from_str("--raw"));
        args.push(self.image_uri(name, version));
        args.push(
            String::from_str("--creds=").concat(self.user.as_str()).concat(":").concat(
                self.token.as_str(),
            ),
        );
        args
    }

    /// What the inspection of `name:version` means: found, the image exists
    /// and must not be published again; otherwise go on with `name`.
    pub fn check_existence(&self, name: &str, version: &str, found: bool) -> (r: Result<
        String,
        GhcrError,
    >)
        ensures
            found ==> (r matches Err(GhcrError::AlreadyExists { name: n, version: v }) && n@ == name@
                && v@ == version@),
            !found ==> (r matches Ok(s) && s@ == name@),
    {
        if found {
            return Err(
                GhcrError::AlreadyExists {
                    name: String::from_str(name),
                    version: String::from_str(version),
                },
            );
        }
        Ok(String::from_str(name))
    }

    /// The local directory the image is laid out in: the name with each `/`
    /// made `-`, then `--` and the version.
    pub fn working_dir_name(image_name: &str, version: &str) -> (r: String)
        ensures
            r@ == working_dir(image_name@, version@),
    {
        let n = image_name.unicode_len();
        let mut out: Vec<char> = Vec::new();
        let mut i: usize = 0;
        while i < n
            invariant
                n == image_name@.len(),
                i <= n,
                out@ == sanitized(image_name@.take(i as int)),
            decreases n - i,
        {
            let c = image_name.get_char(i);
            out.push(if c == '/' { '-' } else { c });
            i = i + 1;
            assert(out@ =~= sanitized(image_name@.take(i as int)));
        }
        assert(image_name@.take(n as int) =~= image_name@);
        let mut v: Vec<char> = Vec::new();
        crate::json::push_str(&mut v, "--");
        crate::json::push_str(&mut v, version);
        out.append(&mut v);
        let r = crate::oci::image::string_of_chars(&out);
        assert(r@ =~= working_dir(image_name@, version@));
        r
    }

    /// The package annotations of `image_name:version` in this organisation.
    pub fn package_annotations(&self, image_name: &str, version: &str) -> (r: Vec<Annotation>)
        ensures
            annotations_view(r@) == package_annotations_of(image_name@, version@, self.org_view()),
            keys_increasing(annotations_view(r@)),
    {
        let mut r: Vec<Annotation> = Vec::new();
        r.push(Annotation { key: String::from_str(ANNOTATION_PACKAGE_TYPE), value: String::from_str(GITHUB_PACKAGE_TYPE) });
        r.push(Annotation { key: String::from_str(ANNOTATION_REF_NAME), value: String::from_str(version) });
        r.push(Annotation { key: String::from_str(ANNOTATION_TITLE), value: String::from_str(image_name) });
        r.push(Annotation { key: String::from_str(ANNOTATION_VENDOR), value: self.org.clone() });
        r.push(Annotation { key: String::from_str(ANNOTATION_VERSION), value: String::from_str(version) });
        assert(annotations_view(r@) =~= package_annotations_of(image_name@, version@, self.org_view()));
        proof {
            lemma_package_keys_increasing(image_name@, version@, self.org_view());
        }
        r
    }

    /// The layout of the image `image_name:version` with the one layer
    /// `layer`, built for amd64 Linux and checked by `image`'s schemas.
    pub fn build_layout(&self, image: &Image, layer: &Layer, image_name: &str, version: &str) -> (r:
        Result<Vec<BlobFile>, LayoutError>)
        requires
            layer.wf(),
        ensures
            ({
                let pkg = package_annotations_of(image_name@, version@, self.org_view());
                let p = (ARCH@, OS@);
                match r {
                    Ok(files) => image.all_passed() && files@.map_values(|f: BlobFile| f@)
                        == layout_files(layer@, pkg, version@, p),
                    Err(e) => image.schema.verdict_fits(schema_uri_of(e.document), Err(e.error)),
                }
            }),
    {
        let annotations = self.package_annotations(image_name, version);
        let platform = Platform { architecture: String::from_str(ARCH), os: String::from_str(OS) };
        image.build_layout(layer, &annotations, version, &platform)
    }
}

} // verus!
