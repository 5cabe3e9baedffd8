//! The model registry service: its URLs, the answers of its resolver, whether a
//! pull is reported, and how a refused download is explained.
use vstd::prelude::*;
use crate::text::{chars_of, concat_chars, concat_str, string_of, trim, trim_chars, trim_end_char, trim_end_char_chars};

verus! {

/// Client of the remote model registry, rooted at a base URL.
pub struct RegistryClient {
    base_url: String,
}

impl RegistryClient {
    /// The base URL without trailing slashes.
    pub closed spec fn base_spec(&self) -> Seq<char> {
        self.base_url@
    }

    /// A client for `base_url`, its trailing slashes removed.
    pub fn new(base_url: String) -> (r: Self)
        ensures
            r.base_spec() == trim_end_char(base_url@, '/'),
    {
        let c = chars_of(base_url.as_str());
        RegistryClient { base_url: string_of(&trim_end_char_chars(&c, '/')) }
    }

    /// The base URL.
    pub fn base_url(&self) -> (r: &str)
        ensures
            r@ == self.base_spec(),
    {
        self.base_url.as_str()
    }

    /// URL of the master index: `<base>/index.json`.
    pub fn index_url(&self) -> (r: String)
        ensures
            r@ == self.base_spec() + "/index.json"@,
    {
        let b = chars_of(self.base_url.as_str());
        string_of(&concat_str(&b, "/index.json"))
    }

    /// URL of a variant's manifest: `<base>/library/<family>/v-<version>/<id>.json`.
    pub fn manifest_url(&self, family: &str, version: &str, id: &str) -> (r: String)
        ensures
            r@ == self.base_spec() + "/library/"@ + family@ + "/v-"@ + version@ + "/"@ + id@ + ".json"@,
    {
        let b = chars_of(self.base_url.as_str());
        let u1 = concat_str(&b, "/library/");
        let u2 = concat_str(&u1, family);
        let u3 = concat_str(&u2, "/v-");
        let u4 = concat_str(&u3, version);
        let u5 = concat_str(&u4, "/");
        let u6 = concat_str(&u5, id);
        string_of(&concat_str(&u6, ".json"))
    }
}

/// A pull is reported unless `DO_NOT_TRACK` is `1`, `CLUAIZ_TELEMETRY` is `0`,
/// or the model id is blank.
pub open spec fn telemetry_allowed_spec(do_not_track: Option<Seq<char>>, telemetry: Option<Seq<char>>, target_id: Seq<char>) -> bool {
    &&& do_not_track != Some("1"@)
    &&& telemetry != Some("0"@)
    &&& trim(target_id).len() > 0
}

/// Should a model pull be reported, given the two opt-out variables (when set)
/// and the pulled id?
pub fn telemetry_allowed(do_not_track: Option<&str>, telemetry: Option<&str>, target_id: &str) -> (r: bool)
    ensures
        r == telemetry_allowed_spec(
            crate::text::opt_str_view(do_not_track),
            crate::text::opt_str_view(telemetry),
            target_id@,
        ),
{
    proof {
        reveal_strlit("1");
        reveal_strlit("0");
    }
    let dnt = match do_not_track {
        Some(v) => {
            let c = chars_of(v);
            crate::text::eq_str(&c, "1")
        },
        None => false,
    };
    let off = match telemetry {
        Some(v) => {
            let c = chars_of(v);
            crate::text::eq_str(&c, "0")
        },
        None => false,
    };
    let id = trim_chars(&chars_of(target_id));
    !dnt && !off && id.len() > 0
}

/// The id sent to the resolver: the trimmed model id, or nothing when it is blank.
pub fn resolver_query_id(model_id: &str) -> (r: Option<String>)
    ensures
        match r {
            Some(s) => trim(model_id@).len() > 0 && s@ == trim(model_id@),
            None => trim(model_id@).len() == 0,
        },
{
    let t = trim_chars(&chars_of(model_id));
    if t.len() == 0 {
        None
    } else {
        Some(string_of(&t))
    }
}

/// The repository named by a resolver reply: its trimmed `hf_repo` when `found`
/// is true and the name is not blank.
pub fn resolved_repo(found: Option<bool>, hf_repo: Option<&str>) -> (r: Option<String>)
    ensures
        match r {
            Some(s) => found == Some(true) && hf_repo is Some && s@ == trim(hf_repo->0@) && s@.len() > 0,
            None => !(found == Some(true) && hf_repo is Some && trim(hf_repo->0@).len() > 0),
        },
{
    match (found, hf_repo) {
        (Some(true), Some(repo)) => {
            let t = trim_chars(&chars_of(repo));
            if t.len() == 0 {
                None
            } else {
                Some(string_of(&t))
            }
        },
        _ => None,
    }
}

/// Downloads of single files.
pub struct FileDownloader;

/// The explanation of a refused download: gated repositories (HTTP 401 or 403)
/// get instructions for setting a token; other statuses are reported as they are.
pub open spec fn download_failure_spec(code: u16, status: Seq<char>) -> Seq<char> {
    if code == 401 || code == 403 {
        GATED_PREFIX@ + status + GATED_SUFFIX@
    } else {
        "Download failed: HTTP "@ + status
    }
}

/// Start of the message for a gated repository.
pub const GATED_PREFIX: &'static str = "\u{1f512} [Gated Model Download Blocked - HTTP ";

/// Rest of the message for a gated repository, after the status.
pub const GATED_SUFFIX: &'static str = "]\nThis Hugging Face repository requires an authorized token.\n1. Accept license terms on Hugging Face.\n2. Set your token:\n   PowerShell:   $env:HF_TOKEN=\"hf_your_token\"\n   Windows CMD:  set HF_TOKEN=hf_your_token\n   Linux / Mac:  export HF_TOKEN=\"hf_your_token\"";

impl FileDownloader {
    /// The error text for a download refused with HTTP `code`, whose status line
    /// reads `status` (such as `403 Forbidden`).
    pub fn failure_message(code: u16, status: &str) -> (r: String)
        ensures
            r@ == download_failure_spec(code, status@),
    {
        let s = chars_of(status);
        if code == 401 || code == 403 {
            let p = chars_of(GATED_PREFIX);
            let a = concat_chars(&p, &s);
            string_of(&concat_str(&a, GATED_SUFFIX))
        } else {
            let p = chars_of("Download failed: HTTP ");
            string_of(&concat_chars(&p, &s))
        }
    }
}

} // verus!
