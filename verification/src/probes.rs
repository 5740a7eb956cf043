//! Content checks used by the network-probing front end.
//!
//! Only the pure text predicates live here; issuing requests and reading
//! responses stays outside the library.  Each probe type is a stateless
//! marker whose checks decide, from a response body alone, whether the
//! probed service shows a known signature.

use vstd::prelude::*;

verus! {

/// `needle` occurs as a contiguous run of characters within `hay`.
pub open spec fn contains_seq(hay: Seq<char>, needle: Seq<char>) -> bool {
    exists|i: int|
        0 <= i <= hay.len() - needle.len() && #[trigger] hay.subrange(i, i + needle.len())
            == needle
}

/// `s` begins with `prefix`.
pub open spec fn starts_with_seq(s: Seq<char>, prefix: Seq<char>) -> bool {
    prefix.len() <= s.len() && s.subrange(0, prefix.len() as int) == prefix
}

/// The characters of a string lowercased as the standard library's
/// `str::to_lowercase` does; the result depends on the characters alone.
pub uninterp spec fn lower_of(s: Seq<char>) -> Seq<char>;

/// The characters of a string with leading and trailing whitespace
/// removed as the standard library's `str::trim` does; the result depends
/// on the characters alone.
pub uninterp spec fn trim_of(s: Seq<char>) -> Seq<char>;

/// Relies on `str::contains` with a string pattern: true exactly when the
/// pattern matches a sub-slice of the string.
#[verifier::external_body]
fn contains_text(hay: &str, needle: &str) -> (r: bool)
    ensures
        r == contains_seq(hay@, needle@),
{
    hay.contains(needle)
}

/// Relies on `str::to_lowercase`.
#[verifier::external_body]
fn lowercase_text(s: &str) -> (r: String)
    ensures
        r@ == lower_of(s@),
{
    s.to_lowercase()
}

/// Relies on `str::trim`.
#[verifier::external_body]
fn trim_text(s: &str) -> (r: &str)
    ensures
        r@ == trim_of(s@),
{
    s.trim()
}

/// Relies on `str::starts_with` with a string pattern: true exactly when
/// the string begins with the pattern.
#[verifier::external_body]
fn starts_with_text(s: &str, prefix: &str) -> (r: bool)
    ensures
        r == starts_with_seq(s@, prefix@),
{
    s.starts_with(prefix)
}

/// Probe for a GitLab instance that lets anybody register an account.
pub struct GitlabOpenRegistration {}

impl GitlabOpenRegistration {
    pub fn new() -> (r: GitlabOpenRegistration) {
        GitlabOpenRegistration {}
    }

    /// This probe's name.
    pub fn name(&self) -> (r: String)
        ensures
            r@ == "http/gitlab_open_regsitration"@,
    {
        "http/gitlab_open_regsitration".to_owned()
    }

    /// What this probe looks for.
    pub fn description(&self) -> (r: String)
        ensures
            r@ == "check if gitlab instace ca be registered"@,
    {
        "check if gitlab instace ca be registered".to_owned()
    }

    /// A page shows an open self-managed GitLab registration when it
    /// carries both the self-managed banner and a registration link.
    pub fn is_open_registration(&self, content: &str) -> (r: bool)
        ensures
            r == (contains_seq(content@, "This is a self-managed instance of GitLab"@)
                && contains_seq(content@, "Register"@)),
    {
        contains_text(content, "This is a self-managed instance of GitLab") && contains_text(
            content,
            "Register",
        )
    }
}

/// Probe for certificate-transparency-derived subdomain listings.
pub struct Crtsh {}

impl Crtsh {
    pub fn new() -> (r: Crtsh) {
        Crtsh {}
    }

    /// This probe's name.
    pub fn name(&self) -> (r: String)
        ensures
            r@ == "subdomains/crtsh"@,
    {
        "subdomains/crtsh".to_owned()
    }

    /// What this probe looks for.
    pub fn description(&self) -> (r: String)
        ensures
            r@ == "use crt.sh/ to find subdomains"@,
    {
        "use crt.sh/ to find subdomains".to_owned()
    }
}

/// Probe for a DNS-repository subdomain listing.
pub struct Dnsrepo {}

impl Dnsrepo {
    pub fn new() -> (r: Dnsrepo) {
        Dnsrepo {}
    }

    /// This probe's name.
    pub fn name(&self) -> (r: String)
        ensures
            r@ == "subdomains/dsrepo"@,
    {
        "subdomains/dsrepo".to_owned()
    }

    /// What this probe looks for.
    pub fn description(&self) -> (r: String)
        ensures
            r@ == "checks dnsrepo for subdomain"@,
    {
        "checks dnsrepo for subdomain".to_owned()
    }
}

/// Probe for a world-readable `.git/` directory listing.
pub struct GitDirectoryDisclosure {}

impl GitDirectoryDisclosure {
    pub fn new() -> (r: GitDirectoryDisclosure) {
        GitDirectoryDisclosure {}
    }

    /// A page is a `.git/` directory listing when it names all five of
    /// the repository's fixed top-level entries.
    pub fn is_git_directory_listing(&self, content: &str) -> (r: bool)
        ensures
            r == (contains_seq(content@, "HEAD"@) && contains_seq(content@, "refs"@)
                && contains_seq(content@, "config"@) && contains_seq(content@, "index"@)
                && contains_seq(content@, "objects"@)),
    {
        contains_text(content, "HEAD") && contains_text(content, "refs") && contains_text(
            content,
            "config",
        ) && contains_text(content, "index") && contains_text(content, "objects")
    }

    /// This probe's name.
    pub fn name(&self) -> (r: String)
        ensures
            r@ == "http/git_directory_disclosute"@,
    {
        "http/git_directory_disclosute".to_owned()
    }

    /// What this probe looks for.
    pub fn description(&self) -> (r: String)
        ensures
            r@ == "Check for .git/ directory disclosure"@,
    {
        "Check for .git/ directory disclosure".to_owned()
    }
}

/// Probe for a world-readable `.git/HEAD` file.
pub struct GitHeadDisclosure {}

impl GitHeadDisclosure {
    pub fn new() -> (r: GitHeadDisclosure) {
        GitHeadDisclosure {}
    }

    /// A response body is a `HEAD` file when, lowercased and trimmed, it
    /// begins with a ref line.
    pub fn is_head_file(&self, content: &str) -> (r: bool)
        ensures
            r == starts_with_seq(trim_of(lower_of(content@)), "ref:"@),
    {
        let lowered = lowercase_text(content);
        let trimmed = trim_text(lowered.as_str());
        starts_with_text(trimmed, "ref:")
    }
}

/// Probe for an openly reachable Kibana instance.
pub struct KibanaAccess {}

impl KibanaAccess {
    pub fn new() -> (r: KibanaAccess) {
        KibanaAccess {}
    }

    /// A response body is a Kibana page when it carries one of the
    /// interface's fixed fragments, or begins with the fixed probe text.
    pub fn is_kibana_page(&self, content: &str) -> (r: bool)
        ensures
            r == (contains_seq(
                content@,
                "</head><body kbn-chrome id=\"kibana-body\"><kbn-initial-state"@,
            ) || contains_seq(
                content@,
                "<div class=\"ui-app-loading\"><h1><strong>Kibana</strong><small>&nbsp;isloading."@,
            ) || starts_with_seq(content@, "|| body.contains("@) || contains_seq(
                content@,
                "<div class=\"kibanaWelcomeLogo\"></div></div></div><div class=\"kibanaWelcomeText\">Loading Kibana</div></div>"@,
            )),
    {
        contains_text(content, "</head><body kbn-chrome id=\"kibana-body\"><kbn-initial-state")
            || contains_text(
            content,
            "<div class=\"ui-app-loading\"><h1><strong>Kibana</strong><small>&nbsp;isloading.",
        ) || starts_with_text(content, "|| body.contains(") || contains_text(
            content,
            "<div class=\"kibanaWelcomeLogo\"></div></div></div><div class=\"kibanaWelcomeText\">Loading Kibana</div></div>",
        )
    }
}

} // verus!
