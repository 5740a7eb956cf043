//! The probe types' text predicates.

use ext4_read::probes::{
    Crtsh, Dnsrepo, GitDirectoryDisclosure, GitHeadDisclosure, GitlabOpenRegistration,
};

#[test]
fn git_directory_listing_needs_all_five_markers() {
    let probe = GitDirectoryDisclosure::new();
    let full = "HEAD refs config index objects";
    assert!(probe.is_git_directory_listing(full));
    assert!(!probe.is_git_directory_listing("HEAD refs config index"));
    assert!(!probe.is_git_directory_listing(""));
    assert!(!probe.is_git_directory_listing("head refs config index objects"));
}

#[test]
fn head_file_check_lowercases_and_trims_before_matching() {
    let probe = GitHeadDisclosure::new();
    assert!(probe.is_head_file("ref: refs/heads/main"));
    assert!(probe.is_head_file("REF: refs/heads/main"));
    assert!(probe.is_head_file("  \n ref: refs/heads/main \n"));
    assert!(!probe.is_head_file("xref: refs/heads/main"));
    assert!(!probe.is_head_file("<html>not a head file</html>"));
    assert!(!probe.is_head_file(""));
}

#[test]
fn open_registration_needs_banner_and_register_link() {
    let probe = GitlabOpenRegistration::new();
    let both = "This is a self-managed instance of GitLab ... Register";
    assert!(probe.is_open_registration(both));
    assert!(!probe.is_open_registration("This is a self-managed instance of GitLab"));
    assert!(!probe.is_open_registration("Register"));
    assert!(!probe.is_open_registration(""));
}

#[test]
fn probes_report_their_names_and_descriptions() {
    assert_eq!(Crtsh::new().name().as_str(), "subdomains/crtsh");
    assert_eq!(Crtsh::new().description().as_str(), "use crt.sh/ to find subdomains");
    assert_eq!(Dnsrepo::new().name().as_str(), "subdomains/dsrepo");
    assert_eq!(Dnsrepo::new().description().as_str(), "checks dnsrepo for subdomain");
    assert_eq!(
        GitlabOpenRegistration::new().name().as_str(),
        "http/gitlab_open_regsitration"
    );
    assert_eq!(
        GitlabOpenRegistration::new().description().as_str(),
        "check if gitlab instace ca be registered"
    );
    assert_eq!(
        GitDirectoryDisclosure::new().name().as_str(),
        "http/git_directory_disclosute"
    );
    assert_eq!(
        GitDirectoryDisclosure::new().description().as_str(),
        "Check for .git/ directory disclosure"
    );
}

#[test]
fn kibana_page_needs_one_of_its_markers() {
    let probe = ext4_read::probes::KibanaAccess::new();
    assert!(probe
        .is_kibana_page("</head><body kbn-chrome id=\"kibana-body\"><kbn-initial-state etc"));
    assert!(probe.is_kibana_page(
        "x <div class=\"ui-app-loading\"><h1><strong>Kibana</strong><small>&nbsp;isloading. y"
    ));
    assert!(probe.is_kibana_page(
        "<div class=\"kibanaWelcomeLogo\"></div></div></div><div class=\"kibanaWelcomeText\">Loading Kibana</div></div>"
    ));
    assert!(!probe.is_kibana_page("<html>plain page</html>"));
    assert!(!probe.is_kibana_page(""));
}
