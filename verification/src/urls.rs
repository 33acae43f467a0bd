//! The addresses of bucket repositories: bringing them into one form, and
//! deriving the name of a bucket from them.

use crate::bucket_parser::{
    bucket_name_of, extract_bucket_name, group, group_or, groups_view, match_one, regex_groups,
};
use crate::strings::{
    ends_with, has_suffix, split, split_on, trim, trim_start_matches, trimmed, without_leading,
};
use crate::text::{contains, contains_text, has_prefix, opt_str, starts_with, to_lowercase, unicode_lower};
use vstd::prelude::*;
use vstd::string::*;

verus! {

/// The address of a repository on one of the three hosts, with or without
/// scheme, `www.` and `.git`; the groups are owner and repository.
pub const GIT_URL_PATTERN: &'static str =
    r"^(?:https?://)?(?:www\.)?(?:github\.com|gitlab\.com|bitbucket\.org)/([^/]+)/([^/]+?)(?:\.git)?/?$";

/// An address in the form that SSH uses; the groups are host, owner and
/// repository.
pub const SSH_URL_PATTERN: &'static str = r"git@([^:]+):([^/]+)/(.+?)(?:\.git)?$";

/// Whether `text` is an address that the `url` crate accepts.
pub uninterp spec fn url_parses(text: Seq<char>) -> bool;

/// Whether `text` parses as an address.
///
/// Trusted: calls `url::Url::parse`, which does not panic and whose outcome
/// depends on the text alone. The contract only gives that outcome its
/// name, `url_parses`.
#[verifier::external_body]
fn is_url(text: &str) -> (r: bool)
    ensures
        r == url_parses(text@),
{
    url::Url::parse(text).is_ok()
}

/// Whether the address names one of the three hosts.
pub open spec fn names_known_host(url: Seq<char>) -> bool {
    contains_text(url, "github.com"@) || contains_text(url, "gitlab.com"@) || contains_text(
        url,
        "bitbucket.org"@,
    )
}

/// Whether the text is the short form `owner/repo`: two pieces around one
/// slash and no dot.
pub open spec fn is_shorthand(url: Seq<char>) -> bool {
    split(url, '/').len() == 2 && !contains_text(url, "."@)
}

/// The address that an SSH address stands for, from its groups.
pub open spec fn https_of_ssh(groups: Seq<Option<Seq<char>>>) -> Seq<char> {
    "https://"@ + group_or(groups, 1, ""@) + "/"@ + group_or(groups, 2, ""@) + "/"@ + group_or(
        groups,
        3,
        ""@,
    ) + ".git"@
}

/// The address with a scheme, before `.git` is appended and the whole is
/// checked; the message where the text is no address of a repository.
pub open spec fn with_scheme(url: Seq<char>) -> Result<Seq<char>, Seq<char>> {
    if has_prefix(url, "http://"@) || has_prefix(url, "https://"@) {
        Ok(url)
    } else if names_known_host(url) {
        if has_prefix(url, "git@"@) {
            match regex_groups(SSH_URL_PATTERN@, url) {
                Some(groups) => Ok(https_of_ssh(groups)),
                None => Err("Invalid SSH Git URL format"@),
            }
        } else if is_shorthand(url) {
            Ok("https://github.com/"@ + url + ".git"@)
        } else {
            Ok("https://"@ + without_leading(url, "www."@))
        }
    } else if is_shorthand(url) {
        Ok("https://github.com/"@ + url + ".git"@)
    } else {
        Err("URL must be a valid Git repository (GitHub, GitLab, or Bitbucket)"@)
    }
}

/// The address with `.git` at its end, where it names one of the three
/// hosts.
pub open spec fn with_git_suffix(url: Seq<char>) -> Seq<char> {
    if !has_suffix(url, ".git"@) && names_known_host(url) {
        url + ".git"@
    } else {
        url
    }
}

/// The normal form of the address of a repository, or the message that says
/// why there is none.
pub open spec fn normalized_url(url: Seq<char>) -> Result<Seq<char>, Seq<char>> {
    match with_scheme(url) {
        Ok(address) => if url_parses(with_git_suffix(address)) {
            Ok(with_git_suffix(address))
        } else {
            Err("Invalid URL format"@)
        },
        Err(message) => Err(message),
    }
}

fn known_host(url: &str) -> (r: bool)
    ensures
        r == names_known_host(url@),
{
    contains(url, "github.com") || contains(url, "gitlab.com") || contains(url, "bitbucket.org")
}

fn shorthand(url: &str) -> (r: bool)
    ensures
        r == is_shorthand(url@),
{
    split_on(url, '/').len() == 2 && !contains(url, ".")
}

fn github_address(url: &str) -> (r: String)
    ensures
        r@ == "https://github.com/"@ + url@ + ".git"@,
{
    let mut out = "https://github.com/".to_owned();
    out.append(url);
    out.append(".git");
    out
}

/// Writes the address that an SSH address stands for, from its groups.
pub fn ssh_to_https(groups: &Vec<Option<String>>) -> (r: String)
    ensures
        r@ == https_of_ssh(groups_view(*groups)),
{
    let mut out = "https://".to_owned();
    out.append(group(groups, 1, ""));
    out.append("/");
    out.append(group(groups, 2, ""));
    out.append("/");
    out.append(group(groups, 3, ""));
    out.append(".git");
    out
}

fn add_scheme(url: &str) -> (r: Result<String, String>)
    ensures
        match r {
            Ok(address) => with_scheme(url@) == Ok::<Seq<char>, Seq<char>>(address@),
            Err(message) => with_scheme(url@) == Err::<Seq<char>, Seq<char>>(message@),
        },
{
    if starts_with(url, "http://") || starts_with(url, "https://") {
        return Ok(url.to_owned());
    }
    if known_host(url) {
        if starts_with(url, "git@") {
            return match match_one(SSH_URL_PATTERN, url) {
                Some(groups) => Ok(ssh_to_https(&groups)),
                None => Err("Invalid SSH Git URL format".to_owned()),
            };
        }
        if shorthand(url) {
            return Ok(github_address(url));
        }
        let mut out = "https://".to_owned();
        out.append(trim_start_matches(url, "www.").as_str());
        return Ok(out);
    }
    if shorthand(url) {
        return Ok(github_address(url));
    }
    Err("URL must be a valid Git repository (GitHub, GitLab, or Bitbucket)".to_owned())
}

/// Brings the address of a repository into its normal form: with scheme,
/// and with `.git` at its end where the host is one of GitHub, GitLab and
/// Bitbucket. The short form `owner/repo` stands for a repository on GitHub.
pub fn validate_and_normalize_url(url: &str) -> (r: Result<String, String>)
    ensures
        match r {
            Ok(address) => normalized_url(url@) == Ok::<Seq<char>, Seq<char>>(address@),
            Err(message) => normalized_url(url@) == Err::<Seq<char>, Seq<char>>(message@),
        },
{
    let address = match add_scheme(url) {
        Ok(address) => address,
        Err(message) => {
            return Err(message);
        },
    };
    let final_url = if !ends_with(address.as_str(), ".git") && known_host(address.as_str()) {
        let mut out = address;
        out.append(".git");
        out
    } else {
        address
    };
    if is_url(final_url.as_str()) {
        Ok(final_url)
    } else {
        Err("Invalid URL format".to_owned())
    }
}

/// The name of a bucket from the groups of its matched address.
pub open spec fn name_of_groups(groups: Seq<Option<Seq<char>>>) -> Result<Seq<char>, Seq<char>> {
    let name = bucket_name_of(group_or(groups, 2, ""@));
    if name.len() == 0 {
        Err("Could not extract valid bucket name from URL"@)
    } else {
        Ok(name)
    }
}

/// The name of a bucket: the name provided, in lower case and trimmed, or
/// else the name of the repository in the address.
pub open spec fn bucket_name_from(url: Seq<char>, provided: Option<Seq<char>>) -> Result<
    Seq<char>,
    Seq<char>,
> {
    if provided is Some && provided->0.len() > 0 {
        Ok(trimmed(unicode_lower(provided->0)))
    } else {
        match regex_groups(GIT_URL_PATTERN@, url) {
            Some(groups) => name_of_groups(groups),
            None => Err("Could not extract bucket name from URL. Please provide a name."@),
        }
    }
}

/// Derives the name of a bucket from the groups of its matched address.
pub fn bucket_name_from_groups(groups: &Vec<Option<String>>) -> (r: Result<String, String>)
    ensures
        match r {
            Ok(name) => name_of_groups(groups_view(*groups)) == Ok::<Seq<char>, Seq<char>>(name@),
            Err(message) => name_of_groups(groups_view(*groups)) == Err::<Seq<char>, Seq<char>>(
                message@,
            ),
        },
{
    let name = extract_bucket_name(group(groups, 2, ""));
    if name.as_str().is_empty() {
        Err("Could not extract valid bucket name from URL".to_owned())
    } else {
        Ok(name)
    }
}

/// Names a bucket: by the name provided, where there is one, else by the
/// repository in its address.
pub fn extract_bucket_name_from_url(url: &str, provided_name: Option<&str>) -> (r: Result<
    String,
    String,
>)
    ensures
        match r {
            Ok(name) => bucket_name_from(url@, opt_str(provided_name)) == Ok::<
                Seq<char>,
                Seq<char>,
            >(name@),
            Err(message) => bucket_name_from(url@, opt_str(provided_name)) == Err::<
                Seq<char>,
                Seq<char>,
            >(message@),
        },
{
    match provided_name {
        Some(name) => {
            if !name.is_empty() {
                return Ok(trim(to_lowercase(name).as_str()));
            }
        },
        None => {},
    }
    match match_one(GIT_URL_PATTERN, url) {
        Some(groups) => bucket_name_from_groups(&groups),
        None => Err("Could not extract bucket name from URL. Please provide a name.".to_owned()),
    }
}

} // verus!
