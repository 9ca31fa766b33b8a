//! URL validation: is a stored URL safe to hand to the system's
//! URL-open facility, and with what normalized scheme and host.
//!
//! The rules, in order: a length cap, a case-insensitive scan for
//! dangerous fragments, a parse (retried with `https://` prepended when
//! the text carries no scheme), a blocked-scheme set, an allowed-scheme
//! set, and a host-shape check that admits `localhost` and
//! private-range hosts.

use vstd::prelude::*;
use crate::strings::{
    spec_contains,
    spec_ci_contains,
    spec_starts_with,
    contains_sub,
    ci_contains,
    starts_with,
    str_eq,
};
use crate::browser::URLValidationResult;

verus! {

/// What `url::Url::parse` extracts from a text: `None` when the text is
/// not an absolute URL, else the scheme and the optional host.
pub uninterp spec fn url_parts(s: Seq<char>) -> Option<(Seq<char>, Option<Seq<char>>)>;

/// Relies on `url::Url::parse` (the WHATWG URL parser) together with
/// `Url::scheme` and `Url::host_str`: whether the text parses as an
/// absolute URL and, if so, its scheme and host.  Both depend on the
/// input text alone; the scheme comes back lower-cased without the `:`
/// delimiter, and the host is absent for URLs that cannot have one.
#[verifier::external_body]
fn parse_scheme_host(s: &str) -> (r: Option<(String, Option<String>)>)
    ensures
        r is Some <==> url_parts(s@) is Some,
        r matches Some(p) ==> url_parts(s@) matches Some(q) && p.0@ == q.0 && (match (p.1, q.1) {
            (Some(h), Some(hq)) => h@ == hq,
            (None, None) => true,
            _ => false,
        }),
{
    match url::Url::parse(s) {
        Ok(u) => Some((u.scheme().to_string(), u.host_str().map(|h| h.to_string()))),
        Err(_) => None,
    }
}

/// Longest URL the validator accepts.
pub const MAX_URL_LENGTH: usize = 2048;

/// Does the raw text hold one of the dangerous fragments, in any
/// ASCII case?
pub open spec fn spec_dangerous(s: Seq<char>) -> bool {
    ||| spec_ci_contains(s, "javascript:"@)
    ||| spec_ci_contains(s, "data:"@)
    ||| spec_ci_contains(s, "vbscript:"@)
    ||| spec_ci_contains(s, "<script"@)
}

/// Parse outcome after auto-completion: the text itself if it parses,
/// else — when it carries no `://` — the text with `https://`
/// prepended.
pub open spec fn spec_attempted_parts(s: Seq<char>) -> Option<(Seq<char>, Option<Seq<char>>)> {
    if url_parts(s) is Some {
        url_parts(s)
    } else if !spec_contains(s, "://"@) {
        url_parts("https://"@ + s)
    } else {
        None
    }
}

/// Schemes rejected outright.
pub open spec fn spec_blocked_scheme(sch: Seq<char>) -> bool {
    ||| sch == "javascript"@
    ||| sch == "data"@
    ||| sch == "file"@
    ||| sch == "ftp"@
    ||| sch == "vbscript"@
}

/// Schemes the engine will open.
pub open spec fn spec_allowed_scheme(sch: Seq<char>) -> bool {
    sch == "http"@ || sch == "https"@
}

/// An ASCII letter.
pub open spec fn spec_alpha(c: char) -> bool {
    65 <= c as int <= 90 || 97 <= c as int <= 122
}

/// A character a domain label may hold before its final dot.
pub open spec fn spec_domain_char(c: char) -> bool {
    spec_alpha(c) || crate::time::spec_is_digit(c) || c == '.' || c == '-'
}

/// A dotted domain shape: one or more label characters, a dot, then at
/// least two letters.
pub open spec fn spec_domain_shape(h: Seq<char>) -> bool {
    exists|k: int|
        {
            &&& 1 <= k
            &&& k + 3 <= h.len()
            &&& #[trigger] h[k] == '.'
            &&& forall|j: int| 0 <= j < k ==> spec_domain_char(h[j])
            &&& forall|j: int| k < j < h.len() ==> spec_alpha(h[j])
        }
}

/// A host the validator accepts: `localhost` and private-range hosts
/// for development use, else a dotted domain shape.
pub open spec fn spec_valid_host(h: Seq<char>) -> bool {
    &&& h.len() > 0
    &&& {
        ||| h == "localhost"@
        ||| spec_starts_with(h, "127."@)
        ||| spec_starts_with(h, "192.168."@)
        ||| spec_domain_shape(h)
    }
}

/// The whole validation cascade: a URL is accepted exactly when it
/// passes the length cap, the dangerous-fragment scan, the parse, the
/// scheme sets and the host check.
pub open spec fn spec_url_ok(s: Seq<char>) -> bool {
    &&& s.len() <= 2048
    &&& !spec_dangerous(s)
    &&& match spec_attempted_parts(s) {
        Some(p) => !spec_blocked_scheme(p.0) && spec_allowed_scheme(p.0) && match p.1 {
            Some(h) => spec_valid_host(h),
            None => false,
        },
        None => false,
    }
}

/// The reason text reported for a rejected URL, following the order of
/// the cascade.
pub open spec fn spec_reject_reason(s: Seq<char>) -> Seq<char> {
    if s.len() > 2048 {
        "URL too long"@
    } else if spec_dangerous(s) {
        "URL contains dangerous patterns"@
    } else if spec_attempted_parts(s) is None {
        "Invalid URL format"@
    } else if spec_blocked_scheme(spec_attempted_parts(s).unwrap().0) {
        "Blocked protocol"@
    } else if !spec_allowed_scheme(spec_attempted_parts(s).unwrap().0) {
        "Protocol not allowed"@
    } else if spec_attempted_parts(s).unwrap().1 is None {
        "No host found in URL"@
    } else {
        "Invalid host format"@
    }
}

/// URL validation with a fixed rule set.
pub struct URLValidator {}

impl URLValidator {
    /// A validator with the engine's rule set.
    pub fn new() -> (r: URLValidator) {
        URLValidator {  }
    }

    /// Validate a URL against the whole cascade.  The result is valid
    /// exactly on the URLs `spec_url_ok` accepts, and then carries the
    /// normalized scheme and the host; a rejection carries the reason
    /// of the first rule that failed.
    pub fn validate(&self, url_str: &str) -> (r: URLValidationResult)
        ensures
            r.is_valid <==> spec_url_ok(url_str@),
            r.is_valid ==> (match spec_attempted_parts(url_str@) {
                Some(p) => r.protocol@ == p.0 && (match p.1 {
                    Some(h) => r.host@ == h,
                    None => false,
                }) && r.error is None,
                None => false,
            }),
            !r.is_valid ==> r.protocol@ == "invalid"@ && r.host@ == ""@ && (r.error matches Some(e)
                && e@ == spec_reject_reason(url_str@)),
    {
        if url_str.unicode_len() > MAX_URL_LENGTH {
            return URLValidationResult::invalid(String::from_str("URL too long"));
        }
        if ci_contains(url_str, "javascript:") || ci_contains(url_str, "data:") || ci_contains(
            url_str,
            "vbscript:",
        ) || ci_contains(url_str, "<script") {
            return URLValidationResult::invalid(
                String::from_str("URL contains dangerous patterns"),
            );
        }
        let parsed = attempt_parse(url_str);
        match parsed {
            None => URLValidationResult::invalid(String::from_str("Invalid URL format")),
            Some((scheme, host)) => {
                if str_eq(scheme.as_str(), "javascript") || str_eq(scheme.as_str(), "data")
                    || str_eq(scheme.as_str(), "file") || str_eq(scheme.as_str(), "ftp") || str_eq(
                    scheme.as_str(),
                    "vbscript",
                ) {
                    return URLValidationResult::invalid(String::from_str("Blocked protocol"));
                }
                if !(str_eq(scheme.as_str(), "http") || str_eq(scheme.as_str(), "https")) {
                    return URLValidationResult::invalid(String::from_str("Protocol not allowed"));
                }
                match host {
                    None => URLValidationResult::invalid(String::from_str("No host found in URL")),
                    Some(h) => {
                        if is_valid_host(h.as_str()) {
                            URLValidationResult::valid(scheme, h)
                        } else {
                            URLValidationResult::invalid(String::from_str("Invalid host format"))
                        }
                    },
                }
            },
        }
    }

    /// Validity alone, for quick surface feedback.
    pub fn quick_validate(&self, url_str: &str) -> (r: bool)
        ensures
            r == spec_url_ok(url_str@),
    {
        self.validate(url_str).is_valid
    }

    /// Candidate corrections for a URL the user typed: `https://`
    /// prepended when no scheme is present, `http://` swapped for
    /// `https://`, and the common `google` completion.  Advisory only.
    pub fn suggest_corrections(&self, url_str: &str) -> (r: Vec<String>)
        ensures
            r.deep_view() == spec_suggestions(url_str@),
    {
        let mut suggestions: Vec<String> = Vec::new();
        proof {
            reveal_strlit("http://");
            reveal_strlit("google");
        }
        if !contains_sub(url_str, "://") && url_str.unicode_len() > 0 {
            suggestions.push(String::from_str("https://").concat(url_str));
        }
        if starts_with(url_str, "http://") {
            suggestions.push(crate::strings::replace_all(url_str, "http://", "https://"));
        }
        if contains_sub(url_str, "google") && !contains_sub(url_str, "google.com") {
            suggestions.push(crate::strings::replace_all(url_str, "google", "google.com"));
        }
        proof {
            assert(suggestions.deep_view() =~~= spec_suggestions(url_str@));
        }
        suggestions
    }
}

impl Default for URLValidator {
    /// The default validator carries the engine's rule set.
    fn default() -> (r: URLValidator) {
        URLValidator::new()
    }
}

/// The candidate corrections, as sequence content.
pub open spec fn spec_suggestions(s: Seq<char>) -> Seq<Seq<char>> {
    let a: Seq<Seq<char>> = if !spec_contains(s, "://"@) && s.len() > 0 {
        seq!["https://"@ + s]
    } else {
        Seq::empty()
    };
    let b: Seq<Seq<char>> = if spec_starts_with(s, "http://"@) {
        seq![crate::strings::spec_replace(s, "http://"@, "https://"@)]
    } else {
        Seq::empty()
    };
    let c: Seq<Seq<char>> = if spec_contains(s, "google"@) && !spec_contains(s, "google.com"@) {
        seq![crate::strings::spec_replace(s, "google"@, "google.com"@)]
    } else {
        Seq::empty()
    };
    a + b + c
}

/// Validation behind a trait, so a surface can take any checker.
pub trait URLValidatorTrait {
    /// Validate a URL against the engine's cascade.
    fn validate(&self, url: &str) -> (r: URLValidationResult)
        ensures
            r.is_valid <==> spec_url_ok(url@),
    ;

    /// Validity alone.
    fn quick_validate(&self, url: &str) -> (r: bool)
        ensures
            r == spec_url_ok(url@),
    ;
}

impl URLValidatorTrait for URLValidator {
    fn validate(&self, url: &str) -> (r: URLValidationResult) {
        URLValidator::validate(self, url)
    }

    fn quick_validate(&self, url: &str) -> (r: bool) {
        URLValidator::quick_validate(self, url)
    }
}

/// The host of a URL as the parser reads it, for surface hints; no
/// scheme auto-completion is applied here.
pub fn extract_domain(url: &str) -> (r: Option<String>)
    ensures
        match url_parts(url@) {
            Some(q) => match (r, q.1) {
                (Some(h), Some(hq)) => h@ == hq,
                (None, None) => true,
                _ => false,
            },
            None => r is None,
        },
{
    match parse_scheme_host(url) {
        Some(p) => p.1,
        None => None,
    }
}

/// The domain a preview shows: the parsed host, or a placeholder when
/// the URL has none.
pub open spec fn spec_preview_domain(s: Seq<char>) -> Seq<char> {
    match url_parts(s) {
        Some(q) => match q.1 {
            Some(h) => h,
            None => "Unknown"@,
        },
        None => "Unknown"@,
    }
}

/// A basic preview of a URL: rejected URLs carry the rejection reason,
/// accepted ones an `Open <domain>` title.
pub fn url_preview(url: &str) -> (r: Result<crate::browser::URLPreview, String>)
    ensures
        r is Ok <==> spec_url_ok(url@),
        r matches Ok(p) ==> p.url@ == url@ && p.domain@ == spec_preview_domain(url@) && p.title@
            == "Open "@ + spec_preview_domain(url@) && p.favicon_url is None
            && p.description is None,
        r matches Err(e) ==> e@ == spec_reject_reason(url@),
{
    let validator = URLValidator::new();
    let outcome = validator.validate(url);
    if !outcome.is_valid {
        return Err(
            match outcome.error {
                Some(e) => e,
                None => String::new(),
            },
        );
    }
    let domain = match extract_domain(url) {
        Some(d) => d,
        None => String::from_str("Unknown"),
    };
    let title = String::from_str("Open ").concat(domain.as_str());
    Ok(
        crate::browser::URLPreview {
            url: String::from_str(url),
            title,
            domain,
            favicon_url: None,
            description: None,
        },
    )
}

/// Parse with auto-completion, executable: mirrors
/// `spec_attempted_parts`.
fn attempt_parse(s: &str) -> (r: Option<(String, Option<String>)>)
    ensures
        r is Some <==> spec_attempted_parts(s@) is Some,
        r matches Some(p) ==> spec_attempted_parts(s@) matches Some(q) && p.0@ == q.0 && (match (
            p.1,
            q.1,
        ) {
            (Some(h), Some(hq)) => h@ == hq,
            (None, None) => true,
            _ => false,
        }),
{
    let direct = parse_scheme_host(s);
    match direct {
        Some(p) => Some(p),
        None => {
            if !contains_sub(s, "://") {
                let with_https = String::from_str("https://").concat(s);
                parse_scheme_host(with_https.as_str())
            } else {
                None
            }
        },
    }
}

/// Host check, executable: `localhost` and private-range hosts pass;
/// anything else must have the dotted domain shape.
pub fn is_valid_host(h: &str) -> (r: bool)
    ensures
        r == spec_valid_host(h@),
{
    if h.unicode_len() == 0 {
        return false;
    }
    if str_eq(h, "localhost") || starts_with(h, "127.") || starts_with(h, "192.168.") {
        return true;
    }
    has_domain_shape(h)
}

/// Domain-shape check, executable.  A witness split, if any, must put
/// the dot at the last dot of the text, since no dot may follow it.
fn has_domain_shape(h: &str) -> (r: bool)
    ensures
        r == spec_domain_shape(h@),
{
    let n = h.unicode_len();
    let mut last_dot: usize = 0;
    let mut seen_dot = false;
    let mut i: usize = 0;
    while i < n
        invariant
            i <= n,
            n == h@.len(),
            seen_dot ==> last_dot < i && h@[last_dot as int] == '.',
            forall|j: int| 0 <= j < i && h@[j] == '.' ==> seen_dot && j <= last_dot,
        decreases n - i,
    {
        if h.get_char(i) == '.' {
            last_dot = i;
            seen_dot = true;
        }
        i = i + 1;
    }
    if !seen_dot {
        assert(!spec_domain_shape(h@));
        return false;
    }
    let k = last_dot;
    assert(forall|j: int| k < j < n ==> h@[j] != '.');
    if !(1 <= k && n - k >= 3) {
        assert(!spec_domain_shape(h@)) by {
            assert forall|k0: int|
                1 <= k0 && k0 + 3 <= h@.len() && h@[k0] == '.' implies !(forall|j: int|
                k0 < j < h@.len() ==> spec_alpha(h@[j])) by {
                assert(k0 <= k);
                if k0 < k {
                    assert(h@[k as int] == '.');
                    assert(!spec_alpha(h@[k as int]));
                } else {
                    assert(false);
                }
            }
        }
        return false;
    }
    // every character after the dot must be a letter
    let mut j: usize = k + 1;
    while j < n
        invariant
            k + 1 <= j <= n,
            n == h@.len(),
            h@[k as int] == '.',
            1 <= k && k + 3 <= n,
            forall|t: int| k < t < n ==> h@[t] != '.',
            forall|t: int| k < t < j ==> spec_alpha(h@[t]),
        decreases n - j,
    {
        let c = h.get_char(j);
        let v = c as u32;
        if !((65 <= v && v <= 90) || (97 <= v && v <= 122)) {
            assert(!spec_alpha(h@[j as int]));
            assert(!spec_domain_shape(h@)) by {
                assert forall|k0: int|
                    1 <= k0 && k0 + 3 <= h@.len() && h@[k0] == '.' implies !(forall|t: int|
                    k0 < t < h@.len() ==> spec_alpha(h@[t])) by {
                    if k0 < k {
                        assert(!spec_alpha(h@[k as int]));
                    } else if k0 == k {
                        assert(!spec_alpha(h@[j as int]));
                    } else {
                        assert(false);
                    }
                }
            }
            return false;
        }
        j = j + 1;
    }
    // every character before the dot must be a label character
    let mut t: usize = 0;
    while t < k
        invariant
            t <= k,
            n == h@.len(),
            h@[k as int] == '.',
            1 <= k && k + 3 <= n,
            forall|u: int| k < u < n ==> h@[u] != '.' && spec_alpha(h@[u]),
            forall|u: int| 0 <= u < t ==> spec_domain_char(h@[u]),
        decreases k - t,
    {
        let c = h.get_char(t);
        let v = c as u32;
        if !((65 <= v && v <= 90) || (97 <= v && v <= 122) || (48 <= v && v <= 57) || c == '.' || c
            == '-') {
            assert(!spec_domain_char(h@[t as int]));
            assert(!spec_domain_shape(h@)) by {
                assert forall|k0: int|
                    1 <= k0 && k0 + 3 <= h@.len() && h@[k0] == '.' implies !((forall|u: int|
                    0 <= u < k0 ==> spec_domain_char(h@[u])) && (forall|u: int|
                    k0 < u < h@.len() ==> spec_alpha(h@[u]))) by {
                    if k0 < k {
                        assert(!spec_alpha(h@[k as int]));
                    } else if k0 == k {
                        assert(!spec_domain_char(h@[t as int]));
                    } else {
                        assert(false);
                    }
                }
            }
            return false;
        }
        t = t + 1;
    }
    proof {
        let kk = k as int;
        assert(1 <= kk && kk + 3 <= h@.len() && h@[kk] == '.' && (forall|j: int|
            0 <= j < kk ==> spec_domain_char(h@[j])) && (forall|j: int|
            kk < j < h@.len() ==> spec_alpha(h@[j])));
        assert(spec_domain_shape(h@));
    }
    true
}

} // verus!
