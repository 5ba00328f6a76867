//! How the email client is chosen and addressed from its settings.
//!
//! Delivery itself (SMTP or an HTTP provider) happens at the edge; which provider, where its
//! API lives, and which settings are required is decided here.

use vstd::prelude::*;
use crate::identity::mail::{trim_trailing_slashes, without_trailing_slashes};
use crate::text::{concat, push_str, str_eq};

verus! {

/// An email provider reached over HTTP.
#[derive(Debug, Clone, Copy, PartialEq, Eq, Structural)]
pub enum HttpProvider {
    Resend,
    Postmark,
}

/// The provider named by `EMAIL_PROVIDER`.
#[derive(Debug, Clone, Copy, PartialEq, Eq, Structural)]
pub enum ProviderKind {
    /// Messages are discarded.
    Disabled,
    Smtp,
    Http(HttpProvider),
}

/// The provider a name selects.
pub open spec fn provider_named(name: Seq<char>) -> Option<ProviderKind> {
    if name == "disabled"@ {
        Some(ProviderKind::Disabled)
    } else if name == "smtp"@ {
        Some(ProviderKind::Smtp)
    } else if name == "resend"@ {
        Some(ProviderKind::Http(HttpProvider::Resend))
    } else if name == "postmark"@ {
        Some(ProviderKind::Http(HttpProvider::Postmark))
    } else {
        None
    }
}

/// Reads `EMAIL_PROVIDER`. Any other name is refused, naming it.
pub fn provider_kind(name: &str) -> (r: Result<ProviderKind, String>)
    ensures
        match provider_named(name@) {
            Some(kind) => r == Ok::<ProviderKind, String>(kind),
            None => r matches Err(m) && m@ == "unsupported EMAIL_PROVIDER: "@ + name@,
        },
{
    if str_eq(name, "disabled") {
        Ok(ProviderKind::Disabled)
    } else if str_eq(name, "smtp") {
        Ok(ProviderKind::Smtp)
    } else if str_eq(name, "resend") {
        Ok(ProviderKind::Http(HttpProvider::Resend))
    } else if str_eq(name, "postmark") {
        Ok(ProviderKind::Http(HttpProvider::Postmark))
    } else {
        Err(concat("unsupported EMAIL_PROVIDER: ", name))
    }
}

/// The API a provider is reached at when no base address is configured.
pub open spec fn default_base_url(provider: HttpProvider) -> Seq<char> {
    match provider {
        HttpProvider::Resend => "https://api.resend.com"@,
        HttpProvider::Postmark => "https://api.postmarkapp.com"@,
    }
}

/// The path a provider takes messages at.
pub open spec fn send_path(provider: HttpProvider) -> Seq<char> {
    match provider {
        HttpProvider::Resend => "/emails"@,
        HttpProvider::Postmark => "/email"@,
    }
}

/// Where a provider takes messages: the configured base address (or its default) without
/// trailing slashes, followed by its sending path.
pub fn endpoint(provider: HttpProvider, base_url: Option<&str>) -> (r: String)
    ensures
        r@ == without_trailing_slashes(
            match base_url {
                Some(b) => b@,
                None => default_base_url(provider),
            },
        ) + send_path(provider),
{
    let base: &str = match base_url {
        Some(b) => b,
        None => match provider {
            HttpProvider::Resend => "https://api.resend.com",
            HttpProvider::Postmark => "https://api.postmarkapp.com",
        },
    };
    let mut r = trim_trailing_slashes(base);
    match provider {
        HttpProvider::Resend => push_str(&mut r, "/emails"),
        HttpProvider::Postmark => push_str(&mut r, "/email"),
    }
    r
}

/// A setting that must be present and not empty; its absence is refused, naming the setting.
pub fn required(value: &Option<String>, setting: &str) -> (r: Result<String, String>)
    ensures
        match value {
            Some(v) => if v@.len() > 0 {
                r matches Ok(s) && s@ == v@
            } else {
                r matches Err(m) && m@ == setting@ + " is required"@
            },
            None => r matches Err(m) && m@ == setting@ + " is required"@,
        },
{
    match value {
        Some(v) => {
            if v.as_str().is_empty() {
                Err(concat(setting, " is required"))
            } else {
                Ok(v.clone())
            }
        },
        None => Err(concat(setting, " is required")),
    }
}

} // verus!
