//! Where a topic may be pushed to: over an encrypted connection only, and
//! never to the machine itself or into its own network.

use crate::text::{chars_of, ends_with, has_suffix, same_chars};
use vstd::prelude::*;

verus! {

/// A network address as a number: an IPv4 address as its 32 bits, an IPv6
/// address as its 128 bits, the first octet highest.
#[derive(Clone, Copy, Debug, PartialEq, Eq, Structural)]
pub enum HostAddr {
    V4(u32),
    V6(u128),
}

/// The host of a URL.
#[derive(Clone, Debug, PartialEq, Eq)]
pub enum UrlHost {
    /// A name to look up.
    Domain(String),
    /// An address written out.
    Addr(HostAddr),
}

/// The parts of a URL that the checks read.
#[derive(Clone, Debug, PartialEq, Eq)]
pub struct ParsedUrl {
    /// The scheme, in lower case, without the colon.
    pub scheme: String,
    pub host: Option<UrlHost>,
}

/// The host of a URL as a mathematical value.
pub enum UrlHostView {
    Domain(Seq<char>),
    Addr(HostAddr),
}

/// The parts of a URL as a mathematical value.
pub struct ParsedUrlView {
    pub scheme: Seq<char>,
    pub host: Option<UrlHostView>,
}

impl View for UrlHost {
    type V = UrlHostView;

    open spec fn view(&self) -> UrlHostView {
        match self {
            UrlHost::Domain(name) => UrlHostView::Domain(name@),
            UrlHost::Addr(addr) => UrlHostView::Addr(*addr),
        }
    }
}

impl View for ParsedUrl {
    type V = ParsedUrlView;

    open spec fn view(&self) -> ParsedUrlView {
        ParsedUrlView {
            scheme: self.scheme@,
            host: match self.host {
                Some(host) => Some(host@),
                None => None,
            },
        }
    }
}

/// The view of parts that may be absent.
pub open spec fn optional_url_view(parsed: Option<ParsedUrl>) -> Option<ParsedUrlView> {
    match parsed {
        Some(url) => Some(url@),
        None => None,
    }
}

/// Why a topic URL is refused.
#[derive(Clone, Copy, Debug, PartialEq, Eq, Structural)]
pub enum TopicUrlError {
    /// The text is no URL.
    Unparsable,
    /// The scheme is not `https`.
    NotEncrypted,
    /// The URL names no host.
    NoHost,
    /// The host, as written, is the machine itself, lies inside its
    /// network, or is no single host at all.
    ForbiddenHost,
    /// The host name resolves to an address of that sort.
    ForbiddenAddress,
}

/// 0.0.0.0, the address that names no host.
pub open spec fn v4_unspecified(a: u32) -> bool {
    a == 0
}

/// 127.0.0.0/8.
pub open spec fn v4_loopback(a: u32) -> bool {
    0x7f00_0000 <= a <= 0x7fff_ffff
}

/// 10.0.0.0/8, 172.16.0.0/12 and 192.168.0.0/16.
pub open spec fn v4_private(a: u32) -> bool {
    ||| 0x0a00_0000 <= a <= 0x0aff_ffff
    ||| 0xac10_0000 <= a <= 0xac1f_ffff
    ||| 0xc0a8_0000 <= a <= 0xc0a8_ffff
}

/// 169.254.0.0/16.
pub open spec fn v4_link_local(a: u32) -> bool {
    0xa9fe_0000 <= a <= 0xa9fe_ffff
}

/// 224.0.0.0/4.
pub open spec fn v4_multicast(a: u32) -> bool {
    0xe000_0000 <= a <= 0xefff_ffff
}

/// 255.255.255.255.
pub open spec fn v4_broadcast(a: u32) -> bool {
    a == 0xffff_ffff
}

/// An IPv4 address that no alert may be sent to.
pub open spec fn v4_forbidden(a: u32) -> bool {
    ||| v4_unspecified(a)
    ||| v4_loopback(a)
    ||| v4_private(a)
    ||| v4_link_local(a)
    ||| v4_multicast(a)
    ||| v4_broadcast(a)
}

/// The lowest IPv6 address that carries an IPv4 address, `::ffff:0.0.0.0`.
pub const V4_MAPPED_BASE: u128 = 0xffff_0000_0000;

/// `::ffff:0:0/96`, the IPv6 addresses that carry an IPv4 address.
pub open spec fn v6_carries_v4(a: u128) -> bool {
    V4_MAPPED_BASE <= a <= V4_MAPPED_BASE + 0xffff_ffff
}

/// An IPv6 address that no alert may be sent to: `::`, `::1`, the unique
/// local addresses `fc00::/7`, the link-local addresses `fe80::/10`, the
/// multicast addresses `ff00::/8`, and every address that carries a forbidden
/// IPv4 address.
pub open spec fn v6_forbidden(a: u128) -> bool {
    ||| a == 0
    ||| a == 1
    ||| 0xfc00_0000_0000_0000_0000_0000_0000_0000 <= a < 0xfe00_0000_0000_0000_0000_0000_0000_0000
    ||| 0xfe80_0000_0000_0000_0000_0000_0000_0000 <= a < 0xfec0_0000_0000_0000_0000_0000_0000_0000
    ||| 0xff00_0000_0000_0000_0000_0000_0000_0000 <= a
    ||| v6_carries_v4(a) && v4_forbidden((a - V4_MAPPED_BASE) as u32)
}

/// An address that no alert may be sent to.
pub open spec fn addr_forbidden(addr: HostAddr) -> bool {
    match addr {
        HostAddr::V4(a) => v4_forbidden(a),
        HostAddr::V6(a) => v6_forbidden(a),
    }
}

/// A host name without the one dot that may end it: `printer.local.` and
/// `printer.local` name the same host.
pub open spec fn without_final_dot(name: Seq<char>) -> Seq<char> {
    if name.len() > 0 && name.last() == '.' {
        name.drop_last()
    } else {
        name
    }
}

/// A letter of the Latin alphabet in lower case; any other character as it
/// is. Host names do not tell upper case from lower.
pub open spec fn lower_case(c: char) -> char {
    if 'A' <= c <= 'Z' {
        ((c as u8) + 32) as char
    } else {
        c
    }
}

/// A host name as it is compared: in lower case, without a final dot.
pub open spec fn plain_name(name: Seq<char>) -> Seq<char> {
    without_final_dot(name).map_values(|c: char| lower_case(c))
}

/// A host name that stands for the machine itself or for its local
/// network: `localhost`, or a name that ends in `.local`, each in upper or
/// lower case and with or without a final dot.
pub open spec fn name_forbidden(name: Seq<char>) -> bool {
    let plain = plain_name(name);
    plain == "localhost"@ || ends_with(plain, ".local"@)
}

/// A host that, as written, no alert may be sent to.
pub open spec fn host_forbidden(host: UrlHostView) -> bool {
    match host {
        UrlHostView::Domain(name) => name_forbidden(name),
        UrlHostView::Addr(addr) => addr_forbidden(addr),
    }
}

/// A host that is there and is not the empty name.
pub open spec fn host_present(host: Option<UrlHostView>) -> bool {
    match host {
        None => false,
        Some(UrlHostView::Domain(name)) => name.len() > 0,
        Some(UrlHostView::Addr(_)) => true,
    }
}

/// Some address in the list is forbidden.
pub open spec fn any_forbidden(addrs: Seq<HostAddr>) -> bool {
    exists|i: int| 0 <= i < addrs.len() && addr_forbidden(#[trigger] addrs[i])
}

/// The verdict on a topic URL, given its parts and the addresses that its
/// host name resolves to. The checks come in this order: the text must be a
/// URL, its scheme `https`, its host present, the host as written
/// allowed, and so every address it resolves to.
pub open spec fn topic_url_verdict(parsed: Option<ParsedUrlView>, resolved: Seq<HostAddr>) -> Result<
    (),
    TopicUrlError,
> {
    match parsed {
        None => Err(TopicUrlError::Unparsable),
        Some(url) => {
            if url.scheme != "https"@ {
                Err(TopicUrlError::NotEncrypted)
            } else if !host_present(url.host) {
                Err(TopicUrlError::NoHost)
            } else if host_forbidden(url.host->0) {
                Err(TopicUrlError::ForbiddenHost)
            } else if any_forbidden(resolved) {
                Err(TopicUrlError::ForbiddenAddress)
            } else {
                Ok(())
            }
        },
    }
}

/// The parts that the `url` crate reads out of a text, or `None` where it
/// takes the text for no URL.
pub uninterp spec fn url_parts(text: Seq<char>) -> Option<ParsedUrlView>;

/// Parses a text with `url::Url::parse` and copies out the scheme
/// (`Url::scheme`) and the host (`Url::host`), an address as its bits. The
/// outcome depends on the text alone; what it is for a given text is left to
/// the `url` crate and goes by the name [`url_parts`].
#[verifier::external_body]
pub(crate) fn parse_url(text: &str) -> (parsed: Option<ParsedUrl>)
    ensures
        optional_url_view(parsed) == url_parts(text@),
{
    let url = url::Url::parse(text).ok()?;
    let host = match url.host() {
        None => None,
        Some(url::Host::Domain(name)) => Some(UrlHost::Domain(name.to_string())),
        Some(url::Host::Ipv4(addr)) => Some(UrlHost::Addr(HostAddr::V4(u32::from(addr)))),
        Some(url::Host::Ipv6(addr)) => Some(UrlHost::Addr(HostAddr::V6(u128::from(addr)))),
    };
    Some(ParsedUrl { scheme: url.scheme().to_string(), host })
}

/// Decides whether an IPv4 address is forbidden.
pub fn is_v4_forbidden(a: u32) -> (forbidden: bool)
    ensures
        forbidden == v4_forbidden(a),
{
    a == 0 || (0x7f00_0000 <= a && a <= 0x7fff_ffff) || (0x0a00_0000 <= a && a <= 0x0aff_ffff) || (
    0xac10_0000 <= a && a <= 0xac1f_ffff) || (0xc0a8_0000 <= a && a <= 0xc0a8_ffff) || (0xa9fe_0000
        <= a && a <= 0xa9fe_ffff) || (0xe000_0000 <= a && a <= 0xefff_ffff) || a == 0xffff_ffff
}

/// Decides whether an address is forbidden.
pub fn is_addr_forbidden(addr: HostAddr) -> (forbidden: bool)
    ensures
        forbidden == addr_forbidden(addr),
{
    match addr {
        HostAddr::V4(a) => is_v4_forbidden(a),
        HostAddr::V6(a) => {
            if a == 0 || a == 1 {
                true
            } else if 0xfc00_0000_0000_0000_0000_0000_0000_0000 <= a && a
                < 0xfe00_0000_0000_0000_0000_0000_0000_0000 {
                true
            } else if 0xfe80_0000_0000_0000_0000_0000_0000_0000 <= a && a
                < 0xfec0_0000_0000_0000_0000_0000_0000_0000 {
                true
            } else if 0xff00_0000_0000_0000_0000_0000_0000_0000 <= a {
                true
            } else if V4_MAPPED_BASE <= a && a <= V4_MAPPED_BASE + 0xffff_ffff {
                is_v4_forbidden((a - V4_MAPPED_BASE) as u32)
            } else {
                false
            }
        },
    }
}

/// Decides whether some address in the list is forbidden.
pub fn is_any_forbidden(addrs: &Vec<HostAddr>) -> (found: bool)
    ensures
        found == any_forbidden(addrs@),
{
    let mut i: usize = 0;
    while i < addrs.len()
        invariant
            i <= addrs.len(),
            forall|k: int| 0 <= k < i ==> !addr_forbidden(#[trigger] addrs@[k]),
        decreases addrs.len() - i,
    {
        if is_addr_forbidden(addrs[i]) {
            return true;
        }
        i = i + 1;
    }
    false
}

/// Decides whether a host name stands for the machine or its local network.
pub fn is_name_forbidden(name: &str) -> (forbidden: bool)
    ensures
        forbidden == name_forbidden(name@),
{
    let mut chars = chars_of(name);
    if chars.len() > 0 && chars[chars.len() - 1] == '.' {
        chars.pop();
    }
    let plain = lower_cased(&chars);
    let localhost = chars_of("localhost");
    let local = chars_of(".local");
    same_chars(&plain, &localhost) || has_suffix(&plain, &local)
}

/// A letter of the Latin alphabet in lower case; any other character as it is.
pub fn to_lower_case(c: char) -> (lower: char)
    ensures
        lower == lower_case(c),
{
    if 'A' <= c && c <= 'Z' {
        ((c as u8) + 32) as char
    } else {
        c
    }
}

/// A text with its Latin letters in lower case.
pub fn lower_cased(text: &Vec<char>) -> (lower: Vec<char>)
    ensures
        lower@ == text@.map_values(|c: char| lower_case(c)),
{
    let mut lower: Vec<char> = Vec::new();
    let mut i: usize = 0;
    while i < text.len()
        invariant
            i <= text.len(),
            lower@ == text@.take(i as int).map_values(|c: char| lower_case(c)),
        decreases text.len() - i,
    {
        lower.push(to_lower_case(text[i]));
        i = i + 1;
    }
    assert(text@.take(text.len() as int) =~= text@);
    lower
}

/// Gives the verdict on a topic URL from its parts and from the addresses
/// that its host name resolves to.
pub fn judge_topic_url(parsed: &Option<ParsedUrl>, resolved: &Vec<HostAddr>) -> (verdict: Result<
    (),
    TopicUrlError,
>)
    ensures
        verdict == topic_url_verdict(optional_url_view(*parsed), resolved@),
{
    match parsed {
        None => Err(TopicUrlError::Unparsable),
        Some(url) => {
            let scheme = chars_of(url.scheme.as_str());
            let https = chars_of("https");
            if !same_chars(&scheme, &https) {
                return Err(TopicUrlError::NotEncrypted);
            }
            match &url.host {
                None => Err(TopicUrlError::NoHost),
                Some(UrlHost::Domain(name)) => {
                    if name.as_str().is_empty() {
                        Err(TopicUrlError::NoHost)
                    } else if is_name_forbidden(name.as_str()) {
                        Err(TopicUrlError::ForbiddenHost)
                    } else if is_any_forbidden(resolved) {
                        Err(TopicUrlError::ForbiddenAddress)
                    } else {
                        Ok(())
                    }
                },
                Some(UrlHost::Addr(addr)) => {
                    if is_addr_forbidden(*addr) {
                        Err(TopicUrlError::ForbiddenHost)
                    } else if is_any_forbidden(resolved) {
                        Err(TopicUrlError::ForbiddenAddress)
                    } else {
                        Ok(())
                    }
                },
            }
        },
    }
}

/// Gives the verdict on a topic URL from its text and from the addresses
/// that its host name resolves to.
pub fn check_topic_url(text: &str, resolved: &Vec<HostAddr>) -> (verdict: Result<(), TopicUrlError>)
    ensures
        verdict == topic_url_verdict(url_parts(text@), resolved@),
{
    let parsed = parse_url(text);
    judge_topic_url(&parsed, resolved)
}

/// The host name that has to be looked up before a topic URL can be judged:
/// the name the URL gives, if it gives one.
pub open spec fn name_to_resolve(parsed: Option<ParsedUrlView>) -> Option<Seq<char>> {
    match parsed {
        Some(url) => match url.host {
            Some(UrlHostView::Domain(name)) => Some(name),
            _ => None,
        },
        None => None,
    }
}

/// The view of a text that may be absent.
pub open spec fn optional_text_view(text: Option<String>) -> Option<Seq<char>> {
    match text {
        Some(t) => Some(t@),
        None => None,
    }
}

/// Picks out of a URL's parts the host name that has to be looked up.
pub fn host_name_of(parsed: &Option<ParsedUrl>) -> (name: Option<String>)
    ensures
        optional_text_view(name) == name_to_resolve(optional_url_view(*parsed)),
{
    match parsed {
        Some(url) => match &url.host {
            Some(UrlHost::Domain(name)) => Some(name.clone()),
            _ => None,
        },
        None => None,
    }
}

/// Picks out of a topic URL the host name that has to be looked up.
pub fn host_to_resolve(text: &str) -> (name: Option<String>)
    ensures
        optional_text_view(name) == name_to_resolve(url_parts(text@)),
{
    let parsed = parse_url(text);
    host_name_of(&parsed)
}

} // verus!
