use vstd::prelude::*;

use crate::bundle::text_eq;

verus! {

/// The host of a parsed URL, as plain values.
#[derive(Debug)]
pub enum UrlHost {
    /// A domain name.
    Domain(String),
    /// An IPv4 address, by its four octets.
    Ipv4([u8; 4]),
    /// An IPv6 address, by its eight 16-bit segments.
    Ipv6([u16; 8]),
}

/// The parts of a parsed URL that the navigation policy reads.
#[derive(Debug)]
pub struct ParsedUrl {
    /// The scheme, without the `:`.
    pub scheme: String,
    /// The host, where the URL has one.
    pub host: Option<UrlHost>,
}

/// A URL host as mathematical values.
pub enum UrlHostView {
    Domain(Seq<char>),
    Ipv4(Seq<u8>),
    Ipv6(Seq<u16>),
}

/// A parsed URL as mathematical values.
pub struct ParsedUrlView {
    pub scheme: Seq<char>,
    pub host: Option<UrlHostView>,
}

impl View for UrlHost {
    type V = UrlHostView;

    open spec fn view(&self) -> UrlHostView {
        match self {
            UrlHost::Domain(name) => UrlHostView::Domain(name@),
            UrlHost::Ipv4(octets) => UrlHostView::Ipv4(octets@),
            UrlHost::Ipv6(segments) => UrlHostView::Ipv6(segments@),
        }
    }
}

impl View for ParsedUrl {
    type V = ParsedUrlView;

    open spec fn view(&self) -> ParsedUrlView {
        ParsedUrlView {
            scheme: self.scheme@,
            host: match self.host {
                Some(h) => Some(h@),
                None => None,
            },
        }
    }
}

/// The view of an optional parsed URL.
pub open spec fn parsed_view(parsed: Option<ParsedUrl>) -> Option<ParsedUrlView> {
    match parsed {
        Some(p) => Some(p@),
        None => None,
    }
}

/// What `url::Url::parse` makes of `input`: `None` where it returns an error,
/// else the scheme and host of the parsed URL.
pub uninterp spec fn url_parse(input: Seq<char>) -> Option<ParsedUrlView>;

/// Parses `input` with `url::Url::parse` and reads the scheme (`Url::scheme`)
/// and the host (`Url::host`) of the result; a parse error becomes `None`.
/// The contract ties the result to `input` through the name `url_parse` and
/// says nothing more of what the parser accepts.
#[verifier::external_body]
fn parse_url(input: &str) -> (parsed: Option<ParsedUrl>)
    ensures
        parsed_view(parsed) == url_parse(input@),
{
    let url = url::Url::parse(input).ok()?;
    let host = match url.host() {
        None => None,
        Some(url::Host::Domain(name)) => Some(UrlHost::Domain(name.to_string())),
        Some(url::Host::Ipv4(addr)) => Some(UrlHost::Ipv4(addr.octets())),
        Some(url::Host::Ipv6(addr)) => Some(UrlHost::Ipv6(addr.segments())),
    };
    Some(ParsedUrl { scheme: url.scheme().to_string(), host })
}

/// ASCII upper-case letters folded to lower case; every other character unchanged.
pub open spec fn ascii_lower(c: char) -> char {
    if 'A' <= c <= 'Z' {
        ((c as u32) + 32) as char
    } else {
        c
    }
}

/// Equal length, and equal characters after folding ASCII letters to lower case.
pub open spec fn eq_ignore_ascii_case_spec(a: Seq<char>, b: Seq<char>) -> bool {
    &&& a.len() == b.len()
    &&& forall|i: int| 0 <= i < a.len() ==> ascii_lower(#[trigger] a[i]) == ascii_lower(b[i])
}

/// Folds an ASCII upper-case letter to lower case.
fn to_ascii_lower(c: char) -> (lower: char)
    ensures
        lower == ascii_lower(c),
{
    if 'A' <= c && c <= 'Z' {
        let code: u32 = (c as u32) + 32;
        proof {
            assert(('a' as u32) <= code <= ('z' as u32));
        }
        char_from_ascii_code(code)
    } else {
        c
    }
}

/// The character of an ASCII letter's code.
fn char_from_ascii_code(code: u32) -> (c: char)
    requires
        ('a' as u32) <= code <= ('z' as u32),
    ensures
        c == code as char,
{
    let byte: u8 = code as u8;
    byte as char
}

/// Compares two strings, ignoring the case of ASCII letters.
pub fn eq_ignore_ascii_case(a: &str, b: &str) -> (eq: bool)
    ensures
        eq == eq_ignore_ascii_case_spec(a@, b@),
{
    let n = a.unicode_len();
    if n != b.unicode_len() {
        return false;
    }
    let mut i: usize = 0;
    while i < n
        invariant
            n == a@.len(),
            n == b@.len(),
            i <= n,
            forall|j: int| 0 <= j < i ==> ascii_lower(#[trigger] a@[j]) == ascii_lower(b@[j]),
        decreases n - i,
    {
        if to_ascii_lower(a.get_char(i)) != to_ascii_lower(b.get_char(i)) {
            assert(ascii_lower(a@[i as int]) != ascii_lower(b@[i as int]));
            return false;
        }
        i = i + 1;
    }
    true
}

/// An IPv4 loopback address: in `127.0.0.0/8`.
pub open spec fn is_ipv4_loopback(octets: Seq<u8>) -> bool {
    octets[0] == 127
}

/// The IPv6 loopback address `::1`.
pub open spec fn is_ipv6_loopback(segments: Seq<u16>) -> bool {
    &&& segments.len() == 8
    &&& forall|i: int| 0 <= i < 7 ==> segments[i] == 0
    &&& segments[7] == 1
}

/// A host that names this machine: `localhost` in any ASCII case, or a loopback address.
pub open spec fn is_loopback_host(host: Option<UrlHostView>) -> bool {
    match host {
        Some(UrlHostView::Domain(name)) => eq_ignore_ascii_case_spec(name, "localhost"@),
        Some(UrlHostView::Ipv4(octets)) => is_ipv4_loopback(octets),
        Some(UrlHostView::Ipv6(segments)) => is_ipv6_loopback(segments),
        None => false,
    }
}

/// A parsed URL leaves the webview when it is a mail or phone link, or a web
/// link to a host other than this machine.
pub open spec fn opens_externally(parsed: ParsedUrlView) -> bool {
    if parsed.scheme == "mailto"@ || parsed.scheme == "tel"@ {
        true
    } else if parsed.scheme == "http"@ || parsed.scheme == "https"@ {
        !is_loopback_host(parsed.host)
    } else {
        false
    }
}

/// A link leaves the webview when the URL parser accepts it and the parsed URL
/// opens externally.
pub open spec fn link_opens_externally(url: Seq<char>) -> bool {
    match url_parse(url) {
        Some(parsed) => opens_externally(parsed),
        None => false,
    }
}

/// Whether an IPv4 address is a loopback address.
pub fn ipv4_is_loopback(octets: &[u8; 4]) -> (loopback: bool)
    ensures
        loopback == is_ipv4_loopback(octets@),
{
    octets[0] == 127
}

/// Whether an IPv6 address is the loopback address.
pub fn ipv6_is_loopback(segments: &[u16; 8]) -> (loopback: bool)
    ensures
        loopback == is_ipv6_loopback(segments@),
{
    let mut i: usize = 0;
    while i < 7
        invariant
            i <= 7,
            segments@.len() == 8,
            forall|j: int| 0 <= j < i ==> segments@[j] == 0,
        decreases 7 - i,
    {
        if segments[i] != 0 {
            return false;
        }
        i = i + 1;
    }
    segments[7] == 1
}

/// Whether a URL host names this machine.
pub fn host_is_loopback(host: Option<&UrlHost>) -> (loopback: bool)
    ensures
        loopback == is_loopback_host(
            match host {
                Some(h) => Some(h@),
                None => None,
            },
        ),
{
    proof {
        reveal_strlit("localhost");
    }
    match host {
        Some(UrlHost::Domain(name)) => eq_ignore_ascii_case(name.as_str(), "localhost"),
        Some(UrlHost::Ipv4(octets)) => ipv4_is_loopback(octets),
        Some(UrlHost::Ipv6(segments)) => ipv6_is_loopback(segments),
        None => false,
    }
}

/// Whether an already parsed URL opens outside the webview.
pub fn parsed_opens_externally(parsed: &ParsedUrl) -> (external: bool)
    ensures
        external == opens_externally(parsed@),
{
    let scheme = parsed.scheme.as_str();
    if text_eq(scheme, "mailto") || text_eq(scheme, "tel") {
        true
    } else if text_eq(scheme, "http") || text_eq(scheme, "https") {
        let host = match &parsed.host {
            Some(h) => Some(h),
            None => None,
        };
        !host_is_loopback(host)
    } else {
        false
    }
}

/// Whether a link the webview is about to follow opens in the system's handler
/// instead: mail and phone links, and web links to hosts other than this
/// machine. A link that does not parse stays in the webview.
pub fn should_open_externally(url: &str) -> (external: bool)
    ensures
        external == link_opens_externally(url@),
{
    match parse_url(url) {
        Some(parsed) => parsed_opens_externally(&parsed),
        None => false,
    }
}

/// A web link to this machine stays in the webview.
pub proof fn lemma_loopback_web_links_stay(parsed: ParsedUrlView)
    requires
        parsed.scheme == "http"@ || parsed.scheme == "https"@,
        is_loopback_host(parsed.host),
    ensures
        !opens_externally(parsed),
{
    reveal_strlit("http");
    reveal_strlit("https");
    reveal_strlit("mailto");
    reveal_strlit("tel");
    assert(parsed.scheme != "mailto"@ && parsed.scheme != "tel"@) by {
        assert("http"@.len() == 4 && "https"@.len() == 5);
        assert("mailto"@.len() == 6 && "tel"@.len() == 3);
    }
}

/// Mail and phone links always leave the webview.
pub proof fn lemma_mail_and_phone_links_leave(parsed: ParsedUrlView)
    requires
        parsed.scheme == "mailto"@ || parsed.scheme == "tel"@,
    ensures
        opens_externally(parsed),
{
}

/// Schemes other than mail, phone and web links (`file`, `about`, ...) stay in the webview.
pub proof fn lemma_other_schemes_stay(parsed: ParsedUrlView)
    requires
        parsed.scheme != "mailto"@,
        parsed.scheme != "tel"@,
        parsed.scheme != "http"@,
        parsed.scheme != "https"@,
    ensures
        !opens_externally(parsed),
{
}

/// Links that the URL parser rejects stay in the webview.
pub proof fn lemma_unparsable_links_stay(url: Seq<char>)
    requires
        url_parse(url) is None,
    ensures
        !link_opens_externally(url),
{
}

/// An http(s) link to any host that is not this machine, or with no host,
/// leaves the webview.
pub proof fn lemma_web_links_to_other_hosts_leave(parsed: ParsedUrlView)
    requires
        parsed.scheme == "http"@ || parsed.scheme == "https"@,
        !is_loopback_host(parsed.host),
    ensures
        opens_externally(parsed),
        !is_loopback_host(None),
{
}

/// An IPv4 host is this machine exactly when its first octet is 127
/// (`127.0.0.0/8`); an http(s) link to any other IPv4 address leaves the webview.
pub proof fn lemma_ipv4_loopback_is_127_slash_8(scheme: Seq<char>, octets: Seq<u8>)
    requires
        octets.len() == 4,
        scheme == "http"@ || scheme == "https"@,
    ensures
        is_loopback_host(Some(UrlHostView::Ipv4(octets))) <==> octets[0] == 127,
        octets[0] != 127 ==> opens_externally(
            ParsedUrlView { scheme, host: Some(UrlHostView::Ipv4(octets)) },
        ),
        octets[0] == 127 ==> !opens_externally(
            ParsedUrlView { scheme, host: Some(UrlHostView::Ipv4(octets)) },
        ),
{
    if octets[0] == 127 {
        lemma_loopback_web_links_stay(ParsedUrlView { scheme, host: Some(UrlHostView::Ipv4(octets)) });
    }
}

/// An IPv6 host is this machine exactly when it is `::1`; an http(s) link to
/// any other IPv6 address leaves the webview.
pub proof fn lemma_ipv6_loopback_is_only_one(scheme: Seq<char>, segments: Seq<u16>)
    requires
        segments.len() == 8,
        scheme == "http"@ || scheme == "https"@,
    ensures
        is_loopback_host(Some(UrlHostView::Ipv6(segments))) <==> segments == seq![
            0u16,
            0u16,
            0u16,
            0u16,
            0u16,
            0u16,
            0u16,
            1u16,
        ],
        segments != seq![0u16, 0u16, 0u16, 0u16, 0u16, 0u16, 0u16, 1u16] ==> opens_externally(
            ParsedUrlView { scheme, host: Some(UrlHostView::Ipv6(segments)) },
        ),
{
    let one = seq![0u16, 0u16, 0u16, 0u16, 0u16, 0u16, 0u16, 1u16];
    if is_ipv6_loopback(segments) {
        assert(segments =~= one);
    }
    if segments == one {
        assert(forall|i: int| 0 <= i < 7 ==> segments[i] == 0);
    }
}

/// A domain host is this machine exactly when it spells `localhost` with each
/// letter in either case: each character is the letter of `localhost` at that
/// place or its upper-case form (32 code points below).
pub proof fn lemma_localhost_in_any_case(name: Seq<char>)
    ensures
        is_loopback_host(Some(UrlHostView::Domain(name))) <==> {
            &&& name.len() == 9
            &&& forall|i: int|
                0 <= i < 9 ==> (#[trigger] name[i] == "localhost"@[i] || (name[i] as u32) + 32
                    == ("localhost"@[i] as u32))
        },
{
    reveal_strlit("localhost");
    let l = "localhost"@;
    assert(l.len() == 9);
    assert forall|i: int| 0 <= i < 9 implies 'a' <= #[trigger] l[i] <= 'z' by {
        assert(l[0] == 'l' && l[1] == 'o' && l[2] == 'c' && l[3] == 'a' && l[4] == 'l');
        assert(l[5] == 'h' && l[6] == 'o' && l[7] == 's' && l[8] == 't');
    }
    if is_loopback_host(Some(UrlHostView::Domain(name))) {
        assert forall|i: int| 0 <= i < 9 implies (#[trigger] name[i] == l[i] || (name[i] as u32) + 32
            == (l[i] as u32)) by {
            assert(ascii_lower(name[i]) == ascii_lower(l[i]));
            assert(ascii_lower(l[i]) == l[i]);
        }
    }
    if name.len() == 9 && forall|i: int|
        0 <= i < 9 ==> (#[trigger] name[i] == l[i] || (name[i] as u32) + 32 == (l[i] as u32)) {
        assert forall|i: int| 0 <= i < name.len() implies ascii_lower(#[trigger] name[i]) == ascii_lower(l[i]) by {
            assert(ascii_lower(l[i]) == l[i]);
            if name[i] != l[i] {
                assert((name[i] as u32) + 32 == (l[i] as u32));
                assert('A' <= name[i] <= 'Z');
            }
        }
    }
}

/// Folding ASCII case relates exactly the strings of the same length whose
/// characters agree at each place, or differ only as the upper- and lower-case
/// forms of one ASCII letter.
pub proof fn lemma_ascii_case_folding(a: Seq<char>, b: Seq<char>)
    ensures
        eq_ignore_ascii_case_spec(a, b) <==> {
            &&& a.len() == b.len()
            &&& forall|i: int|
                0 <= i < a.len() ==> {
                    ||| #[trigger] a[i] == b[i]
                    ||| 'A' <= a[i] <= 'Z' && (a[i] as u32) + 32 == (b[i] as u32)
                    ||| 'A' <= b[i] <= 'Z' && (b[i] as u32) + 32 == (a[i] as u32)
                }
        },
        eq_ignore_ascii_case_spec(a, a),
        eq_ignore_ascii_case_spec(a, b) ==> eq_ignore_ascii_case_spec(b, a),
{
    if eq_ignore_ascii_case_spec(a, b) {
        assert forall|i: int| 0 <= i < a.len() implies {
            ||| #[trigger] a[i] == b[i]
            ||| 'A' <= a[i] <= 'Z' && (a[i] as u32) + 32 == (b[i] as u32)
            ||| 'A' <= b[i] <= 'Z' && (b[i] as u32) + 32 == (a[i] as u32)
        } by {
            assert(ascii_lower(a[i]) == ascii_lower(b[i]));
        }
    }
    if a.len() == b.len() && forall|i: int|
        0 <= i < a.len() ==> {
            ||| #[trigger] a[i] == b[i]
            ||| 'A' <= a[i] <= 'Z' && (a[i] as u32) + 32 == (b[i] as u32)
            ||| 'A' <= b[i] <= 'Z' && (b[i] as u32) + 32 == (a[i] as u32)
        } {
        assert forall|i: int| 0 <= i < a.len() implies ascii_lower(#[trigger] a[i]) == ascii_lower(b[i]) by {
            assert(a[i] == b[i] || ('A' <= a[i] <= 'Z' && (a[i] as u32) + 32 == (b[i] as u32)) || (
            'A' <= b[i] <= 'Z' && (b[i] as u32) + 32 == (a[i] as u32)));
        }
    }
}

} // verus!
