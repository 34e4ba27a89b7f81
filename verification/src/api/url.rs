//! Absolute URLs, as the crate `url` reads and joins them.

use crate::model::result_view;
use crate::text::{first_at, first_at_is, first_at_is_first, until, up_to};
use vstd::prelude::*;
use vstd::string::*;

verus! {

/// What a text is as an absolute URL: its normal form, or the words of the
/// parser that refuses it.
pub uninterp spec fn url_parsed(text: Seq<char>) -> Result<Seq<char>, Seq<char>>;

/// What a reference is, taken relative to the URL `base`: the normal form of
/// the URL it leads to, or the words of the parser that refuses it.
pub uninterp spec fn url_joined(base: Seq<char>, reference: Seq<char>) -> Result<
    Seq<char>,
    Seq<char>,
>;

/// The longest domain name.
pub const MAX_HOST_LEN: usize = 253;

/// A host that is written in small letters and dots.
pub open spec fn plain_host(host: Seq<char>) -> bool {
    &&& 0 < host.len() <= MAX_HOST_LEN
    &&& forall|i: int| 0 <= i < host.len() ==> 'a' <= #[trigger] host[i] <= 'z' || host[i] == '.'
}

/// The URL of a host, in normal form.
pub open spec fn host_url(host: Seq<char>) -> Seq<char> {
    "https://"@ + host + "/"@
}

/// `text` names a plain host and nothing else, with or without a slash.
pub open spec fn names_host(text: Seq<char>, host: Seq<char>) -> bool {
    plain_host(host) && (text == "https://"@ + host || text == host_url(host))
}

/// What comes of a text that names a plain host: the URL of the host, which
/// comes of itself too.
pub open spec fn host_passes(text: Seq<char>, outcome: Result<Seq<char>, Seq<char>>) -> bool {
    forall|host: Seq<char>| #[trigger]
        names_host(text, host) ==> outcome == Ok::<Seq<char>, Seq<char>>(host_url(host))
            && normal_form(host_url(host))
}

/// `url::Url::parse`. Trusted: the outcome is named; a plain host by itself
/// passes through unchanged, and its URL ends in a slash.
#[verifier::external_body]
fn parse_url(text: &str) -> (r: Result<String, String>)
    ensures
        result_view(r) == url_parsed(text@),
        host_passes(text@, result_view(r)),
{
    match url::Url::parse(text) {
        Ok(url) => Ok(url.to_string()),
        Err(error) => Err(error.to_string()),
    }
}

/// A character that stands for itself in a path.
pub open spec fn plain_char(c: char) -> bool {
    ('a' <= c && c <= 'z') || ('A' <= c && c <= 'Z') || ('0' <= c && c <= '9') || c == '-' || c
        == '_' || c == '/'
}

/// A text of characters that stand for themselves.
pub open spec fn plain(text: Seq<char>) -> bool {
    forall|i: int| 0 <= i < text.len() ==> plain_char(#[trigger] text[i])
}

/// A URL as the parser writes it.
pub open spec fn normal_form(url: Seq<char>) -> bool {
    url_parsed(url) == Ok::<Seq<char>, Seq<char>>(url)
}

/// A path to append: characters that stand for themselves, and no slash first.
pub open spec fn plain_below(path: Seq<char>) -> bool {
    plain(path) && !(path.len() > 0 && path[0] == '/')
}

/// A web URL in normal form that ends in a slash, without query and fragment.
pub open spec fn web_directory(url: Seq<char>) -> bool {
    &&& "https://"@.is_prefix_of(url) || "http://"@.is_prefix_of(url)
    &&& url.len() > 0 && url.last() == '/'
    &&& !url.contains('?') && !url.contains('#')
    &&& normal_form(url)
}

/// `url::Url::join`, on the URL that `base` parses to. Trusted: the outcome
/// is named; below a web directory a plain path that does not start with a
/// slash is appended as it stands, and what comes out is in normal form.
#[verifier::external_body]
fn join_url(base: &str, reference: &str) -> (r: Result<String, String>)
    ensures
        result_view(r) == url_joined(base@, reference@),
        web_directory(base@) && plain_below(reference@) ==> r is Ok,
        r matches Ok(url) ==> (web_directory(base@) && plain_below(reference@) ==> url@ == base@
            + reference@ && normal_form(url@)),
{
    match url::Url::parse(base).and_then(|base| base.join(reference)) {
        Ok(url) => Ok(url.to_string()),
        Err(error) => Err(error.to_string()),
    }
}

/// `text` with a slash at its end.
pub open spec fn with_slash(text: Seq<char>) -> Seq<char> {
    if text.len() > 0 && text.last() == '/' {
        text
    } else {
        text.push('/')
    }
}

/// A URL without its query and fragment.
pub open spec fn bare(url: Seq<char>) -> Seq<char> {
    until(until(url, '#'), '?')
}

/// A URL whose scheme is followed by a slash: its path is made of segments.
/// Others, such as `mailto:someone` or `data:`, have no directories, and no
/// reference leads anywhere from them.
pub open spec fn hierarchical(url: Seq<char>) -> bool {
    let colon = first_at(url, ':') as int;
    colon + 1 < url.len() && url[colon + 1] == '/'
}

/// The directory that a URL names: its scheme, authority and path, with a
/// slash at the end. A query and a fragment do not count. A URL that is not
/// made of segments stands for itself.
pub open spec fn directory(url: Seq<char>) -> Seq<char> {
    if hierarchical(bare(url)) {
        with_slash(bare(url))
    } else {
        bare(url)
    }
}

/// The URL of a plain host names itself as its directory.
proof fn host_is_a_directory(host: Seq<char>)
    requires
        plain_host(host),
        normal_form(host_url(host)),
    ensures
        directory(host_url(host)) == host_url(host),
        web_directory(host_url(host)),
{
    reveal_strlit("https://");
    reveal_strlit("/");
    let url = host_url(host);
    assert forall|i: int| 0 <= i < url.len() implies url[i] != '?' && url[i] != '#' by {
        if 8 <= i < 8 + host.len() {
            assert(url[i] == host[i - 8]);
        }
    }
    first_at_is(url, '#', url.len());
    assert(until(url, '#') =~= url);
    first_at_is(url, '?', url.len());
    assert(until(url, '?') =~= url);
    assert(url[5] == ':' && url[6] == '/');
    first_at_is(url, ':', 5);
    assert("https://"@ =~= url.subrange(0, 8));
}

/// An absolute URL in normal form. Values come from [`Url::parse`] and
/// [`Url::join`] only.
#[derive(Debug, PartialEq, Eq)]
pub struct Url {
    text: String,
}

impl View for Url {
    type V = Seq<char>;

    closed spec fn view(&self) -> Seq<char> {
        self.text@
    }
}

impl Clone for Url {
    fn clone(&self) -> (r: Self)
        ensures
            r@ == self@,
    {
        Url { text: self.text.clone() }
    }
}

impl Url {
    /// The URL that `text` is. A plain host by itself gives the URL of the
    /// host, which is the directory of its own references.
    pub fn parse(text: &str) -> (r: Result<Url, String>)
        ensures
            result_view(r) == url_parsed(text@),
            forall|host: Seq<char>| #[trigger]
                names_host(text@, host) ==> (r matches Ok(url) && url@ == host_url(host)
                    && directory(url@) == url@ && web_directory(url@)),
    {
        proof {
            assert forall|host: Seq<char>| #[trigger] names_host(text@, host) && normal_form(
                host_url(host),
            ) implies directory(host_url(host)) == host_url(host) && web_directory(
                host_url(host),
            ) by {
                host_is_a_directory(host);
            }
        }
        match parse_url(text) {
            Ok(text) => Ok(Url { text }),
            Err(error) => Err(error),
        }
    }

    /// The URL that `reference` leads to from this one.
    pub fn join(&self, reference: &str) -> (r: Result<Url, String>)
        ensures
            result_view(r) == url_joined(self@, reference@),
            web_directory(self@) && plain_below(reference@) ==> (r matches Ok(url) && url@ == self@
                + reference@ && normal_form(url@)),
    {
        match join_url(self.text.as_str(), reference) {
            Ok(text) => Ok(Url { text }),
            Err(error) => Err(error),
        }
    }

    /// The URL that `reference` leads to from the directory that this one
    /// names. Where this URL has a path of segments, all of it is kept, with or
    /// without a slash at its end; a query or a fragment of it is dropped.
    pub fn join_below(&self, reference: &str) -> (r: Result<Url, String>)
        ensures
            result_view(r) == url_joined(directory(self@), reference@),
            web_directory(directory(self@)) && plain_below(reference@) ==> (r matches Ok(url)
                && url@ == directory(self@) + reference@ && normal_form(url@)),
    {
        let kept: &str = up_to(up_to(self.text.as_str(), '#'), '?');
        let len: usize = kept.unicode_len();
        let colon: usize = up_to(kept, ':').unicode_len();
        let mut base: String = kept.to_owned();
        proof {
            first_at_is_first(kept@, ':');
            assert(colon == first_at(kept@, ':'));
        }
        if colon < len && colon + 1 < len && kept.get_char(colon + 1) == '/' {
            if kept.get_char(len - 1) != '/' {
                base.append("/");
                proof {
                    reveal_strlit("/");
                    assert(base@ =~= kept@.push('/'));
                }
            }
        }
        match join_url(base.as_str(), reference) {
            Ok(text) => Ok(Url { text }),
            Err(error) => Err(error),
        }
    }

    pub fn as_str(&self) -> (r: &str)
        ensures
            r@ == self@,
    {
        self.text.as_str()
    }
}

// ---------------------------------------------------------------------
// Laws
// ---------------------------------------------------------------------

/// A URL has segments exactly when a slash follows its scheme.
pub proof fn segments_follow_the_scheme(scheme: Seq<char>, rest: Seq<char>)
    requires
        !scheme.contains(':'),
    ensures
        hierarchical(scheme.push(':') + rest) <==> rest.len() > 0 && rest[0] == '/',
{
    let url = scheme.push(':') + rest;
    assert forall|j: int| 0 <= j < scheme.len() implies url[j] != ':' by {
        assert(scheme.contains(scheme[j]));
    }
    first_at_is(url, ':', scheme.len());
}

/// A query and a fragment are cut off a URL, and nothing else is.
pub proof fn query_and_fragment_are_cut_off(front: Seq<char>, tail: Seq<char>)
    requires
        !front.contains('?'),
        !front.contains('#'),
        tail.len() > 0 ==> tail[0] == '?' || tail[0] == '#',
    ensures
        bare(front + tail) == front,
{
    let whole = front + tail;
    assert forall|j: int| 0 <= j < front.len() implies front[j] != '?' && front[j] != '#' by {
        assert(front.contains(front[j]));
    }
    first_at_is_first(whole, '#');
    let end = first_at(whole, '#') as int;
    assert(end >= front.len()) by {
        if end < front.len() {
            assert(whole[end] == front[end]);
        }
    }
    let before = until(whole, '#');
    assert forall|j: int| 0 <= j < front.len() implies before[j] != '?' by {
        assert(before[j] == front[j]);
    }
    if end > front.len() {
        assert(whole[front.len() as int] == tail[0]);
    }
    first_at_is(before, '?', front.len());
    assert(until(before, '?') =~= front);
}

/// The directory of a URL with segments is the URL itself where it ends in a
/// slash, and else the URL with one slash more; a URL without segments has none
/// but itself.
pub proof fn a_directory_ends_in_one_slash_more(url: Seq<char>)
    requires
        !url.contains('?'),
        !url.contains('#'),
    ensures
        hierarchical(url) && url.last() == '/' ==> directory(url) == url,
        hierarchical(url) && url.last() != '/' ==> directory(url) == url.push('/'),
        !hierarchical(url) ==> directory(url) == url,
{
    query_and_fragment_are_cut_off(url, Seq::empty());
    assert(url + Seq::<char>::empty() =~= url);
}

} // verus!
