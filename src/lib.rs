//! Response middleware that attaches a `Cache-Control` header to responses
//! whose content type belongs to a configured set of cacheable kinds.
mod http_spec;
pub mod mime;
pub mod text;

use vstd::prelude::*;
use vstd::string::StringSliceAdditionalSpecFns;

use core::time::Duration;
use http::{HeaderMap, HeaderValue};

pub use crate::http_spec::{cache_control_name, content_type_name, header_entries, value_bytes, whole_secs};
pub use crate::mime::MimeType;

use crate::http_spec::{duration_secs, get_content_type, header_value_from_str, is_header_char, try_insert_cache_control};
use crate::mime::kind_of_header;
use crate::text::{ascii_bytes, decimal, lemma_decimal_digits, push_decimal};

verus! {

/// One year, in seconds.
pub const ONE_YEAR_SECS: u64 = 31536000;

/// The kinds that are cacheable unless configured otherwise.
pub open spec fn default_kinds() -> Seq<MimeType> {
    seq![MimeType::CSS, MimeType::JS, MimeType::SVG, MimeType::WEBP, MimeType::WOFF2, MimeType::PNG]
}

/// The `Cache-Control` text for a freshness of `secs` seconds.
pub open spec fn cache_control_for(secs: nat) -> Seq<char> {
    "public, max-age="@ + decimal(secs)
}

/// The freshness text is printable ASCII, so `http` accepts it as a header value.
proof fn lemma_cache_control_printable(secs: nat)
    ensures
        vstd::utf8::is_ascii_chars(cache_control_for(secs)),
        forall|i: int| 0 <= i < cache_control_for(secs).len() ==> is_header_char(#[trigger] cache_control_for(secs)[i]),
{
    reveal_strlit("public, max-age=");
    lemma_decimal_digits(secs);
    let s = cache_control_for(secs);
    assert forall|i: int| 0 <= i < s.len() implies ' ' <= #[trigger] s[i] <= 'z' by {
        if i >= 16 {
            assert(s[i] == decimal(secs)[i - 16]);
        }
    }
}

/// What a configuration is: the cacheable kinds, and the freshness in whole seconds.
pub ghost struct Settings {
    pub kinds: Seq<MimeType>,
    pub max_age_secs: u64,
}

impl Settings {
    /// These settings with the cacheable kinds replaced.
    pub open spec fn with_kinds(self, kinds: Seq<MimeType>) -> Settings {
        Settings { kinds, ..self }
    }

    /// These settings with the freshness replaced.
    pub open spec fn with_max_age_secs(self, secs: u64) -> Settings {
        Settings { max_age_secs: secs, ..self }
    }
}

/// Setting the cacheable kinds twice keeps only the second set: nothing
/// accumulates.
pub proof fn law_with_kinds_last_wins(s: Settings, first: Seq<MimeType>, second: Seq<MimeType>)
    ensures
        s.with_kinds(first).with_kinds(second) == s.with_kinds(second),
{
}

/// Setting the freshness twice keeps only the second value.
pub proof fn law_with_max_age_last_wins(s: Settings, first: u64, second: u64)
    ensures
        s.with_max_age_secs(first).with_max_age_secs(second) == s.with_max_age_secs(second),
{
}

/// Headers without a content type are never decorated, whatever the
/// configuration.
pub proof fn law_no_content_type_untouched(s: Settings, entries: Map<Seq<char>, Seq<Seq<u8>>>)
    requires
        !entries.contains_key(content_type_name()),
    ensures
        !wants_cache_control(s, entries),
        decorated(s, entries) == entries,
{
}

/// Whether headers holding `entries` call for a `Cache-Control` header under
/// `settings`: their first content-type value names a cacheable kind.
pub open spec fn wants_cache_control(settings: Settings, entries: Map<Seq<char>, Seq<Seq<u8>>>) -> bool {
    &&& entries.contains_key(content_type_name())
    &&& entries[content_type_name()].len() > 0
    &&& settings.kinds.contains(kind_of_header(entries[content_type_name()][0]))
}

/// The header contents after decoration under `settings`: where they call
/// for it, `Cache-Control` is set to the freshness text; otherwise nothing
/// changes.
pub open spec fn decorated(
    settings: Settings,
    entries: Map<Seq<char>, Seq<Seq<u8>>>,
) -> Map<Seq<char>, Seq<Seq<u8>>> {
    if wants_cache_control(settings, entries) {
        entries.insert(
            cache_control_name(),
            seq![ascii_bytes(cache_control_for(settings.max_age_secs as nat))],
        )
    } else {
        entries
    }
}

/// Configuration of the middleware, and the factory that wraps an inner
/// service with it.
#[derive(Debug)]
pub struct CacheControlLayer {
    mime_types: Vec<MimeType>,
    max_age: Duration,
}

/// Why a `Cache-Control` value could not be produced.
#[derive(Debug, Clone, Copy, PartialEq, Eq, Structural)]
pub enum CacheControlError {
    InvalidMaxAge,
    InvalidMimeType,
}

impl CacheControlError {
    /// A short description of the error.
    pub fn message(&self) -> (r: &'static str)
        ensures
            r@ == match *self {
                CacheControlError::InvalidMaxAge => "invalid max-age value"@,
                CacheControlError::InvalidMimeType => "invalid MIME type"@,
            },
    {
        match self {
            CacheControlError::InvalidMaxAge => "invalid max-age value",
            CacheControlError::InvalidMimeType => "invalid MIME type",
        }
    }
}

/// The `Cache-Control` text for a freshness of `secs` seconds, such as
/// `public, max-age=86400`.
pub fn cache_control_text(secs: u64) -> (r: String)
    ensures
        r@ == cache_control_for(secs as nat),
{
    let mut s = String::from_str("public, max-age=");
    push_decimal(&mut s, secs);
    s
}

impl View for CacheControlLayer {
    type V = Settings;

    closed spec fn view(&self) -> Settings {
        Settings { kinds: self.mime_types@, max_age_secs: whole_secs(self.max_age) }
    }
}

fn copy_kinds(kinds: &[MimeType]) -> (r: Vec<MimeType>)
    ensures
        r@ == kinds@,
{
    let mut r: Vec<MimeType> = Vec::new();
    let mut i: usize = 0;
    while i < kinds.len()
        invariant
            i <= kinds@.len(),
            r@ == kinds@.subrange(0, i as int),
        decreases kinds@.len() - i,
    {
        r.push(kinds[i]);
        i = i + 1;
        assert(r@ =~= kinds@.subrange(0, i as int));
    }
    assert(kinds@.subrange(0, kinds@.len() as int) =~= kinds@);
    r
}

impl CacheControlLayer {
    /// The default configuration: style sheets, scripts, SVG, WebP, WOFF2 and
    /// PNG are cacheable, for one year.
    pub fn new() -> (r: CacheControlLayer)
        ensures
            r@.kinds == default_kinds(),
            r@.max_age_secs == ONE_YEAR_SECS,
    {
        let mime_types = vec![
            MimeType::CSS,
            MimeType::JS,
            MimeType::SVG,
            MimeType::WEBP,
            MimeType::WOFF2,
            MimeType::PNG,
        ];
        let r = CacheControlLayer { mime_types, max_age: Duration::from_secs(ONE_YEAR_SECS) };
        assert(r@.kinds =~= default_kinds());
        r
    }

    /// Replaces the cacheable kinds.
    pub fn with_mime_types(self, mime_types: &[MimeType]) -> (r: CacheControlLayer)
        ensures
            r@ == self@.with_kinds(mime_types@),
    {
        CacheControlLayer { mime_types: copy_kinds(mime_types), max_age: self.max_age }
    }

    /// Replaces the freshness.
    pub fn with_max_age(self, max_age: Duration) -> (r: CacheControlLayer)
        ensures
            r@ == self@.with_max_age_secs(whole_secs(max_age)),
    {
        CacheControlLayer { mime_types: self.mime_types, max_age }
    }

    /// Whether responses of this kind get a `Cache-Control` header.
    pub fn is_cacheable(&self, kind: MimeType) -> (r: bool)
        ensures
            r == self@.kinds.contains(kind),
    {
        let mut i: usize = 0;
        while i < self.mime_types.len()
            invariant
                i <= self.mime_types@.len(),
                forall|j: int| 0 <= j < i ==> self.mime_types@[j] != kind,
            decreases self.mime_types@.len() - i,
        {
            if self.mime_types[i] == kind {
                return true;
            }
            i = i + 1;
        }
        false
    }

    /// The `Cache-Control` value for the configured freshness. It always
    /// succeeds: the text holds only visible ASCII characters.
    pub fn cache_control_value(&self) -> (r: Result<HeaderValue, CacheControlError>)
        ensures
            r is Ok,
            r is Ok ==> value_bytes(r->Ok_0) == ascii_bytes(cache_control_for(self@.max_age_secs as nat)),
    {
        let text = cache_control_text(duration_secs(&self.max_age));
        let t = text.as_str();
        proof {
            lemma_cache_control_printable(self@.max_age_secs as nat);
            vstd::string::is_ascii_spec_bytes(t);
            assert(t.spec_bytes() =~= ascii_bytes(t@));
        }
        match header_value_from_str(t) {
            Ok(v) => Ok(v),
            Err(_) => Err(CacheControlError::InvalidMaxAge),
        }
    }

    /// The `Cache-Control` value that a response with this first content-type
    /// value gets, if any: one exactly where the value is present and its
    /// kind is cacheable.
    pub fn header_for(&self, content_type: Option<&HeaderValue>) -> (r: Option<HeaderValue>)
        ensures
            r is Some <==> match content_type {
                Some(v) => self@.kinds.contains(kind_of_header(value_bytes(*v))),
                None => false,
            },
            r is Some ==> value_bytes(r->Some_0) == ascii_bytes(cache_control_for(self@.max_age_secs as nat)),
    {
        match content_type {
            None => None,
            Some(v) => {
                let kind = MimeType::from(v);
                if self.is_cacheable(kind) {
                    match self.cache_control_value() {
                        Ok(value) => Some(value),
                        Err(_) => None,
                    }
                } else {
                    None
                }
            },
        }
    }

    /// Sets `Cache-Control` on a response's headers where its first content
    /// type is cacheable, and says whether it did. The headers stay as they
    /// are otherwise, and where the map has no room left for the header.
    pub fn decorate(&self, headers: &mut HeaderMap) -> (set: bool)
        ensures
            set ==> wants_cache_control(self@, header_entries(*old(headers))),
            set ==> header_entries(*final(headers)) == decorated(self@, header_entries(*old(headers))),
            !set ==> header_entries(*final(headers)) == header_entries(*old(headers)),
    {
        let value = self.header_for(get_content_type(headers));
        match value {
            Some(v) => try_insert_cache_control(headers, v).is_ok(),
            None => false,
        }
    }

    /// Wraps an inner service with this configuration.
    pub fn layer<S>(&self, inner: S) -> (r: CacheControl<S>)
        ensures
            r.inner == inner,
            r.layer@ == self@,
    {
        CacheControl { inner, layer: self.clone() }
    }
}

impl Clone for CacheControlLayer {
    fn clone(&self) -> (r: CacheControlLayer)
        ensures
            r@ == self@,
    {
        CacheControlLayer { mime_types: copy_kinds(self.mime_types.as_slice()), max_age: self.max_age }
    }
}

impl Default for CacheControlLayer {
    /// The default configuration, as `new` gives it.
    fn default() -> (r: CacheControlLayer)
        ensures
            r@.kinds == default_kinds(),
            r@.max_age_secs == ONE_YEAR_SECS,
    {
        CacheControlLayer::new()
    }
}

/// An inner service together with the configuration that decorates its responses.
#[derive(Debug, Clone)]
pub struct CacheControl<S> {
    pub inner: S,
    pub layer: CacheControlLayer,
}

impl<S> CacheControl<S> {
    /// Decorates the headers of a response that the inner service produced.
    pub fn decorate(&self, headers: &mut HeaderMap) -> (set: bool)
        ensures
            set ==> wants_cache_control(self.layer@, header_entries(*old(headers))),
            set ==> header_entries(*final(headers)) == decorated(self.layer@, header_entries(*old(headers))),
            !set ==> header_entries(*final(headers)) == header_entries(*old(headers)),
    {
        self.layer.decorate(headers)
    }
}

} // verus!
