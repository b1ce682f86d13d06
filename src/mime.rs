//! The closed set of content kinds that the middleware recognises, and the
//! mappings between them, file extensions and content-type strings.
use vstd::prelude::*;

use http::HeaderValue;

use crate::http_spec::{header_text, value_bytes};
use crate::text::str_equal;

verus! {

/// A recognised kind of response content.
#[derive(Debug, Clone, Copy, PartialEq, Eq, Hash, Structural)]
pub enum MimeType {
    CSS,
    HTML,
    JS,
    SVG,
    TEXT,
    WEBP,
    WOFF2,
    PNG,
}

/// The canonical content-type string of each kind.
pub open spec fn canonical_name(m: MimeType) -> Seq<char> {
    match m {
        MimeType::CSS => "text/css"@,
        MimeType::HTML => "text/html"@,
        MimeType::JS => "application/javascript"@,
        MimeType::SVG => "image/svg+xml"@,
        MimeType::TEXT => "text/plain"@,
        MimeType::WEBP => "image/webp"@,
        MimeType::WOFF2 => "font/woff2"@,
        MimeType::PNG => "image/png"@,
    }
}

/// The kind named by a file extension; anything unknown is plain text.
pub open spec fn kind_of_extension(ext: Seq<char>) -> MimeType {
    if ext == "css"@ {
        MimeType::CSS
    } else if ext == "html"@ {
        MimeType::HTML
    } else if ext == "js"@ {
        MimeType::JS
    } else if ext == "svg"@ {
        MimeType::SVG
    } else if ext == "webp"@ {
        MimeType::WEBP
    } else if ext == "woff2"@ {
        MimeType::WOFF2
    } else if ext == "png"@ {
        MimeType::PNG
    } else {
        MimeType::TEXT
    }
}

/// The kind whose canonical name is exactly `name`; anything else is plain text.
pub open spec fn kind_of_name(name: Seq<char>) -> MimeType {
    if name == "text/css"@ {
        MimeType::CSS
    } else if name == "text/html"@ {
        MimeType::HTML
    } else if name == "application/javascript"@ {
        MimeType::JS
    } else if name == "image/svg+xml"@ {
        MimeType::SVG
    } else if name == "text/plain"@ {
        MimeType::TEXT
    } else if name == "image/webp"@ {
        MimeType::WEBP
    } else if name == "font/woff2"@ {
        MimeType::WOFF2
    } else if name == "image/png"@ {
        MimeType::PNG
    } else {
        MimeType::TEXT
    }
}

/// `s` has no `;` before position `i`.
pub open spec fn no_semicolon_before(s: Seq<char>, i: int) -> bool {
    forall|j: int| 0 <= j < i ==> s[j] != ';'
}

/// The part of a content-type string before its first parameter delimiter.
pub open spec fn essence(s: Seq<char>) -> Seq<char> {
    if exists|i: int| 0 <= i < s.len() && s[i] == ';' {
        let i = choose|i: int| 0 <= i < s.len() && s[i] == ';' && no_semicolon_before(s, i);
        s.subrange(0, i)
    } else {
        s
    }
}

/// The kind of a content-type string: its parameters are ignored and the rest
/// is matched exactly against the canonical names.
pub open spec fn kind_of_content_type(s: Seq<char>) -> MimeType {
    kind_of_name(essence(s))
}

/// A header value byte that may appear in a value that reads as text.
pub open spec fn is_visible_byte(b: u8) -> bool {
    (32 <= b && b < 127) || b == 9
}

/// Every byte of a header value is visible ASCII or a tab.
pub open spec fn all_visible(b: Seq<u8>) -> bool {
    forall|i: int| 0 <= i < b.len() ==> is_visible_byte(#[trigger] b[i])
}

/// The characters of a sequence of ASCII bytes.
pub open spec fn ascii_chars(b: Seq<u8>) -> Seq<char> {
    Seq::new(b.len(), |i: int| b[i] as char)
}

/// The kind of a content-type header holding the bytes `b`: a value that does
/// not read as text is plain text.
pub open spec fn kind_of_header(b: Seq<u8>) -> MimeType {
    if all_visible(b) {
        kind_of_content_type(ascii_chars(b))
    } else {
        MimeType::TEXT
    }
}

/// Parameters never change a classification: a content type followed by `;`
/// and anything at all is classified by the part before the `;` alone.
pub proof fn law_parameters_ignored(name: Seq<char>, params: Seq<char>)
    requires
        no_semicolon_before(name, name.len() as int),
    ensures
        kind_of_content_type(name + seq![';'] + params) == kind_of_name(name),
{
    let s = name + seq![';'] + params;
    assert(no_semicolon_before(s, name.len() as int));
    lemma_essence(s, name.len() as int);
    assert(s.subrange(0, name.len() as int) =~= name);
}

/// Rendering a kind to its canonical content type and classifying that
/// string gives the kind back; so distinct kinds have distinct names.
pub proof fn law_canonical_round_trip(m: MimeType)
    ensures
        kind_of_content_type(canonical_name(m)) == m,
{
    reveal_strlit("text/css");
    reveal_strlit("text/html");
    reveal_strlit("application/javascript");
    reveal_strlit("image/svg+xml");
    reveal_strlit("text/plain");
    reveal_strlit("image/webp");
    reveal_strlit("font/woff2");
    reveal_strlit("image/png");
    let s = canonical_name(m);
    assert(no_semicolon_before(s, s.len() as int));
    lemma_essence(s, s.len() as int);
    assert(s.subrange(0, s.len() as int) =~= s);
    assert("text/css"@[0] == 't' && "text/css"@.len() == 8);
    assert("text/html"@[0] == 't' && "text/html"@.len() == 9);
    assert("application/javascript"@[0] == 'a' && "application/javascript"@.len() == 22);
    assert("image/svg+xml"@[0] == 'i' && "image/svg+xml"@.len() == 13);
    assert("text/plain"@[0] == 't' && "text/plain"@.len() == 10);
    assert("image/webp"@[0] == 'i' && "image/webp"@.len() == 10);
    assert("font/woff2"@[0] == 'f' && "font/woff2"@.len() == 10);
    assert("image/png"@[0] == 'i' && "image/png"@.len() == 9);
}

/// The position of the first `;` in `s`, or its length where it has none.
fn first_semicolon(s: &str) -> (r: usize)
    ensures
        r <= s@.len(),
        no_semicolon_before(s@, r as int),
        r < s@.len() ==> s@[r as int] == ';',
{
    let n: usize = s.unicode_len();
    let mut i: usize = 0;
    while i < n
        invariant
            n == s@.len(),
            i <= n,
            no_semicolon_before(s@, i as int),
        decreases n - i,
    {
        if s.get_char(i) == ';' {
            return i;
        }
        i = i + 1;
    }
    i
}

proof fn lemma_essence(s: Seq<char>, k: int)
    requires
        0 <= k <= s.len(),
        no_semicolon_before(s, k),
        k < s.len() ==> s[k] == ';',
    ensures
        essence(s) == s.subrange(0, k),
{
    if k < s.len() {
        assert(0 <= k < s.len() && s[k] == ';' && no_semicolon_before(s, k));
        let i = choose|i: int| 0 <= i < s.len() && s[i] == ';' && no_semicolon_before(s, i);
        if i < k {
            assert(s[i] != ';');
        } else if k < i {
            assert(s[k] != ';');
        }
    } else {
        assert(s.subrange(0, k) =~= s);
    }
}

impl MimeType {
    /// The kind that a file extension (without the dot) stands for.
    pub fn from_extension(ext: &str) -> (r: MimeType)
        ensures
            r == kind_of_extension(ext@),
    {
        if str_equal(ext, "css") {
            MimeType::CSS
        } else if str_equal(ext, "html") {
            MimeType::HTML
        } else if str_equal(ext, "js") {
            MimeType::JS
        } else if str_equal(ext, "svg") {
            MimeType::SVG
        } else if str_equal(ext, "webp") {
            MimeType::WEBP
        } else if str_equal(ext, "woff2") {
            MimeType::WOFF2
        } else if str_equal(ext, "png") {
            MimeType::PNG
        } else {
            MimeType::TEXT
        }
    }

    /// The canonical content-type string of this kind.
    pub fn as_str(&self) -> (r: &'static str)
        ensures
            r@ == canonical_name(*self),
    {
        match self {
            MimeType::CSS => "text/css",
            MimeType::HTML => "text/html",
            MimeType::JS => "application/javascript",
            MimeType::SVG => "image/svg+xml",
            MimeType::TEXT => "text/plain",
            MimeType::WEBP => "image/webp",
            MimeType::WOFF2 => "font/woff2",
            MimeType::PNG => "image/png",
        }
    }

    /// The kind that names exactly this content type (parameters removed).
    pub fn from_name(name: &str) -> (r: MimeType)
        ensures
            r == kind_of_name(name@),
    {
        if str_equal(name, "text/css") {
            MimeType::CSS
        } else if str_equal(name, "text/html") {
            MimeType::HTML
        } else if str_equal(name, "application/javascript") {
            MimeType::JS
        } else if str_equal(name, "image/svg+xml") {
            MimeType::SVG
        } else if str_equal(name, "text/plain") {
            MimeType::TEXT
        } else if str_equal(name, "image/webp") {
            MimeType::WEBP
        } else if str_equal(name, "font/woff2") {
            MimeType::WOFF2
        } else if str_equal(name, "image/png") {
            MimeType::PNG
        } else {
            MimeType::TEXT
        }
    }

    /// The kind of a content-type string such as `text/html; charset=utf-8`.
    /// Never fails: what is not recognised is plain text.
    pub fn from_content_type(content_type: &str) -> (r: MimeType)
        ensures
            r == kind_of_content_type(content_type@),
    {
        let k = first_semicolon(content_type);
        proof {
            lemma_essence(content_type@, k as int);
        }
        let name = content_type.substring_char(0, k);
        MimeType::from_name(name)
    }

    /// The kind of a content-type header value read as text; `None` stands for
    /// a value that does not read as text, which is plain text.
    pub fn from_header_text(text: Option<&str>) -> (r: MimeType)
        ensures
            r == match text {
                Some(t) => kind_of_content_type(t@),
                None => MimeType::TEXT,
            },
    {
        match text {
            Some(t) => MimeType::from_content_type(t),
            None => MimeType::TEXT,
        }
    }
}

impl<'a> From<&'a HeaderValue> for MimeType {
    /// The kind of a content-type header value.
    fn from(header: &'a HeaderValue) -> (r: MimeType) {
        MimeType::from_header_text(header_text(header))
    }
}

impl<'a> vstd::std_specs::convert::FromSpecImpl<&'a HeaderValue> for MimeType {
    open spec fn obeys_from_spec() -> bool {
        true
    }

    open spec fn from_spec(header: &'a HeaderValue) -> MimeType {
        kind_of_header(value_bytes(*header))
    }
}

} // verus!
