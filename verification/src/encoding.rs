//! The closed set of image encodings the pipeline works with, together with
//! their canonical MIME content types, filename extensions, and the
//! case-insensitive extension parser (accepting the `jpg`/`jpeg` aliases).

use vstd::prelude::*;
use vstd::string::StrSliceExecFns;

verus! {

/// A supported image encoding.
#[derive(Debug, Clone, Copy, PartialEq, Eq, Structural)]
pub enum ImageEncoding {
    AVIF,
    JPEG,
    PNG,
}

/// ASCII lowercasing of a single character; characters outside `A..=Z` are
/// left unchanged.
pub open spec fn lower_char_spec(c: char) -> char {
    if 'A' <= c && c <= 'Z' {
        (((c as u32) + 32) as char)
    } else {
        c
    }
}

/// ASCII lowercasing of a character sequence.
pub open spec fn lower_seq(s: Seq<char>) -> Seq<char> {
    s.map_values(|c: char| lower_char_spec(c))
}

/// Which encoding, if any, a filename extension denotes, ignoring ASCII case
/// and accepting the `jpg` alias for `jpeg`.
pub open spec fn encoding_of_extension(s: Seq<char>) -> Option<ImageEncoding> {
    let l = lower_seq(s);
    if l == "avif"@ {
        Some(ImageEncoding::AVIF)
    } else if l == "jpg"@ || l == "jpeg"@ {
        Some(ImageEncoding::JPEG)
    } else if l == "png"@ {
        Some(ImageEncoding::PNG)
    } else {
        None
    }
}

impl ImageEncoding {
    /// The canonical MIME content type of this encoding.
    pub open spec fn spec_content_type(self) -> Seq<char> {
        match self {
            ImageEncoding::AVIF => "image/avif"@,
            ImageEncoding::JPEG => "image/jpeg"@,
            ImageEncoding::PNG => "image/png"@,
        }
    }

    /// The canonical dotted filename extension of this encoding.
    pub open spec fn spec_extension(self) -> Seq<char> {
        match self {
            ImageEncoding::AVIF => ".avif"@,
            ImageEncoding::JPEG => ".jpg"@,
            ImageEncoding::PNG => ".png"@,
        }
    }

    /// The canonical extension without the leading dot, as stored on disk.
    pub open spec fn spec_bare_extension(self) -> Seq<char> {
        match self {
            ImageEncoding::AVIF => "avif"@,
            ImageEncoding::JPEG => "jpg"@,
            ImageEncoding::PNG => "png"@,
        }
    }

    pub fn content_type(&self) -> (r: &str)
        ensures
            r@ == self.spec_content_type(),
    {
        match self {
            ImageEncoding::AVIF => "image/avif",
            ImageEncoding::JPEG => "image/jpeg",
            ImageEncoding::PNG => "image/png",
        }
    }

    pub fn extension(&self) -> (r: &str)
        ensures
            r@ == self.spec_extension(),
    {
        match self {
            ImageEncoding::AVIF => ".avif",
            ImageEncoding::JPEG => ".jpg",
            ImageEncoding::PNG => ".png",
        }
    }

    /// The canonical extension without the leading dot.
    pub fn bare_extension(&self) -> (r: &str)
        ensures
            r@ == self.spec_bare_extension(),
    {
        match self {
            ImageEncoding::AVIF => "avif",
            ImageEncoding::JPEG => "jpg",
            ImageEncoding::PNG => "png",
        }
    }

    /// Parses a filename extension (without dot) into an encoding,
    /// case-insensitively, accepting `jpg` as an alias of `jpeg`.
    pub fn from_extension(ext: &str) -> (r: Option<ImageEncoding>)
        ensures
            r == encoding_of_extension(ext@),
    {
        if str_eq_lower(ext, "avif") {
            Some(ImageEncoding::AVIF)
        } else if str_eq_lower(ext, "jpg") || str_eq_lower(ext, "jpeg") {
            Some(ImageEncoding::JPEG)
        } else if str_eq_lower(ext, "png") {
            Some(ImageEncoding::PNG)
        } else {
            None
        }
    }
}

impl Default for ImageEncoding {
    /// The default encoding is AVIF, the pipeline's canonical storage format.
    fn default() -> (r: Self)
        ensures
            r == ImageEncoding::AVIF,
    {
        ImageEncoding::AVIF
    }
}

/// Lowercases one ASCII character at run time.
fn lower_char(c: char) -> (r: char)
    ensures
        r == lower_char_spec(c),
{
    if 'A' <= c && c <= 'Z' {
        (((c as u8) + 32) as char)
    } else {
        c
    }
}

/// Compares the ASCII lowercasing of `s` against `t` character by character.
fn str_eq_lower(s: &str, t: &str) -> (r: bool)
    ensures
        r == (lower_seq(s@) == t@),
{
    let n = s.unicode_len();
    if n != t.unicode_len() {
        assert(lower_seq(s@).len() == s@.len());
        return false;
    }
    let mut i: usize = 0;
    while i < n
        invariant
            i <= n,
            n == s@.len(),
            n == t@.len(),
            forall|j: int| 0 <= j < i ==> lower_char_spec(s@[j]) == t@[j],
        decreases n - i,
    {
        if lower_char(s.get_char(i)) != t.get_char(i) {
            assert(lower_seq(s@)[i as int] != t@[i as int]);
            return false;
        }
        i += 1;
    }
    assert(lower_seq(s@) =~= t@);
    true
}

} // verus!
