//! Resolution of a user-supplied format token to an output encoding.
use vstd::prelude::*;
use vstd::string::StringExecFns;
use crate::text::{ascii_lower, matches_ignoring_case};

verus! {

/// An output encoding that the converter can produce.
#[derive(Clone, Copy, Debug, PartialEq, Eq, Structural)]
pub enum Encoding {
    Bmp,
    OpenExr,
    Gif,
    Ico,
    Jpeg,
    Png,
    Tga,
    Tiff,
    WebP,
}

impl Encoding {
    /// The canonical file extension of the encoding.
    pub open spec fn extension_spec(self) -> Seq<char> {
        match self {
            Encoding::Bmp => seq!['b', 'm', 'p'],
            Encoding::OpenExr => seq!['e', 'x', 'r'],
            Encoding::Gif => seq!['g', 'i', 'f'],
            Encoding::Ico => seq!['i', 'c', 'o'],
            Encoding::Jpeg => seq!['j', 'p', 'g'],
            Encoding::Png => seq!['p', 'n', 'g'],
            Encoding::Tga => seq!['t', 'g', 'a'],
            Encoding::Tiff => seq!['t', 'i', 'f', 'f'],
            Encoding::WebP => seq!['w', 'e', 'b', 'p'],
        }
    }

    /// The canonical file extension, which is also the encoding's canonical name.
    pub fn extension(&self) -> (r: &'static str)
        ensures
            r@ == self.extension_spec(),
    {
        match self {
            Encoding::Bmp => {
                proof { reveal_strlit("bmp"); }
                "bmp"
            },
            Encoding::OpenExr => {
                proof { reveal_strlit("exr"); }
                "exr"
            },
            Encoding::Gif => {
                proof { reveal_strlit("gif"); }
                "gif"
            },
            Encoding::Ico => {
                proof { reveal_strlit("ico"); }
                "ico"
            },
            Encoding::Jpeg => {
                proof { reveal_strlit("jpg"); }
                "jpg"
            },
            Encoding::Png => {
                proof { reveal_strlit("png"); }
                "png"
            },
            Encoding::Tga => {
                proof { reveal_strlit("tga"); }
                "tga"
            },
            Encoding::Tiff => {
                proof { reveal_strlit("tiff"); }
                "tiff"
            },
            Encoding::WebP => {
                proof { reveal_strlit("webp"); }
                "webp"
            },
        }
    }
}

/// A resampling filter, from the fastest to the highest quality.
#[derive(Clone, Copy, Debug, PartialEq, Eq, Structural)]
pub enum ResampleFilter {
    Nearest,
    Triangle,
    CatmullRom,
    Gaussian,
    Lanczos3,
}

/// A resize applied to a decoded image before it is encoded: the image is
/// resampled with `filter` to exactly `width` x `height`, whatever its shape.
#[derive(Clone, Copy, Debug, PartialEq, Eq, Structural)]
pub struct Resize {
    pub width: u32,
    pub height: u32,
    pub filter: ResampleFilter,
}

/// The outcome of resolving a format token: the encoding to produce and the
/// transform to apply to every decoded image first.
#[derive(Clone, Copy, Debug, PartialEq, Eq, Structural)]
pub struct ResolvedFormat {
    pub encoding: Encoding,
    pub transform: Option<Resize>,
}

/// Why a format token was rejected. Each variant carries the token as given.
#[derive(Debug, PartialEq, Eq)]
pub enum ResolveError {
    /// The token names no format that the converter knows.
    Unsupported(String),
    /// The token names a known format that needs support which is not available.
    Unavailable(String),
}

/// Side length of the square that icons are scaled into.
pub const ICON_SIZE: u32 = 32;

/// The encoding that a lower-case token selects, if any.
pub open spec fn encoding_of(l: Seq<char>) -> Option<Encoding> {
    if l == seq!['b', 'm', 'p'] {
        Some(Encoding::Bmp)
    } else if l == seq!['e', 'x', 'r'] {
        Some(Encoding::OpenExr)
    } else if l == seq!['g', 'i', 'f'] {
        Some(Encoding::Gif)
    } else if l == seq!['i', 'c', 'o'] {
        Some(Encoding::Ico)
    } else if l == seq!['j', 'p', 'g'] || l == seq!['j', 'p', 'e', 'g'] {
        Some(Encoding::Jpeg)
    } else if l == seq!['p', 'n', 'g'] {
        Some(Encoding::Png)
    } else if l == seq!['t', 'g', 'a'] {
        Some(Encoding::Tga)
    } else if l == seq!['t', 'i', 'f', 'f'] {
        Some(Encoding::Tiff)
    } else if l == seq!['w', 'e', 'b', 'p'] {
        Some(Encoding::WebP)
    } else {
        None
    }
}

/// Whether a lower-case token names a known format that is not available.
pub open spec fn is_unavailable(l: Seq<char>) -> bool {
    l == seq!['e', 'p', 's'] || l == seq!['s', 'v', 'g'] || l == seq!['w', 'b', 'm', 'p']
}

/// The transform that an encoding carries: icons are scaled to a small square.
pub open spec fn transform_of(e: Encoding) -> Option<Resize> {
    if e is Ico {
        Some(Resize { width: ICON_SIZE, height: ICON_SIZE, filter: ResampleFilter::Lanczos3 })
    } else {
        None
    }
}

/// What resolving a token yields, compared without regard to ASCII case.
pub open spec fn resolution(t: Seq<char>) -> Result<ResolvedFormat, bool> {
    match encoding_of(ascii_lower(t)) {
        Some(e) => Ok(ResolvedFormat { encoding: e, transform: transform_of(e) }),
        None => Err(is_unavailable(ascii_lower(t))),
    }
}

/// Whether `r` is what resolving `token` gives: the same format, or the error
/// of the right kind carrying the token.
pub open spec fn resolves_as(token: Seq<char>, r: Result<ResolvedFormat, ResolveError>) -> bool {
    match (r, resolution(token)) {
        (Ok(f), Ok(g)) => f == g,
        (Err(ResolveError::Unavailable(s)), Err(true)) => s@ == token,
        (Err(ResolveError::Unsupported(s)), Err(false)) => s@ == token,
        _ => false,
    }
}

fn resolved(e: Encoding) -> (r: ResolvedFormat)
    ensures
        r == (ResolvedFormat { encoding: e, transform: transform_of(e) }),
{
    let transform = match e {
        Encoding::Ico => Some(Resize { width: ICON_SIZE, height: ICON_SIZE, filter: ResampleFilter::Lanczos3 }),
        _ => None,
    };
    ResolvedFormat { encoding: e, transform }
}

/// Maps a format token to the encoding to produce, comparing without regard
/// to ASCII case. A known but unavailable format is told apart from an
/// unknown token.
pub fn resolve(token: &str) -> (r: Result<ResolvedFormat, ResolveError>)
    ensures
        resolves_as(token@, r),
{
    proof {
        reveal_strlit("bmp");
        assert("bmp"@ =~= seq!['b', 'm', 'p']);
        reveal_strlit("eps");
        assert("eps"@ =~= seq!['e', 'p', 's']);
        reveal_strlit("exr");
        assert("exr"@ =~= seq!['e', 'x', 'r']);
        reveal_strlit("gif");
        assert("gif"@ =~= seq!['g', 'i', 'f']);
        reveal_strlit("ico");
        assert("ico"@ =~= seq!['i', 'c', 'o']);
        reveal_strlit("jpg");
        assert("jpg"@ =~= seq!['j', 'p', 'g']);
        reveal_strlit("jpeg");
        assert("jpeg"@ =~= seq!['j', 'p', 'e', 'g']);
        reveal_strlit("png");
        assert("png"@ =~= seq!['p', 'n', 'g']);
        reveal_strlit("svg");
        assert("svg"@ =~= seq!['s', 'v', 'g']);
        reveal_strlit("tga");
        assert("tga"@ =~= seq!['t', 'g', 'a']);
        reveal_strlit("tiff");
        assert("tiff"@ =~= seq!['t', 'i', 'f', 'f']);
        reveal_strlit("wbmp");
        assert("wbmp"@ =~= seq!['w', 'b', 'm', 'p']);
        reveal_strlit("webp");
        assert("webp"@ =~= seq!['w', 'e', 'b', 'p']);
    }
    if matches_ignoring_case(token, "bmp") {
        Ok(resolved(Encoding::Bmp))
    } else if matches_ignoring_case(token, "eps") {
        Err(ResolveError::Unavailable(String::from_str(token)))
    } else if matches_ignoring_case(token, "exr") {
        Ok(resolved(Encoding::OpenExr))
    } else if matches_ignoring_case(token, "gif") {
        Ok(resolved(Encoding::Gif))
    } else if matches_ignoring_case(token, "ico") {
        Ok(resolved(Encoding::Ico))
    } else if matches_ignoring_case(token, "jpg") || matches_ignoring_case(token, "jpeg") {
        Ok(resolved(Encoding::Jpeg))
    } else if matches_ignoring_case(token, "png") {
        Ok(resolved(Encoding::Png))
    } else if matches_ignoring_case(token, "svg") {
        Err(ResolveError::Unavailable(String::from_str(token)))
    } else if matches_ignoring_case(token, "tga") {
        Ok(resolved(Encoding::Tga))
    } else if matches_ignoring_case(token, "tiff") {
        Ok(resolved(Encoding::Tiff))
    } else if matches_ignoring_case(token, "wbmp") {
        Err(ResolveError::Unavailable(String::from_str(token)))
    } else if matches_ignoring_case(token, "webp") {
        Ok(resolved(Encoding::WebP))
    } else {
        Err(ResolveError::Unsupported(String::from_str(token)))
    }
}

/// Every token of the allow-list resolves, whatever its ASCII case, to its
/// encoding; `jpeg` is an alias of `jpg`. Icons carry the resize to a
/// 32 x 32 square, with the Lanczos filter, and no other encoding carries a transform.
pub proof fn law_allow_list_resolves(token: Seq<char>, e: Encoding)
    requires
        ascii_lower(token) == e.extension_spec()
            || (e is Jpeg && ascii_lower(token) == seq!['j', 'p', 'e', 'g']),
    ensures
        resolution(token) == Ok::<ResolvedFormat, bool>(ResolvedFormat { encoding: e, transform: transform_of(e) }),
        e is Ico ==> resolution(token) == Ok::<ResolvedFormat, bool>(ResolvedFormat {
            encoding: Encoding::Ico,
            transform: Some(Resize { width: 32, height: 32, filter: ResampleFilter::Lanczos3 }),
        }),
        !(e is Ico) ==> resolution(token)->Ok_0.transform is None,
{
}

/// Tokens that differ only in ASCII case resolve alike.
pub proof fn law_case_insensitive(a: Seq<char>, b: Seq<char>)
    requires
        ascii_lower(a) == ascii_lower(b),
    ensures
        resolution(a) == resolution(b),
{
}

/// A known but unavailable format fails as unavailable; any token that is
/// neither allowed nor known fails as unsupported, so the two are told apart.
pub proof fn law_unavailable_is_distinct(token: Seq<char>)
    ensures
        is_unavailable(ascii_lower(token)) ==> resolution(token) == Err::<ResolvedFormat, bool>(true),
        encoding_of(ascii_lower(token)) is None && !is_unavailable(ascii_lower(token))
            ==> resolution(token) == Err::<ResolvedFormat, bool>(false),
{
}

} // verus!
