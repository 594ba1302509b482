//! Which image files the game handles, and where a resized copy is written.
use vstd::prelude::*;

verus! {

/// The formats a resized image can be written in.
#[derive(Clone, Copy, Debug, PartialEq, Eq)]
pub enum ImageKind {
    Jpeg,
    Png,
    Bmp,
    Gif,
}

/// Why an image cannot be resized.
#[derive(Clone, Copy, Debug, PartialEq, Eq)]
pub enum ResizeError {
    /// The file's extension names no format that a resized copy can be
    /// written in.
    UnsupportedFormat,
}

/// Where and how a resized copy of an image is written.
pub struct ResizePlan {
    pub output_path: String,
    pub kind: ImageKind,
}

/// The path's extension as `std::path::Path::extension` finds it, when it
/// has one that is valid Unicode.
pub uninterp spec fn extension_of(path: Seq<char>) -> Option<Seq<char>>;

/// The text as `str::to_lowercase` gives it.
pub uninterp spec fn lowercase_of(s: Seq<char>) -> Seq<char>;

/// Relies on `std::path::Path::extension` and `OsStr::to_str`: the
/// extension depends on the path's text alone.
#[verifier::external_body]
fn path_extension(path: &str) -> (r: Option<String>)
    ensures
        r matches Some(e) ==> extension_of(path@) == Some(e@),
        r is None ==> extension_of(path@) is None,
{
    std::path::Path::new(path).extension().and_then(|e| e.to_str()).map(|e| e.to_string())
}

/// Relies on `str::to_lowercase`: the result depends on the characters
/// alone, and the empty string stays empty.
#[verifier::external_body]
fn lowercase(s: &str) -> (r: String)
    ensures
        r@ == lowercase_of(s@),
        s@.len() == 0 ==> r@.len() == 0,
{
    s.to_lowercase()
}

pub open spec fn supported_extensions() -> Set<Seq<char>> {
    set!["png"@, "jpg"@, "jpeg"@, "bmp"@, "gif"@, "tiff"@, "webp"@]
}

/// The format a resized copy is written in, for a lower-case extension.
pub open spec fn kind_for_extension(ext: Seq<char>) -> Option<ImageKind> {
    if ext == "jpg"@ || ext == "jpeg"@ {
        Some(ImageKind::Jpeg)
    } else if ext == "png"@ {
        Some(ImageKind::Png)
    } else if ext == "bmp"@ {
        Some(ImageKind::Bmp)
    } else if ext == "gif"@ {
        Some(ImageKind::Gif)
    } else {
        None
    }
}

/// `s` with every trailing copy of `p` removed, as `str::trim_end_matches`
/// does with a non-empty pattern.
pub open spec fn trim_end_all(s: Seq<char>, p: Seq<char>) -> Seq<char>
    decreases s.len(),
{
    if 0 < p.len() <= s.len() && s.subrange(s.len() - p.len(), s.len() as int) == p {
        trim_end_all(s.subrange(0, s.len() - p.len()), p)
    } else {
        s
    }
}

/// The path of the resized copy of `path`, whose lower-case extension is
/// `ext`: the extension and then any dots are trimmed from the end of the
/// path, and `_resized.` and the extension are appended.
pub open spec fn resized_path(path: Seq<char>, ext: Seq<char>) -> Seq<char> {
    trim_end_all(trim_end_all(path, ext), seq!['.']) + "_resized."@ + ext
}

/// The lower-case extension of `path` as the resize step reads it: empty
/// when the path has none.
pub open spec fn lower_extension(path: Seq<char>) -> Seq<char> {
    match extension_of(path) {
        Some(e) => lowercase_of(e),
        None => lowercase_of(Seq::empty()),
    }
}

/// Whether two strings hold the same characters.
fn same_text(a: &str, b: &str) -> (r: bool)
    ensures
        r == (a@ == b@),
{
    let n: usize = a.unicode_len();
    if n != b.unicode_len() {
        return false;
    }
    let mut i: usize = 0;
    while i < n
        invariant
            n == a@.len(),
            n == b@.len(),
            i <= n,
            a@.take(i as int) == b@.take(i as int),
        decreases n - i,
    {
        if a.get_char(i) != b.get_char(i) {
            assert(a@[i as int] != b@[i as int]);
            return false;
        }
        assert(a@.take(i + 1) =~= a@.take(i as int).push(a@[i as int]));
        assert(b@.take(i + 1) =~= b@.take(i as int).push(b@[i as int]));
        i = i + 1;
    }
    assert(a@ =~= a@.take(n as int));
    assert(b@ =~= b@.take(n as int));
    true
}

/// Whether the first `end` characters of `s` end with `p`.
fn ends_with_at(s: &str, end: usize, p: &str) -> (r: bool)
    requires
        end <= s@.len(),
    ensures
        r == (p@.len() <= end && s@.subrange(end - p@.len(), end as int) == p@),
{
    let m: usize = p.unicode_len();
    if m > end {
        return false;
    }
    let start: usize = end - m;
    let mut j: usize = 0;
    while j < m
        invariant
            m == p@.len(),
            start + m == end,
            end <= s@.len(),
            j <= m,
            s@.subrange(start as int, start + j) == p@.take(j as int),
        decreases m - j,
    {
        if s.get_char(start + j) != p.get_char(j) {
            assert(s@.subrange(start as int, end as int)[j as int] != p@[j as int]);
            return false;
        }
        assert(s@.subrange(start as int, start + j + 1) =~= s@.subrange(start as int, start + j).push(
            s@[start + j],
        ));
        assert(p@.take(j + 1) =~= p@.take(j as int).push(p@[j as int]));
        j = j + 1;
    }
    assert(p@ =~= p@.take(m as int));
    true
}

/// How many characters of `s` are left once every trailing copy of the
/// non-empty pattern `p` is trimmed.
fn trimmed_len(s: &str, p: &str) -> (r: usize)
    requires
        p@.len() > 0,
    ensures
        r <= s@.len(),
        s@.take(r as int) == trim_end_all(s@, p@),
{
    let mut k: usize = s.unicode_len();
    assert(s@.take(k as int) =~= s@);
    while ends_with_at(s, k, p)
        invariant
            p@.len() > 0,
            k <= s@.len(),
            trim_end_all(s@.take(k as int), p@) == trim_end_all(s@, p@),
        decreases k,
    {
        let ghost t: Seq<char> = s@.take(k as int);
        let m: usize = p.unicode_len();
        assert(t.subrange(t.len() - p@.len(), t.len() as int) =~= s@.subrange(k - m, k as int));
        assert(t.subrange(0, t.len() - p@.len()) =~= s@.take(k - m));
        k = k - m;
    }
    proof {
        let t: Seq<char> = s@.take(k as int);
        if p@.len() <= k {
            assert(t.subrange(t.len() - p@.len(), t.len() as int) =~= s@.subrange(k - p@.len(), k as int));
        }
    }
    k
}

/// Whether a file extension (as written, without the dot) names an image
/// format the game lists among its assets.
pub fn is_supported_image_format(ext: &str) -> (r: bool)
    ensures
        r == supported_extensions().contains(ext@),
{
    proof {
        reveal_strlit("png");
        reveal_strlit("jpg");
        reveal_strlit("jpeg");
        reveal_strlit("bmp");
        reveal_strlit("gif");
        reveal_strlit("tiff");
        reveal_strlit("webp");
    }
    same_text(ext, "png") || same_text(ext, "jpg") || same_text(ext, "jpeg") || same_text(ext, "bmp")
        || same_text(ext, "gif") || same_text(ext, "tiff") || same_text(ext, "webp")
}

/// The format a resized copy is written in, for a lower-case extension.
pub fn kind_for(ext: &str) -> (r: Option<ImageKind>)
    ensures
        r == kind_for_extension(ext@),
{
    if same_text(ext, "jpg") || same_text(ext, "jpeg") {
        Some(ImageKind::Jpeg)
    } else if same_text(ext, "png") {
        Some(ImageKind::Png)
    } else if same_text(ext, "bmp") {
        Some(ImageKind::Bmp)
    } else if same_text(ext, "gif") {
        Some(ImageKind::Gif)
    } else {
        None
    }
}

/// Where and in which format the resized copy of `path` is written, given
/// the path's lower-case extension `ext`.
pub fn plan_for_extension(path: &str, ext: &str) -> (r: Result<ResizePlan, ResizeError>)
    ensures
        kind_for_extension(ext@) is None ==> r == Err::<ResizePlan, ResizeError>(
            ResizeError::UnsupportedFormat,
        ),
        kind_for_extension(ext@) matches Some(k) ==> r matches Ok(plan) && plan.kind == k
            && plan.output_path@ == resized_path(path@, ext@),
{
    let kind: ImageKind = match kind_for(ext) {
        Some(k) => k,
        None => {
            return Err(ResizeError::UnsupportedFormat);
        },
    };
    proof {
        reveal_strlit("jpg");
        reveal_strlit("jpeg");
        reveal_strlit("png");
        reveal_strlit("bmp");
        reveal_strlit("gif");
        reveal_strlit(".");
        reveal_strlit("_resized.");
    }
    assert(ext@.len() > 0);
    let stem_len: usize = trimmed_len(path, ext);
    let stem: &str = path.substring_char(0, stem_len);
    let dot: &str = ".";
    assert(dot@ =~= seq!['.']);
    let base_len: usize = trimmed_len(stem, dot);
    let mut out: String = String::from_str(stem.substring_char(0, base_len));
    out.append("_resized.");
    out.append(ext);
    assert(stem@ =~= path@.take(stem_len as int));
    Ok(ResizePlan { output_path: out, kind })
}

/// Where and in which format the resized copy of the image at `path` is
/// written: the format follows the path's extension, read in lower case.
pub fn resize_plan(path: &str) -> (r: Result<ResizePlan, ResizeError>)
    ensures
        kind_for_extension(lower_extension(path@)) is None ==> r == Err::<ResizePlan, ResizeError>(
            ResizeError::UnsupportedFormat,
        ),
        kind_for_extension(lower_extension(path@)) matches Some(k) ==> r matches Ok(plan)
            && plan.kind == k && plan.output_path@ == resized_path(path@, lower_extension(path@)),
{
    proof {
        reveal_strlit("");
    }
    let found: Option<String> = path_extension(path);
    let ext: String = match found {
        Some(e) => {
            assert(extension_of(path@) == Some(e@));
            lowercase(e.as_str())
        },
        None => {
            let empty: &str = "";
            assert(empty@ =~= Seq::<char>::empty());
            lowercase(empty)
        },
    };
    assert(ext@ == lower_extension(path@));
    plan_for_extension(path, ext.as_str())
}

} // verus!
