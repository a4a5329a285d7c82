//! Resolution of container image selectors. A selector either matches a known
//! shorthand case-insensitively (currently only "freesurfer") or passes
//! through unchanged as a literal, fully-qualified image reference. Each known
//! image family carries a fixed set of extra `podman run` arguments.

use vstd::prelude::*;

use crate::errors::SubmitError;

verus! {

/// A container image selector: either a recognized shorthand or a literal,
/// fully-qualified image reference.
pub enum Image {
    Freesurfer,
    QualifiedName(String),
}

/// The container families of the legacy array-submission interface, where an
/// unrecognized image must be supplied explicitly with `--image`.
#[derive(Clone, Copy)]
pub enum Container {
    Freesurfer,
    Other,
}

/// Whether `a` is `b` or its uppercase ASCII letter.
pub open spec fn folds_to(a: char, b: char) -> bool {
    a == b || (65 <= a as u32 <= 90 && a as u32 + 32 == b as u32)
}

/// Whether `s` equals `t` after lowercasing ASCII letters of `s`.
pub open spec fn eq_ignore_ascii_case_spec(s: Seq<char>, t: Seq<char>) -> bool {
    s.len() == t.len() && forall|i: int| 0 <= i < s.len() ==> folds_to(s[i], t[i])
}

/// Whether the selector string `s` names the Freesurfer image family.
pub open spec fn selects_freesurfer(s: Seq<char>) -> bool {
    eq_ignore_ascii_case_spec(s, "freesurfer"@)
}

/// Resolves an image selector string: a case-insensitive match against the
/// known shorthand set selects that family; anything else is a literal
/// qualified image reference.
pub fn parse_image(s: &str) -> (r: Image)
    ensures
        r is Freesurfer <==> selects_freesurfer(s@),
        r matches Image::QualifiedName(n) ==> n@ == s@,
{
    proof {
        reveal_strlit("freesurfer");
    }
    let target = "freesurfer";
    let n = s.unicode_len();
    if n != target.unicode_len() {
        return Image::QualifiedName(String::from_str(s));
    }
    let mut i: usize = 0;
    while i < n
        invariant
            0 <= i <= n,
            n == s@.len(),
            n == "freesurfer"@.len(),
            target@ == "freesurfer"@,
            forall|j: int| 0 <= j < i ==> folds_to(s@[j], "freesurfer"@[j]),
        decreases n - i,
    {
        let a = s.get_char(i);
        let b = target.get_char(i);
        let av = a as u32;
        let bv = b as u32;
        if !(a == b || (65 <= av && av <= 90 && av + 32 == bv)) {
            proof {
                assert(!folds_to(s@[i as int], "freesurfer"@[i as int]));
            }
            return Image::QualifiedName(String::from_str(s));
        }
        i += 1;
    }
    Image::Freesurfer
}

/// The fixed image reference of each known container family of the legacy
/// interface; none for "other".
pub fn container_image(c: Container) -> (r: Option<&'static str>)
    ensures
        r is Some <==> c is Freesurfer,
        r matches Some(s) ==> s@ == "freesurfer/freesurfer:7.3.2"@,
{
    match c {
        Container::Freesurfer => Some("freesurfer/freesurfer:7.3.2"),
        Container::Other => None,
    }
}

/// The image reference of the legacy interface: the fixed reference of a
/// known family, or the explicitly supplied one for "other".
pub fn image_for_container(c: Container, image: Option<String>) -> (r: Result<
    String,
    SubmitError,
>)
    ensures
        c is Freesurfer ==> (r matches Ok(s) && s@ == "freesurfer/freesurfer:7.3.2"@),
        c is Other && image is Some ==> (r matches Ok(s) && s@ == image.unwrap()@),
        c is Other && image is None ==> (r matches Err(e) && e is MissingImageError),
{
    match c {
        Container::Freesurfer => Ok(String::from_str("freesurfer/freesurfer:7.3.2")),
        Container::Other => match image {
            Some(s) => Ok(s),
            None => Err(SubmitError::MissingImageError),
        },
    }
}

/// The default tag of the Freesurfer image.
pub open spec fn default_freesurfer_tag() -> Seq<char> {
    "7.3.2"@
}

/// The fully-qualified image reference that `image` resolves to, with `tag`
/// meaningful only for known shorthands.
pub open spec fn image_ref_spec(image: &Image, tag: &Option<String>) -> Seq<char> {
    match image {
        Image::Freesurfer => "docker.io/freesurfer/freesurfer:"@ + match tag {
            Some(t) => t@,
            None => default_freesurfer_tag(),
        },
        Image::QualifiedName(n) => n@,
    }
}

/// The concrete image reference for `podman run`. For the Freesurfer family
/// an explicit tag defaults to a fixed version; for a qualified name any tag
/// override is ignored.
pub fn qualified_image_name(image: Image, tag: Option<String>) -> (r: String)
    ensures
        r@ == image_ref_spec(&image, &tag),
{
    match image {
        Image::Freesurfer => {
            let mut s = String::from_str("docker.io/freesurfer/freesurfer:");
            match tag {
                Some(t) => {
                    s.append(t.as_str());
                },
                None => {
                    s.append("7.3.2");
                },
            }
            s
        },
        Image::QualifiedName(n) => n,
    }
}

/// The warning owed when a tag override is supplied for a qualified image
/// reference, where tags are not applicable; `None` when no warning is owed.
pub fn tag_warning(image: &Image, tag: &Option<String>) -> (r: Option<String>)
    ensures
        r is Some <==> (image is QualifiedName && tag is Some),
        r matches Some(m) ==> m@ == "WARN: ignoring tag \""@ + tag.unwrap()@ + "\""@,
{
    match image {
        Image::QualifiedName(_) => match tag {
            Some(t) => {
                let mut m = String::from_str("WARN: ignoring tag \"");
                m.append(t.as_str());
                m.append("\"");
                proof {
                    assert(m@ =~= "WARN: ignoring tag \""@ + t@ + "\""@);
                }
                Some(m)
            },
            None => None,
        },
        Image::Freesurfer => None,
    }
}

/// The fixed extra `podman run` arguments of each image family: the
/// Freesurfer family mounts its license file and MATLAB runtime and sets the
/// `FS_LICENSE` environment variable.
pub open spec fn podman_args_spec(image: &Image) -> Seq<char> {
    match image {
        Image::Freesurfer =>
            "-v /mnt/apps/etc/fs_license.txt:/usr/local/freesurfer/.license:ro -v /opt/matlab/runtime/R2019b/v97/:/usr/local/freesurfer/MCRv97 -e FS_LICENSE=/usr/local/freesurfer/.license"@,
        Image::QualifiedName(_) => ""@,
    }
}

/// The fixed extra `podman run` arguments of the image family of `c`.
pub fn podman_args_for_image(c: &Image) -> (r: &'static str)
    ensures
        r@ == podman_args_spec(c),
{
    match c {
        Image::Freesurfer =>
            "-v /mnt/apps/etc/fs_license.txt:/usr/local/freesurfer/.license:ro -v /opt/matlab/runtime/R2019b/v97/:/usr/local/freesurfer/MCRv97 -e FS_LICENSE=/usr/local/freesurfer/.license",
        Image::QualifiedName(_) => "",
    }
}

/// The fixed extra volume/environment arguments of each container family of
/// the legacy array-submission interface: the same license mount, MATLAB
/// runtime mount and `FS_LICENSE` environment variable as the Freesurfer
/// family everywhere else.
pub fn volume_args_for_container(c: Container) -> (r: &'static str)
    ensures
        c is Freesurfer ==> r@ ==
            "-v /mnt/apps/etc/fs_license.txt:/usr/local/freesurfer/.license:ro -v /opt/matlab/runtime/R2019b/v97/:/usr/local/freesurfer/MCRv97 -e FS_LICENSE=/usr/local/freesurfer/.license"@,
        c is Other ==> r@ == ""@,
{
    match c {
        Container::Freesurfer =>
            "-v /mnt/apps/etc/fs_license.txt:/usr/local/freesurfer/.license:ro -v /opt/matlab/runtime/R2019b/v97/:/usr/local/freesurfer/MCRv97 -e FS_LICENSE=/usr/local/freesurfer/.license",
        Container::Other => "",
    }
}

/// Whether `a` and `b` are the same character up to ASCII letter case.
pub open spec fn same_letter_modulo_case(a: char, b: char) -> bool {
    a == b || (65 <= a as u32 <= 90 && a as u32 + 32 == b as u32) || (65 <= b as u32 <= 90
        && b as u32 + 32 == a as u32)
}

/// Image selection is case-insensitive: two selector strings that differ only
/// in the ASCII letter case of their characters select the same image family.
pub proof fn lemma_selection_case_insensitive(s: Seq<char>, t: Seq<char>)
    requires
        s.len() == t.len(),
        forall|i: int| 0 <= i < s.len() ==> same_letter_modulo_case(s[i], t[i]),
    ensures
        selects_freesurfer(s) == selects_freesurfer(t),
{
    reveal_strlit("freesurfer");
    let f = "freesurfer"@;
    assert forall|i: int| 0 <= i < s.len() && s.len() == f.len() implies folds_to(s[i], f[i])
        == folds_to(t[i], f[i]) by {
        assert(97 <= f[i] as u32 <= 122);
        vstd::utf8::char_u32_cast(s[i], s[i] as u32);
        vstd::utf8::char_u32_cast(t[i], t[i] as u32);
        vstd::utf8::char_u32_cast(f[i], f[i] as u32);
        assert(s[i] as u32 == f[i] as u32 ==> s[i] == f[i]);
        assert(t[i] as u32 == f[i] as u32 ==> t[i] == f[i]);
    }
}

/// A tag override never alters a qualified image reference: the resolved
/// reference is the literal selector, whatever the tag.
pub proof fn lemma_tag_ignored_for_qualified(n: String, t1: Option<String>, t2: Option<String>)
    ensures
        image_ref_spec(&Image::QualifiedName(n), &t1) == image_ref_spec(
            &Image::QualifiedName(n),
            &t2,
        ),
        image_ref_spec(&Image::QualifiedName(n), &t1) == n@,
{
}

} // verus!
