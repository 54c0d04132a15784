use vstd::prelude::*;
use vstd::string::StringExecFns;

verus! {

#[verifier::external_type_specification]
#[verifier::external_body]
pub struct ExVersion(debversion::Version);

/// The canonical text rendering of a version, as debversion's `Display`
/// implementation produces it. It depends on the version's value alone.
pub uninterp spec fn version_text(v: debversion::Version) -> Seq<char>;

/// Relies on debversion's `Display` implementation for `Version` (reached
/// through `ToString`): it writes the version's canonical text, a pure
/// function of the version's fields.
#[verifier::external_body]
fn render_version(version: &debversion::Version) -> (r: String)
    ensures
        r@ == version_text(*version),
{
    version.to_string()
}

/// The view of an optional text argument.
pub open spec fn text_view(o: Option<&str>) -> Option<Seq<char>> {
    match o {
        Some(s) => Some(s@),
        None => None,
    }
}

/// The name of the upstream tarball, as a sequence of characters:
/// `<package>_<version>.orig.tar.<format>` without a component, and
/// `<package>_<version>.orig-<component>.tar.<format>` with one;
/// an absent format stands for `gz`.
pub open spec fn spec_tarball_name(
    package: Seq<char>,
    version: Seq<char>,
    component: Option<Seq<char>>,
    format: Option<Seq<char>>,
) -> Seq<char> {
    let fmt = match format {
        Some(f) => f,
        None => "gz"@,
    };
    let base = package + "_"@ + version + ".orig"@;
    let named = match component {
        Some(c) => base + "-"@ + c,
        None => base,
    };
    named + ".tar."@ + fmt
}

/// Return the name of the upstream tarball for the given package and version.
///
/// `component` names a secondary source tarball; `None` means the base
/// tarball. `format` is the compression suffix; `None` means `gz`.
pub fn tarball_name(
    package: &str,
    version: &debversion::Version,
    component: Option<&str>,
    format: Option<&str>,
) -> (r: String)
    ensures
        r@ == spec_tarball_name(package@, version_text(*version), text_view(component), text_view(
            format,
        )),
{
    let mut name = package.to_owned();
    name.append("_");
    let version_str = render_version(version);
    name.append(version_str.as_str());
    name.append(".orig");
    if let Some(component) = component {
        name.append("-");
        name.append(component);
    }
    name.append(".tar.");
    match format {
        Some(format) => name.append(format),
        None => name.append("gz"),
    }
    proof {
        assert(name@ =~= spec_tarball_name(
            package@,
            version_text(*version),
            text_view(component),
            text_view(format),
        ));
    }
    name
}

/// With no component and no format, the name is
/// `<package>_<version>.orig.tar.gz`.
pub proof fn lemma_tarball_name_no_component_no_format(p: Seq<char>, v: Seq<char>)
    ensures
        spec_tarball_name(p, v, None, None) == p + "_"@ + v + ".orig.tar.gz"@,
{
    reveal_strlit(".orig");
    reveal_strlit(".tar.");
    reveal_strlit("gz");
    reveal_strlit(".orig.tar.gz");
    assert(spec_tarball_name(p, v, None, None) =~= p + "_"@ + v + ".orig.tar.gz"@);
}

/// With no component and an explicit format, the name is
/// `<package>_<version>.orig.tar.<format>`.
pub proof fn lemma_tarball_name_with_format(p: Seq<char>, v: Seq<char>, f: Seq<char>)
    ensures
        spec_tarball_name(p, v, None, Some(f)) == p + "_"@ + v + ".orig.tar."@ + f,
{
    reveal_strlit(".orig");
    reveal_strlit(".tar.");
    reveal_strlit(".orig.tar.");
    assert(spec_tarball_name(p, v, None, Some(f)) =~= p + "_"@ + v + ".orig.tar."@ + f);
}

/// With a component and an explicit format, the name is
/// `<package>_<version>.orig-<component>.tar.<format>`.
pub proof fn lemma_tarball_name_with_component(p: Seq<char>, v: Seq<char>, c: Seq<char>, f: Seq<
    char,
>)
    ensures
        spec_tarball_name(p, v, Some(c), Some(f)) == p + "_"@ + v + ".orig-"@ + c + ".tar."@ + f,
{
    reveal_strlit(".orig");
    reveal_strlit("-");
    reveal_strlit(".orig-");
    reveal_strlit(".tar.");
    assert(spec_tarball_name(p, v, Some(c), Some(f)) =~= p + "_"@ + v + ".orig-"@ + c + ".tar."@
        + f);
}

/// Omitting the format is the same as passing `gz` explicitly.
pub proof fn lemma_default_format_is_gz(p: Seq<char>, v: Seq<char>, c: Option<Seq<char>>)
    ensures
        spec_tarball_name(p, v, c, None) == spec_tarball_name(p, v, c, Some("gz"@)),
{
}

/// The name is a function of the inputs alone: any two results that meet
/// the contract of `tarball_name` on equal inputs are equal.
pub proof fn lemma_tarball_name_deterministic(
    p: Seq<char>,
    v: Seq<char>,
    c: Option<Seq<char>>,
    f: Option<Seq<char>>,
    r1: Seq<char>,
    r2: Seq<char>,
)
    requires
        r1 == spec_tarball_name(p, v, c, f),
        r2 == spec_tarball_name(p, v, c, f),
    ensures
        r1 == r2,
{
}

} // verus!
