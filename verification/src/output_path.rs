//! Where the rendered video of a file goes.

use vstd::prelude::*;

use crate::text;

verus! {

/// Whether `changed` is what `std::path::Path::with_extension`, given `extension`, makes of
/// `path` on some platform.
pub uninterp spec fn replaces_extension(
    path: Seq<char>,
    extension: Seq<char>,
    changed: Seq<char>,
) -> bool;

/// Whether `name` is what `std::path::Path::file_name` gives of `path` on some platform.
pub uninterp spec fn has_file_name(path: Seq<char>, name: Option<Seq<char>>) -> bool;

/// Whether `renamed` is what `std::path::PathBuf::set_file_name`, given `name`, makes of `path`
/// on some platform.
pub uninterp spec fn renames_file(path: Seq<char>, name: Seq<char>, renamed: Seq<char>) -> bool;

/// The contents of an optional string.
pub open spec fn optional_text(text: Option<String>) -> Option<Seq<char>> {
    match text {
        Some(text) => Some(text@),
        None => None,
    }
}

/// Whether `text` holds a character that separates the components of a path on some platform.
pub open spec fn holds_separator(text: Seq<char>) -> bool {
    text.contains('/') || text.contains('\\')
}

/// `path` with `extension` for its extension, by `std::path::Path::with_extension`.
///
/// What counts as the file name differs between platforms, so the result is not a function
/// of the arguments alone: the contract only says that it is the one of some platform. The
/// call panics where the extension holds a path separator, so no separator of any platform
/// may be in it.
#[verifier::external_body]
fn with_extension(path: &str, extension: &str) -> (changed: String)
    requires
        !holds_separator(extension@),
    ensures
        replaces_extension(path@, extension@, changed@),
{
    std::path::Path::new(path).with_extension(extension).to_string_lossy().into_owned()
}

/// The last component of `path`, by `std::path::Path::file_name`.
///
/// What separates components differs between platforms, so the result is not a function of
/// `path` alone: the contract only says that it is the one of some platform.
#[verifier::external_body]
fn file_name(path: &str) -> (name: Option<String>)
    ensures
        has_file_name(path@, optional_text(name)),
{
    std::path::Path::new(path).file_name().map(|name| name.to_string_lossy().into_owned())
}

/// `path` with `name` for its last component, by `std::path::PathBuf::set_file_name`.
///
/// What separates components differs between platforms, so the result is not a function of
/// the arguments alone: the contract says that it is the one of some platform. On every
/// platform the name is pushed behind what is left of the path, or takes its place, so the
/// result ends as the name does, up to the name's last separator. Left out are endings that
/// are so short that they could be `.` or `..`, which a platform may resolve.
#[verifier::external_body]
fn with_file_name(path: &str, name: &str) -> (renamed: String)
    ensures
        renames_file(path@, name@, renamed@),
        forall|ending: Seq<char>| #[trigger]
            ending.is_suffix_of(name@) && ending.len() > 2 && !holds_separator(ending)
                ==> ending.is_suffix_of(renamed@),
{
    let mut renamed = std::path::PathBuf::from(path);
    renamed.set_file_name(name);
    renamed.to_string_lossy().into_owned()
}

/// The ending of the output file, by codec.
pub open spec fn output_ending(codec: Seq<char>) -> Seq<char> {
    if codec == "ProRes"@ {
        ".mov"@
    } else if codec == "EXR Sequence"@ {
        "_%05d.exr"@
    } else if codec == "PNG Sequence"@ {
        "_%05d.png"@
    } else {
        ".mp4"@
    }
}

/// What the path of the output file ends with, by codec.
pub open spec fn output_suffix(codec: Seq<char>) -> Seq<char> {
    "_stabilized"@ + output_ending(codec)
}

/// The name of the output file for a video whose name, without extension, is `stem`.
pub open spec fn output_name(stem: Option<Seq<char>>, codec: Seq<char>) -> Seq<char> {
    (match stem {
        Some(stem) => stem,
        None => seq![],
    }) + output_suffix(codec)
}

/// Whether `output` is an output path for the video at `path`: the extension is taken off,
/// and the file name of what is left replaced by the name that `output_name` makes of it. Each
/// of the three steps goes by the rules for paths of some platform. In any case the output
/// ends with `_stabilized` and the ending for the codec, and where the name holds no separator
/// it ends with the whole name.
pub open spec fn is_output_path(path: Seq<char>, codec: Seq<char>, output: Seq<char>) -> bool {
    &&& output_suffix(codec).is_suffix_of(output)
    &&& exists|bare: Seq<char>, stem: Option<Seq<char>>|
        {
            &&& #[trigger] replaces_extension(path, ""@, bare)
            &&& #[trigger] has_file_name(bare, stem)
            &&& renames_file(bare, output_name(stem, codec), output)
            &&& !holds_separator(output_name(stem, codec)) ==> output_name(
                stem,
                codec,
            ).is_suffix_of(output)
        }
}

/// An output path comes about in three steps: the extension of the path is taken off, the file
/// name of what is left is read, and the name that is made of it put in its place. Whatever
/// the platform, it ends with `_stabilized` and the ending by codec.
pub proof fn law_output_path_keeps_to_the_file(
    path: Seq<char>,
    codec: Seq<char>,
    output: Seq<char>,
)
    requires
        is_output_path(path, codec, output),
    ensures
        exists|bare: Seq<char>, stem: Option<Seq<char>>|
            {
                &&& #[trigger] replaces_extension(path, Seq::<char>::empty(), bare)
                &&& #[trigger] has_file_name(bare, stem)
                &&& renames_file(bare, output_name(stem, codec), output)
            },
        output_name(None, codec).is_suffix_of(output),
{
    reveal_strlit("");
    assert(""@ =~= Seq::<char>::empty());
    let (bare, stem) = choose|bare: Seq<char>, stem: Option<Seq<char>>|
        {
            &&& #[trigger] replaces_extension(path, ""@, bare)
            &&& #[trigger] has_file_name(bare, stem)
            &&& renames_file(bare, output_name(stem, codec), output)
        };
    assert(replaces_extension(path, Seq::<char>::empty(), bare));
    assert(has_file_name(bare, stem));
    assert(output_name(None, codec) =~= output_suffix(codec));
}

/// The output file is named after the video, with `_stabilized` and an ending by codec: a movie
/// for `ProRes`, numbered pictures for the two sequences, and `.mp4` for any other codec. A
/// video without a name gives a name of these two alone.
pub proof fn law_output_name_by_codec(stem: Seq<char>, codec: Seq<char>)
    ensures
        output_name(Some(stem), "ProRes"@) == stem + ("_stabilized"@ + ".mov"@),
        output_name(Some(stem), "EXR Sequence"@) == stem + ("_stabilized"@ + "_%05d.exr"@),
        output_name(Some(stem), "PNG Sequence"@) == stem + ("_stabilized"@ + "_%05d.png"@),
        codec != "ProRes"@ && codec != "EXR Sequence"@ && codec != "PNG Sequence"@ ==> output_name(
            Some(stem),
            codec,
        ) == stem + ("_stabilized"@ + ".mp4"@),
        output_name(None, codec) == output_name(Some(Seq::<char>::empty()), codec),
{
    reveal_strlit("ProRes");
    reveal_strlit("EXR Sequence");
    reveal_strlit("PNG Sequence");
    assert("ProRes"@[0] != "EXR Sequence"@[0]);
    assert("ProRes"@.len() != "PNG Sequence"@.len());
    assert("EXR Sequence"@[0] != "PNG Sequence"@[0]);
}

/// The suffix of an output path is longer than `..`, and holds no separator.
proof fn lemma_output_suffix(codec: Seq<char>)
    ensures
        output_suffix(codec).len() > 2,
        !holds_separator(output_suffix(codec)),
{
    reveal_strlit("_stabilized");
    reveal_strlit(".mov");
    reveal_strlit("_%05d.exr");
    reveal_strlit("_%05d.png");
    reveal_strlit(".mp4");
    let suffix = output_suffix(codec);
    assert forall|i: int| 0 <= i < suffix.len() implies suffix[i] != '/' && suffix[i] != '\\' by {
        let known = "_stabilized"@;
        if i < known.len() {
            assert(suffix[i] == known[i]);
        } else {
            assert(suffix[i] == output_ending(codec)[i - known.len()]);
        }
    }
}

/// The name of the output file for a video whose name, without extension, is `stem`.
pub fn stabilized_name(stem: Option<String>, codec: &str) -> (name: String)
    ensures
        name@ == output_name(optional_text(stem), codec@),
{
    let mut name = match stem {
        Some(stem) => stem,
        None => String::new(),
    };
    name.append("_stabilized");
    if text::same_text(codec, "ProRes") {
        name.append(".mov");
    } else if text::same_text(codec, "EXR Sequence") {
        name.append("_%05d.exr");
    } else if text::same_text(codec, "PNG Sequence") {
        name.append("_%05d.png");
    } else {
        name.append(".mp4");
    }
    name
}

/// Where the rendered video of the file at `path` goes: beside it, under its name with
/// `_stabilized` and the ending for the codec.
pub fn get_output_path(path: &str, codec: &str) -> (output: String)
    ensures
        is_output_path(path@, codec@, output@),
{
    proof {
        reveal_strlit("");
    }
    let bare = with_extension(path, "");
    let stem = file_name(&bare);
    let ghost named = optional_text(stem);
    let name = stabilized_name(stem, codec);
    let output = with_file_name(&bare, &name);
    proof {
        let suffix = output_suffix(codec@);
        lemma_output_suffix(codec@);
        assert(suffix.is_suffix_of(name@));
        assert(name@.is_suffix_of(name@));
        assert(has_file_name(bare@, named));
    }
    output
}

} // verus!
