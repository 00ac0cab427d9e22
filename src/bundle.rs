//! Bundle artifacts: the local file that gathers a bundle's sources, and its name.
use crate::types::AsstId;
use vstd::prelude::*;
use vstd::string::StringExecFns;

verus! {

/// A source file of a bundle: the path it is shown under and its lines.
#[derive(Debug)]
pub struct SourceFile {
    pub path: String,
    pub lines: Vec<String>,
}

/// The name of a bundle's artifact: `<profile>-<bundle>-bundle-<assistant id>.<ext>`.
pub open spec fn bundle_name_of(
    profile: Seq<char>,
    bundle: Seq<char>,
    asst_id: Seq<char>,
    ext: Seq<char>,
) -> Seq<char> {
    profile + "-"@ + bundle + "-bundle-"@ + asst_id + "."@ + ext
}

/// The lines of a source, each ended by a newline.
pub open spec fn lines_text(lines: Seq<String>) -> Seq<char>
    decreases lines.len(),
{
    if lines.len() == 0 {
        Seq::empty()
    } else {
        lines_text(lines.drop_last()) + lines.last()@ + "\n"@
    }
}

/// A source's section of the bundle: a header naming its path, its lines,
/// and blank lines after.
pub open spec fn section_text(f: SourceFile) -> Seq<char> {
    "\n// ==== file path: "@ + f.path@ + "\n\n"@ + lines_text(f.lines@) + "\n\n\n"@
}

/// The bundle's content: the sections of its sources, in order.
pub open spec fn bundle_text_of(sources: Seq<SourceFile>) -> Seq<char>
    decreases sources.len(),
{
    if sources.len() == 0 {
        Seq::empty()
    } else {
        bundle_text_of(sources.drop_last()) + section_text(sources.last())
    }
}

/// The name of the artifact of bundle `bundle` of profile `profile`, made
/// under the assistant `asst_id`, with extension `ext`.
pub fn bundle_file_name(profile: &str, bundle: &str, asst_id: &AsstId, ext: &str) -> (r: String)
    ensures
        r@ == bundle_name_of(profile@, bundle@, asst_id.0@, ext@),
{
    let mut r = String::new();
    r.append(profile);
    r.append("-");
    r.append(bundle);
    r.append("-bundle-");
    r.append(asst_id.0.as_str());
    r.append(".");
    r.append(ext);
    proof {
        assert(r@ =~= bundle_name_of(profile@, bundle@, asst_id.0@, ext@));
    }
    r
}

/// Artifacts made under two different assistants have different names.
pub proof fn lemma_bundle_name_tracks_asst(
    profile: Seq<char>,
    bundle: Seq<char>,
    ext: Seq<char>,
    id1: Seq<char>,
    id2: Seq<char>,
)
    requires
        id1 != id2,
    ensures
        bundle_name_of(profile, bundle, id1, ext) != bundle_name_of(profile, bundle, id2, ext),
{
    let head = profile + "-"@ + bundle + "-bundle-"@;
    let tail = "."@ + ext;
    let n1 = bundle_name_of(profile, bundle, id1, ext);
    let n2 = bundle_name_of(profile, bundle, id2, ext);
    assert(n1 =~= head + id1 + tail);
    assert(n2 =~= head + id2 + tail);
    if n1 == n2 {
        assert(id1.len() == id2.len());
        assert(n1.subrange(head.len() as int, (head.len() + id1.len()) as int) =~= id1);
        assert(n2.subrange(head.len() as int, (head.len() + id2.len()) as int) =~= id2);
    }
}

/// The content of a bundle artifact made of `sources`.
pub fn bundle_text(sources: &Vec<SourceFile>) -> (r: String)
    ensures
        r@ == bundle_text_of(sources@),
{
    let mut r = String::new();
    let mut i: usize = 0;
    while i < sources.len()
        invariant
            i <= sources.len(),
            r@ == bundle_text_of(sources@.take(i as int)),
        decreases sources.len() - i,
    {
        let f = &sources[i];
        r.append("\n// ==== file path: ");
        r.append(f.path.as_str());
        r.append("\n\n");
        let mut j: usize = 0;
        while j < f.lines.len()
            invariant
                j <= f.lines.len(),
                r@ == bundle_text_of(sources@.take(i as int)) + "\n// ==== file path: "@ + f.path@ + "\n\n"@
                    + lines_text(f.lines@.take(j as int)),
            decreases f.lines.len() - j,
        {
            r.append(f.lines[j].as_str());
            r.append("\n");
            proof {
                assert(f.lines@.take(j + 1).drop_last() =~= f.lines@.take(j as int));
            }
            j = j + 1;
        }
        r.append("\n\n\n");
        proof {
            assert(f.lines@.take(j as int) =~= f.lines@);
            assert(sources@.take(i + 1).drop_last() =~= sources@.take(i as int));
            assert(r@ =~= bundle_text_of(sources@.take(i + 1)));
        }
        i = i + 1;
    }
    proof {
        assert(sources@.take(i as int) =~= sources@);
    }
    r
}

} // verus!
