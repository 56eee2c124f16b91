//! Extension resolver: maps an attachment's declared media type to a
//! file-name extension.
//!
//! The media-type registry offers an ordered sequence of candidate
//! extensions per media type. A single candidate is used as is; among
//! several, a fixed preference list breaks the tie deterministically;
//! a media type without candidates falls back to `bin`.

use vstd::prelude::*;
use crate::text::str_eq;

verus! {

/// The result of the candidate extensions of a media type, as the
/// registry's lookup returns it: `None` for an unknown media type. The
/// registry is a static table, so the result is a function of the media
/// type string alone.
pub uninterp spec fn mime_exts(m: Seq<char>) -> Option<Seq<Seq<char>>>;

/// Relies on `mime_guess::get_mime_extensions_str`: the candidate
/// extensions for a media type, a pure lookup in a static registry.
#[verifier::external_body]
fn mime_extensions(content_type: &str) -> (r: Option<Vec<String>>)
    ensures
        r is Some <==> mime_exts(content_type@) is Some,
        r matches Some(v) ==> {
            &&& mime_exts(content_type@) matches Some(c) && v@.len() == c.len()
            &&& (forall|i: int|
                0 <= i < v@.len() ==> (#[trigger] v@[i])@ == mime_exts(
                    content_type@,
                ).unwrap()[i])
        },
{
    mime_guess::get_mime_extensions_str(content_type).map(
        |exts| exts.iter().map(|&e| e.to_string()).collect(),
    )
}

/// The fixed preference list that disambiguates among several candidate
/// extensions.
pub open spec fn preference_list() -> Seq<Seq<char>> {
    seq!["jpg"@, "png"@, "mp3"@, "mp4"@, "htm"@, "ogg"@, "txt"@, "bin"@]
}

/// The first entry of the preference list that occurs among the
/// candidates, scanned in preference order.
pub open spec fn first_preferred(c: Seq<Seq<char>>) -> Option<Seq<char>> {
    if c.contains("jpg"@) {
        Some("jpg"@)
    } else if c.contains("png"@) {
        Some("png"@)
    } else if c.contains("mp3"@) {
        Some("mp3"@)
    } else if c.contains("mp4"@) {
        Some("mp4"@)
    } else if c.contains("htm"@) {
        Some("htm"@)
    } else if c.contains("ogg"@) {
        Some("ogg"@)
    } else if c.contains("txt"@) {
        Some("txt"@)
    } else if c.contains("bin"@) {
        Some("bin"@)
    } else {
        None
    }
}

/// How one media type resolves.
pub enum Resolution {
    /// A single or preferred candidate; no anomaly.
    Chosen(String),
    /// The registry offers no candidate; the extension falls back to this
    /// default.
    NoExtension(String),
    /// Several candidates and none preferred; the first candidate is the
    /// fallback, and all candidates are kept for diagnosis.
    Ambiguous(String, Vec<String>),
}

/// The mathematical content of a `Resolution`.
#[verifier::ext_equal]
pub enum ResolutionView {
    Chosen(Seq<char>),
    NoExtension(Seq<char>),
    Ambiguous(Seq<char>, Seq<Seq<char>>),
}

/// The views of a vector of candidate extensions.
pub open spec fn str_views(s: Seq<String>) -> Seq<Seq<char>> {
    Seq::new(s.len(), |i: int| s[i]@)
}

impl View for Resolution {
    type V = ResolutionView;

    open spec fn view(&self) -> ResolutionView {
        match self {
            Resolution::Chosen(e) => ResolutionView::Chosen(e@),
            Resolution::NoExtension(e) => ResolutionView::NoExtension(e@),
            Resolution::Ambiguous(e, c) => ResolutionView::Ambiguous(e@, str_views(c@)),
        }
    }
}

impl Resolution {
    /// The extension the resolution settles on, fallback included.
    pub fn extension(&self) -> (r: &String)
        ensures
            r@ == self.spec_extension(),
    {
        match self {
            Resolution::Chosen(e) => e,
            Resolution::NoExtension(e) => e,
            Resolution::Ambiguous(e, _) => e,
        }
    }

    /// The extension a resolution settles on.
    pub open spec fn spec_extension(&self) -> Seq<char> {
        match self@ {
            ResolutionView::Chosen(e) => e,
            ResolutionView::NoExtension(e) => e,
            ResolutionView::Ambiguous(e, _) => e,
        }
    }
}

/// How the media type `m` resolves: no candidates fall back to `bin`, a
/// single candidate is used as is, several candidates go to the first
/// preferred one, or to the first candidate when none is preferred.
pub open spec fn spec_resolve(m: Seq<char>) -> ResolutionView {
    match mime_exts(m) {
        None => ResolutionView::NoExtension("bin"@),
        Some(c) => if c.len() == 0 {
            ResolutionView::NoExtension("bin"@)
        } else if c.len() == 1 {
            ResolutionView::Chosen(c[0])
        } else {
            match first_preferred(c) {
                Some(p) => ResolutionView::Chosen(p),
                None => ResolutionView::Ambiguous(c[0], c),
            }
        },
    }
}

/// Whether some candidate's view equals `s`.
fn contains_str(v: &Vec<String>, s: &str) -> (r: bool)
    ensures
        r == str_views(v@).contains(s@),
{
    let mut i: usize = 0;
    while i < v.len()
        invariant
            0 <= i <= v@.len(),
            forall|k: int| 0 <= k < i ==> str_views(v@)[k] != s@,
        decreases v@.len() - i,
    {
        if str_eq(v[i].as_str(), s) {
            proof {
                assert(str_views(v@)[i as int] == s@);
            }
            return true;
        }
        i = i + 1;
    }
    proof {
        assert(!str_views(v@).contains(s@)) by {
            assert(forall|k: int| 0 <= k < v@.len() ==> str_views(v@)[k] != s@);
        }
    }
    false
}

/// The first entry of the preference list among the candidates.
fn first_preferred_exec(cands: &Vec<String>) -> (r: Option<String>)
    ensures
        r is Some <==> first_preferred(str_views(cands@)) is Some,
        r matches Some(s) ==> first_preferred(str_views(cands@)) == Some(s@),
{
    if contains_str(cands, "jpg") {
        Some("jpg".to_owned())
    } else if contains_str(cands, "png") {
        Some("png".to_owned())
    } else if contains_str(cands, "mp3") {
        Some("mp3".to_owned())
    } else if contains_str(cands, "mp4") {
        Some("mp4".to_owned())
    } else if contains_str(cands, "htm") {
        Some("htm".to_owned())
    } else if contains_str(cands, "ogg") {
        Some("ogg".to_owned())
    } else if contains_str(cands, "txt") {
        Some("txt".to_owned())
    } else if contains_str(cands, "bin") {
        Some("bin".to_owned())
    } else {
        None
    }
}

/// Resolves a file-name extension for a media type, deterministically:
/// the result is a function of the media type string alone.
pub fn resolve_extension(content_type: &str) -> (r: Resolution)
    ensures
        r@ == spec_resolve(content_type@),
{
    let cands = match mime_extensions(content_type) {
        Some(c) => c,
        None => {
            return Resolution::NoExtension("bin".to_owned());
        },
    };
    proof {
        assert(str_views(cands@) =~= mime_exts(content_type@).unwrap());
    }
    if cands.len() == 0 {
        Resolution::NoExtension("bin".to_owned())
    } else if cands.len() == 1 {
        Resolution::Chosen(cands[0].clone())
    } else {
        match first_preferred_exec(&cands) {
            Some(p) => Resolution::Chosen(p),
            None => {
                let first = cands[0].clone();
                let r = Resolution::Ambiguous(first, cands);
                proof {
                    assert(r@ =~= spec_resolve(content_type@));
                }
                r
            },
        }
    }
}

/// Law: resolution is deterministic. Two resolutions of the same media
/// type have the same content.
pub proof fn lemma_resolution_deterministic(m: Seq<char>, r1: ResolutionView, r2: ResolutionView)
    requires
        r1 == spec_resolve(m),
        r2 == spec_resolve(m),
    ensures
        r1 == r2,
{
}

/// Law: whenever the candidates of a media type meet the preference list,
/// the chosen extension is the first preference that is present among the
/// candidates, and no anomaly arises.
pub proof fn lemma_preferred_extension(m: Seq<char>, k: int)
    requires
        mime_exts(m) matches Some(c) && 0 <= k < preference_list().len() && c.contains(
            preference_list()[k],
        ),
    ensures
        spec_resolve(m) matches ResolutionView::Chosen(p) && ({
            exists|j: int|
                {
                    &&& 0 <= j < preference_list().len()
                    &&& #[trigger] preference_list()[j] == p
                    &&& mime_exts(m).unwrap().contains(p)
                    &&& forall|n: int|
                        0 <= n < j ==> !mime_exts(m).unwrap().contains(
                            #[trigger] preference_list()[n],
                        )
                }
        }),
{
    let c = mime_exts(m).unwrap();
    assert(preference_list()[0] == "jpg"@);
    assert(preference_list()[1] == "png"@);
    assert(preference_list()[2] == "mp3"@);
    assert(preference_list()[3] == "mp4"@);
    assert(preference_list()[4] == "htm"@);
    assert(preference_list()[5] == "ogg"@);
    assert(preference_list()[6] == "txt"@);
    assert(preference_list()[7] == "bin"@);
    if c.len() == 1 {
        assert(c[0] == preference_list()[k]);
    }
}

} // verus!
