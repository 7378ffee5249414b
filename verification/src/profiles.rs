//! Profile activation: which named configuration profiles apply to a project
//! and event. The decision is a short-circuiting OR over independent
//! mechanisms; the file-system facts it needs (indicator files, paths, glob
//! matches, content hits) are probed by the caller and handed in as plain
//! booleans, while the event matching and the content test itself are
//! decided here.

use vstd::prelude::*;

verus! {

use crate::config::ContentTrigger;
use crate::config::MatchPosition;
use crate::config::Profile;
use crate::engine::spec_matches_triggers;
use crate::events::EventV;
use crate::events::ProjectLintEvent;
use crate::text::seq_contains;
use crate::text::str_to_string;
use crate::text::view_strs;

/// What the caller found on disk for one profile: whether any listed
/// indicator file exists under the project root, whether any listed path
/// exists, whether any listed glob has at least one match, and whether any
/// content trigger hit a candidate file.
#[derive(Debug, Clone, Copy, PartialEq, Eq, Structural)]
pub struct ProfileFsProbe {
    pub any_indicator: bool,
    pub any_path: bool,
    pub any_glob: bool,
    pub any_content: bool,
}

impl ProfileFsProbe {
    /// A probe that found nothing on disk.
    pub fn none() -> (r: ProfileFsProbe)
        ensures
            !r.any_indicator && !r.any_path && !r.any_glob && !r.any_content,
    {
        ProfileFsProbe { any_indicator: false, any_path: false, any_glob: false, any_content: false }
    }
}

/// The mathematical form of a content trigger.
#[verifier::ext_equal]
pub struct ContentTriggerV {
    pub globs: Seq<Seq<char>>,
    pub matches: Seq<Seq<char>>,
    pub position: MatchPosition,
}

impl View for ContentTrigger {
    type V = ContentTriggerV;

    open spec fn view(&self) -> ContentTriggerV {
        ContentTriggerV {
            globs: view_strs(self.globs@),
            matches: view_strs(self.matches@),
            position: self.position,
        }
    }
}

/// Whether any of the trigger's match strings occurs in the text.
pub open spec fn spec_content_hit(content: Seq<char>, matches: Seq<Seq<char>>) -> bool {
    exists|i: int| 0 <= i < matches.len() && #[trigger] seq_contains(content, matches[i])
}

/// Whether any of the trigger's match strings occurs in the given file text.
/// The caller decides how much of the file to read: a header window for a
/// `Header` trigger, the whole file otherwise.
pub fn content_trigger_matches(content: &str, trigger: &ContentTrigger) -> (r: bool)
    ensures
        r == spec_content_hit(content@, trigger@.matches),
{
    let ghost ms = view_strs(trigger.matches@);
    proof {
        crate::text::lemma_view_strs(trigger.matches@);
    }
    let hay = crate::text::chars_of(content);
    let mut i: usize = 0;
    while i < trigger.matches.len()
        invariant
            i <= trigger.matches@.len(),
            hay@ == content@,
            ms == view_strs(trigger.matches@),
            ms.len() == trigger.matches@.len(),
            forall|j: int| 0 <= j < ms.len() ==> ms[j] == trigger.matches@[j]@,
            forall|j: int| 0 <= j < i ==> !#[trigger] seq_contains(content@, ms[j]),
        decreases trigger.matches.len() - i,
    {
        let needle = crate::text::chars_of(trigger.matches[i].as_str());
        if crate::text::contains_chars(&hay, &needle) {
            assert(seq_contains(content@, ms[i as int]));
            return true;
        }
        assert(!seq_contains(content@, ms[i as int]));
        i = i + 1;
    }
    assert(forall|j: int| 0 <= j < ms.len() ==> !#[trigger] seq_contains(content@, ms[j]));
    false
}

/// The mathematical form of a profile, field for field.
#[verifier::ext_equal]
pub struct ProfileV {
    pub name: Seq<char>,
    pub version: Seq<char>,
    pub scope: Seq<char>,
    pub updated: Seq<char>,
    pub description: Seq<char>,
    pub triggers: Seq<Seq<char>>,
    pub indicators: Seq<Seq<char>>,
    pub paths: Seq<Seq<char>>,
    pub globs: Seq<Seq<char>>,
    pub content: Seq<ContentTriggerV>,
    pub extensions: Seq<Seq<char>>,
    pub branches: Seq<Seq<char>>,
    pub domains: Seq<Seq<char>>,
    pub plugins: Seq<Seq<char>>,
    pub web_specific: Option<crate::config::WebSpecificConfig>,
    pub devops_specific: Option<crate::config::DevOpsSpecificConfig>,
    pub structure: Option<(Seq<Seq<char>>, Seq<Seq<char>>)>,
}

/// The mathematical forms of a sequence of content triggers.
pub open spec fn view_content_triggers(a: Seq<ContentTrigger>) -> Seq<ContentTriggerV>
    decreases a,
{
    if a.len() == 0 {
        Seq::empty()
    } else {
        seq![a[0]@] + view_content_triggers(a.skip(1))
    }
}

impl View for Profile {
    type V = ProfileV;

    open spec fn view(&self) -> ProfileV {
        ProfileV {
            name: self.metadata.name@,
            version: self.metadata.version@,
            scope: self.metadata.scope@,
            updated: self.metadata.updated@,
            description: self.metadata.description@,
            triggers: view_strs(self.activation.triggers@),
            indicators: view_strs(self.activation.indicators@),
            paths: view_strs(self.activation.paths@),
            globs: view_strs(self.activation.globs@),
            content: view_content_triggers(self.activation.content@),
            extensions: view_strs(self.activation.extensions@),
            branches: view_strs(self.activation.branches@),
            domains: view_strs(self.enable.domains@),
            plugins: view_strs(self.enable.plugins@),
            web_specific: self.web_specific,
            devops_specific: self.devops_specific,
            structure: match &self.structure {
                Some(s) => Some((view_strs(s.expected_dirs@), view_strs(s.forbidden_dirs@))),
                None => None,
            },
        }
    }
}

/// The mathematical forms of a sequence of profiles.
pub open spec fn view_profiles(a: Seq<Profile>) -> Seq<ProfileV>
    decreases a,
{
    if a.len() == 0 {
        Seq::empty()
    } else {
        seq![a[0]@] + view_profiles(a.skip(1))
    }
}

/// The form of a sequence of profiles, element by element.
pub proof fn lemma_view_profiles(a: Seq<Profile>)
    ensures
        view_profiles(a).len() == a.len(),
        forall|i: int| 0 <= i < a.len() ==> view_profiles(a)[i] == a[i]@,
    decreases a.len(),
{
    if a.len() > 0 {
        lemma_view_profiles(a.skip(1));
        assert forall|i: int| 0 <= i < a.len() implies view_profiles(a)[i] == a[i]@ by {
            if i > 0 {
                assert(view_profiles(a)[i] == view_profiles(a.skip(1))[i - 1]);
                assert(a.skip(1)[i - 1] == a[i]);
            }
        }
    }
}

proof fn lemma_view_profiles_push(a: Seq<Profile>, x: Profile)
    ensures
        view_profiles(a.push(x)) == view_profiles(a).push(x@),
    decreases a.len(),
{
    if a.len() == 0 {
        assert(a.push(x)[0] == x);
        assert(a.push(x).skip(1) =~= Seq::<Profile>::empty());
        assert(view_profiles(Seq::<Profile>::empty()) == Seq::<ProfileV>::empty());
        assert(view_profiles(a) == Seq::<ProfileV>::empty());
        assert(view_profiles(a.push(x)) =~= view_profiles(a).push(x@));
    } else {
        lemma_view_profiles_push(a.skip(1), x);
        assert(a.push(x).skip(1) =~= a.skip(1).push(x));
        assert(a.push(x)[0] == a[0]);
        assert(view_profiles(a.push(x)) =~= view_profiles(a).push(x@));
    }
}

/// Whether a profile is active for the project and event: its event triggers
/// match the supplied event, or any of its file-system mechanisms hit, as the
/// caller's probe reports.
pub open spec fn spec_profile_active(
    p: ProfileV,
    ev: Option<EventV>,
    probe: ProfileFsProbe,
) -> bool {
    ||| (match ev {
        Some(e) => spec_matches_triggers(p.triggers, e),
        None => false,
    })
    ||| probe.any_indicator
    ||| probe.any_path
    ||| probe.any_glob
    ||| probe.any_content
}

/// The event's form, when one was supplied.
pub open spec fn view_opt_event(ev: Option<&ProjectLintEvent>) -> Option<EventV> {
    match ev {
        Some(e) => Some(e@),
        None => None,
    }
}

/// Whether the profile is active: an event whose triggers match it, or any
/// file-system mechanism the probe reports, activates it.
pub fn is_profile_active(
    profile: &Profile,
    event: Option<&ProjectLintEvent>,
    probe: &ProfileFsProbe,
) -> (r: bool)
    ensures
        r == spec_profile_active(profile@, view_opt_event(event), *probe),
{
    let event_hit = match event {
        Some(e) => crate::engine::event_matches_triggers(&profile.activation.triggers, e),
        None => false,
    };
    event_hit || probe.any_indicator || probe.any_path || probe.any_glob
        || probe.any_content
}

fn clone_strs(v: &Vec<String>) -> (r: Vec<String>)
    ensures
        view_strs(r@) == view_strs(v@),
{
    proof {
        crate::text::lemma_view_strs(v@);
    }
    let mut out: Vec<String> = Vec::new();
    let mut i: usize = 0;
    while i < v.len()
        invariant
            i <= v@.len(),
            out@.len() == i,
            forall|j: int| 0 <= j < i ==> out@[j]@ == v@[j]@,
        decreases v.len() - i,
    {
        out.push(str_to_string(v[i].as_str()));
        i = i + 1;
    }
    proof {
        crate::text::lemma_view_strs(out@);
        assert(view_strs(out@) =~= view_strs(v@));
    }
    out
}

fn clone_content_triggers(v: &Vec<ContentTrigger>) -> (r: Vec<ContentTrigger>)
    ensures
        view_content_triggers(r@) == view_content_triggers(v@),
{
    let mut out: Vec<ContentTrigger> = Vec::new();
    let mut i: usize = 0;
    while i < v.len()
        invariant
            i <= v@.len(),
            out@.len() == i,
            forall|j: int| 0 <= j < i ==> out@[j]@ == v@[j]@,
        decreases v.len() - i,
    {
        let t = ContentTrigger {
            globs: clone_strs(&v[i].globs),
            matches: clone_strs(&v[i].matches),
            position: v[i].position,
        };
        assert(t@ =~= v@[i as int]@);
        out.push(t);
        i = i + 1;
    }
    proof {
        lemma_view_cts(out@);
        lemma_view_cts(v@);
        assert(view_content_triggers(out@) =~= view_content_triggers(v@));
    }
    out
}

proof fn lemma_view_cts(a: Seq<ContentTrigger>)
    ensures
        view_content_triggers(a).len() == a.len(),
        forall|i: int| 0 <= i < a.len() ==> view_content_triggers(a)[i] == a[i]@,
    decreases a.len(),
{
    if a.len() > 0 {
        lemma_view_cts(a.skip(1));
        assert forall|i: int| 0 <= i < a.len() implies view_content_triggers(a)[i]
            == a[i]@ by {
            if i > 0 {
                assert(view_content_triggers(a)[i] == view_content_triggers(a.skip(1))[i
                    - 1]);
                assert(a.skip(1)[i - 1] == a[i]);
            }
        }
    }
}

/// A field-for-field copy of a profile.
pub fn clone_profile(p: &Profile) -> (r: Profile)
    ensures
        r@ == p@,
{
    let r = Profile {
        metadata: crate::config::ProfileMetadata {
            name: str_to_string(p.metadata.name.as_str()),
            version: str_to_string(p.metadata.version.as_str()),
            scope: str_to_string(p.metadata.scope.as_str()),
            updated: str_to_string(p.metadata.updated.as_str()),
            description: str_to_string(p.metadata.description.as_str()),
        },
        activation: crate::config::ProfileActivation {
            triggers: clone_strs(&p.activation.triggers),
            indicators: clone_strs(&p.activation.indicators),
            paths: clone_strs(&p.activation.paths),
            globs: clone_strs(&p.activation.globs),
            content: clone_content_triggers(&p.activation.content),
            extensions: clone_strs(&p.activation.extensions),
            branches: clone_strs(&p.activation.branches),
        },
        enable: crate::config::ProfileEnable {
            domains: clone_strs(&p.enable.domains),
            plugins: clone_strs(&p.enable.plugins),
        },
        web_specific: p.web_specific,
        devops_specific: p.devops_specific,
        structure: match &p.structure {
            Some(s) => Some(
                crate::config::ProfileStructure {
                    expected_dirs: clone_strs(&s.expected_dirs),
                    forbidden_dirs: clone_strs(&s.forbidden_dirs),
                },
            ),
            None => None,
        },
    };
    assert(r@ =~= p@);
    r
}

/// The profiles of the list that are active, in input order.
pub open spec fn spec_active_profiles(
    ps: Seq<ProfileV>,
    ev: Option<EventV>,
    probes: Seq<ProfileFsProbe>,
) -> Seq<ProfileV>
    decreases ps,
{
    if ps.len() == 0 || probes.len() == 0 {
        Seq::empty()
    } else {
        (if spec_profile_active(ps[0], ev, probes[0]) {
            seq![ps[0]]
        } else {
            Seq::empty()
        }) + spec_active_profiles(ps.skip(1), ev, probes.skip(1))
    }
}

/// The profiles that are active for the project and event, in input order.
/// The caller supplies one file-system probe per profile, in the same order.
pub fn get_active_profiles(
    available_profiles: &Vec<Profile>,
    event: Option<&ProjectLintEvent>,
    probes: &Vec<ProfileFsProbe>,
) -> (r: Vec<Profile>)
    requires
        probes@.len() == available_profiles@.len(),
    ensures
        view_profiles(r@) == spec_active_profiles(
            view_profiles(available_profiles@),
            view_opt_event(event),
            probes@,
        ),
{
    let ghost pv = view_profiles(available_profiles@);
    let ghost ev = view_opt_event(event);
    proof {
        lemma_view_profiles(available_profiles@);
    }
    let mut out: Vec<Profile> = Vec::new();
    let mut i: usize = 0;
    assert(pv.skip(0) =~= pv);
    assert(probes@.skip(0) =~= probes@);
    assert(view_profiles(out@) =~= Seq::<ProfileV>::empty());
    while i < available_profiles.len()
        invariant
            i <= available_profiles@.len(),
            probes@.len() == available_profiles@.len(),
            pv == view_profiles(available_profiles@),
            ev == view_opt_event(event),
            pv.len() == available_profiles@.len(),
            forall|j: int| 0 <= j < pv.len() ==> pv[j] == available_profiles@[j]@,
            view_profiles(out@) + spec_active_profiles(
                pv.skip(i as int),
                ev,
                probes@.skip(i as int),
            ) == spec_active_profiles(pv, ev, probes@),
        decreases available_profiles.len() - i,
    {
        assert(pv.skip(i as int)[0] == pv[i as int]);
        assert(pv.skip(i as int).skip(1) =~= pv.skip(i + 1));
        assert(probes@.skip(i as int)[0] == probes@[i as int]);
        assert(probes@.skip(i as int).skip(1) =~= probes@.skip(i + 1));
        let ghost pre = out@;
        if is_profile_active(&available_profiles[i], event, &probes[i]) {
            let copy = clone_profile(&available_profiles[i]);
            proof {
                lemma_view_profiles_push(pre, copy);
            }
            out.push(copy);
        }
        proof {
            assert(view_profiles(out@) + spec_active_profiles(
                pv.skip(i + 1),
                ev,
                probes@.skip(i + 1),
            ) =~= view_profiles(pre) + spec_active_profiles(
                pv.skip(i as int),
                ev,
                probes@.skip(i as int),
            ));
        }
        i = i + 1;
    }
    assert(pv.skip(available_profiles@.len() as int) =~= Seq::<ProfileV>::empty());
    assert(view_profiles(out@) =~= spec_active_profiles(pv, ev, probes@));
    out
}

} // verus!
