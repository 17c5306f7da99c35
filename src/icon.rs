//! Choice of the app icon: the explicit icon, a scraped candidate, or the
//! bundled default, tried in that order.
use crate::error::NatyError;
use vstd::prelude::*;

verus! {

/// What a site declares an icon to be.
#[derive(Clone, Copy, Debug, PartialEq, Eq, Structural)]
pub enum IconKind {
    AppIcon,
    SiteFavicon,
    SiteLogo,
}

/// How an icon is encoded.
#[derive(Clone, Copy, Debug, PartialEq, Eq, Structural)]
pub enum IconFormat {
    Png,
    Jpeg,
    Ico,
    Gif,
    Svg,
}

/// A size in pixels.
#[derive(Clone, Copy, Debug, PartialEq, Eq, Structural)]
pub struct IconSize {
    pub width: u32,
    pub height: u32,
}

/// An icon that the site icon extractor found.
#[derive(Debug)]
pub struct IconCandidate {
    /// Where the icon can be downloaded.
    pub url: String,
    pub kind: IconKind,
    pub format: IconFormat,
    /// The first size that the icon declares, if it declares one.
    pub size: Option<IconSize>,
}

/// A candidate is usable when its declared size is square, it is not the
/// site favicon and it is not a vector image.
pub open spec fn qualifies(c: IconCandidate) -> bool {
    &&& c.size matches Some(s) && s.width == s.height
    &&& c.kind != IconKind::SiteFavicon
    &&& c.format != IconFormat::Svg
}

/// The position of the first usable candidate, if there is one.
pub open spec fn first_qualifying(s: Seq<IconCandidate>) -> Option<int>
    decreases s.len(),
{
    if s.len() == 0 {
        None
    } else {
        match first_qualifying(s.drop_last()) {
            Some(i) => Some(i),
            None => if qualifies(s.last()) {
                Some(s.len() - 1)
            } else {
                None
            },
        }
    }
}

/// `first_qualifying` is the first position that holds a usable candidate.
pub proof fn lemma_first_qualifying(s: Seq<IconCandidate>)
    ensures
        first_qualifying(s) matches Some(i) ==> 0 <= i < s.len() && qualifies(s[i]) && forall|k: int|
            0 <= k < i ==> !qualifies(#[trigger] s[k]),
        first_qualifying(s) is None ==> forall|k: int| 0 <= k < s.len() ==> !qualifies(#[trigger] s[k]),
    decreases s.len(),
{
    if s.len() > 0 {
        let t = s.drop_last();
        lemma_first_qualifying(t);
        assert forall|k: int| 0 <= k < t.len() implies t[k] == s[k] by {}
    }
}

/// Whether the candidate is usable.
pub fn is_usable(c: &IconCandidate) -> (r: bool)
    ensures
        r == qualifies(*c),
{
    match c.size {
        Some(s) => s.width == s.height && c.kind != IconKind::SiteFavicon && c.format
            != IconFormat::Svg,
        None => false,
    }
}

/// The first usable candidate, in the order the extractor gave them; no
/// size is compared across candidates.
pub fn select_icon(candidates: &Vec<IconCandidate>) -> (r: Option<usize>)
    ensures
        r matches Some(i) ==> i < candidates.len() && first_qualifying(candidates@) == Some(i as int),
        r is None ==> first_qualifying(candidates@) is None,
{
    let mut i: usize = 0;
    while i < candidates.len()
        invariant
            i <= candidates.len(),
            forall|k: int| 0 <= k < i ==> !qualifies(#[trigger] candidates@[k]),
        decreases candidates.len() - i,
    {
        if is_usable(&candidates[i]) {
            assert(qualifies(candidates@[i as int]));
            proof {
                lemma_first_qualifying(candidates@);
            }
            return Some(i);
        }
        i = i + 1;
    }
    proof {
        lemma_first_qualifying(candidates@);
    }
    None
}

/// Work that the caller carries out for the resolver.
#[derive(Debug)]
pub enum IconTask {
    /// Download the explicitly named icon, taking the name as a URL.
    FetchExplicit(String),
    /// Read the explicitly named icon from the local file system.
    ReadExplicit(String),
    /// Ask the site icon extractor for the icons of this address.
    ListCandidates(String),
    /// Download the chosen candidate from this address.
    FetchCandidate(String),
}

/// What came of a task.
#[derive(Debug)]
pub enum IconEvent {
    /// The task produced these bytes.
    Bytes(Vec<u8>),
    /// The task failed.
    Failed,
    /// The extractor returned these candidates, in its order.
    Candidates(Vec<IconCandidate>),
}

/// What the resolver asks for next.
#[derive(Debug)]
pub enum IconStep {
    /// Carry out the task and report what came of it.
    Perform(IconTask),
    /// The icon is these bytes.
    Done(Vec<u8>),
    /// The icon is the bundled default icon.
    UseDefault,
    /// The run must stop.
    Abort(NatyError),
}

/// Where the resolver stands.
#[derive(Clone, Copy, Debug, PartialEq, Eq, Structural)]
pub enum IconStage {
    Start,
    FetchingExplicit,
    ReadingExplicit,
    ListingCandidates,
    FetchingCandidate,
    Finished,
}

/// Resolves the app icon, asking its caller for each fetch, read or query.
#[derive(Debug)]
pub struct IconResolver {
    /// The explicitly named icon, a path or a URL.
    pub icon: Option<String>,
    /// The address whose icons are scraped when none is named.
    pub target_url: String,
    pub stage: IconStage,
}

impl IconResolver {
    /// The explicit icon is known wherever the resolver works on it.
    pub open spec fn wf(&self) -> bool {
        (self.stage == IconStage::FetchingExplicit || self.stage == IconStage::ReadingExplicit)
            ==> self.icon is Some
    }

    /// Whether the resolver waits for the outcome of a task.
    pub open spec fn awaiting(&self) -> bool {
        self.stage != IconStage::Start && self.stage != IconStage::Finished
    }

    /// The resolver at another stage.
    pub open spec fn at(self, stage: IconStage) -> IconResolver {
        IconResolver { icon: self.icon, target_url: self.target_url, stage }
    }
}

/// The first request: the explicit icon as a URL when one is named, else the
/// candidates of the target address.
pub open spec fn start_step(r: IconResolver) -> (IconStage, IconStep) {
    match r.icon {
        Some(p) => (IconStage::FetchingExplicit, IconStep::Perform(IconTask::FetchExplicit(p))),
        None => (
            IconStage::ListingCandidates,
            IconStep::Perform(IconTask::ListCandidates(r.target_url)),
        ),
    }
}

/// What the resolver does with the outcome of the task it waits for.
pub open spec fn advance_step(r: IconResolver, e: IconEvent) -> (IconStage, IconStep) {
    match r.stage {
        IconStage::FetchingExplicit => match e {
            IconEvent::Bytes(b) => (IconStage::Finished, IconStep::Done(b)),
            _ => (
                IconStage::ReadingExplicit,
                IconStep::Perform(IconTask::ReadExplicit(r.icon->Some_0)),
            ),
        },
        IconStage::ReadingExplicit => match e {
            IconEvent::Bytes(b) => (IconStage::Finished, IconStep::Done(b)),
            _ => (IconStage::Finished, IconStep::Abort(NatyError::IconUnavailable)),
        },
        IconStage::ListingCandidates => match e {
            IconEvent::Candidates(c) => match first_qualifying(c@) {
                Some(i) => (
                    IconStage::FetchingCandidate,
                    IconStep::Perform(IconTask::FetchCandidate(c@[i].url)),
                ),
                None => (IconStage::Finished, IconStep::UseDefault),
            },
            _ => (IconStage::Finished, IconStep::UseDefault),
        },
        IconStage::FetchingCandidate => match e {
            IconEvent::Bytes(b) => (IconStage::Finished, IconStep::Done(b)),
            _ => (IconStage::Finished, IconStep::UseDefault),
        },
        _ => (r.stage, IconStep::UseDefault),
    }
}

impl IconResolver {
    /// A resolver for the explicit icon `icon`, if any, and the address `target_url`.
    pub fn new(icon: Option<String>, target_url: String) -> (r: IconResolver)
        ensures
            r.icon == icon,
            r.target_url == target_url,
            r.stage == IconStage::Start,
            r.wf(),
    {
        IconResolver { icon, target_url, stage: IconStage::Start }
    }

    /// The first request of the resolver.
    pub fn start(&mut self) -> (step: IconStep)
        requires
            old(self).stage == IconStage::Start,
        ensures
            *final(self) == old(self).at(start_step(*old(self)).0),
            step == start_step(*old(self)).1,
            final(self).wf(),
    {
        match &self.icon {
            Some(p) => {
                let p = p.clone();
                self.stage = IconStage::FetchingExplicit;
                IconStep::Perform(IconTask::FetchExplicit(p))
            },
            None => {
                self.stage = IconStage::ListingCandidates;
                IconStep::Perform(IconTask::ListCandidates(self.target_url.clone()))
            },
        }
    }

    /// Takes the outcome of the task the resolver waits for, and says what
    /// comes next.
    pub fn advance(&mut self, event: IconEvent) -> (step: IconStep)
        requires
            old(self).wf(),
            old(self).awaiting(),
        ensures
            *final(self) == old(self).at(advance_step(*old(self), event).0),
            step == advance_step(*old(self), event).1,
            final(self).wf(),
    {
        match self.stage {
            IconStage::FetchingExplicit => match event {
                IconEvent::Bytes(b) => {
                    self.stage = IconStage::Finished;
                    IconStep::Done(b)
                },
                _ => {
                    self.stage = IconStage::ReadingExplicit;
                    match &self.icon {
                        Some(p) => IconStep::Perform(IconTask::ReadExplicit(p.clone())),
                        None => IconStep::UseDefault,
                    }
                },
            },
            IconStage::ReadingExplicit => {
                self.stage = IconStage::Finished;
                match event {
                    IconEvent::Bytes(b) => IconStep::Done(b),
                    _ => IconStep::Abort(NatyError::IconUnavailable),
                }
            },
            IconStage::ListingCandidates => match event {
                IconEvent::Candidates(c) => match select_icon(&c) {
                    Some(i) => {
                        self.stage = IconStage::FetchingCandidate;
                        IconStep::Perform(IconTask::FetchCandidate(c[i].url.clone()))
                    },
                    None => {
                        self.stage = IconStage::Finished;
                        IconStep::UseDefault
                    },
                },
                _ => {
                    self.stage = IconStage::Finished;
                    IconStep::UseDefault
                },
            },
            _ => {
                self.stage = IconStage::Finished;
                match event {
                    IconEvent::Bytes(b) => IconStep::Done(b),
                    _ => IconStep::UseDefault,
                }
            },
        }
    }
}

/// An explicitly named icon that can be neither downloaded nor read ends the
/// run with an error: after the failed download comes the local read, and
/// after the failed read the resolver stops, without asking the site icon
/// extractor.
pub proof fn lemma_unreachable_explicit_icon_is_fatal(
    icon: String,
    target_url: String,
    fetched: IconEvent,
    read: IconEvent,
)
    requires
        !(fetched is Bytes),
        !(read is Bytes),
    ensures
        ({
            let r0 = IconResolver { icon: Some(icon), target_url, stage: IconStage::Start };
            let (s1, t1) = start_step(r0);
            let (s2, t2) = advance_step(r0.at(s1), fetched);
            let (s3, t3) = advance_step(r0.at(s2), read);
            &&& t1 == IconStep::Perform(IconTask::FetchExplicit(icon))
            &&& t2 == IconStep::Perform(IconTask::ReadExplicit(icon))
            &&& t3 == IconStep::Abort(NatyError::IconUnavailable)
            &&& s3 == IconStage::Finished
        }),
{
}

/// With no explicit icon, when the extractor fails or offers no usable
/// candidate, the resolver settles on the bundled default icon.
pub proof fn lemma_no_usable_candidate_gives_default(target_url: String, listed: IconEvent)
    requires
        listed matches IconEvent::Candidates(c) ==> forall|k: int|
            0 <= k < c@.len() ==> !qualifies(#[trigger] c@[k]),
    ensures
        ({
            let r0 = IconResolver { icon: None, target_url, stage: IconStage::Start };
            let (s1, t1) = start_step(r0);
            let (s2, t2) = advance_step(r0.at(s1), listed);
            &&& t1 == IconStep::Perform(IconTask::ListCandidates(target_url))
            &&& t2 == IconStep::UseDefault
            &&& s2 == IconStage::Finished
        }),
{
    if let IconEvent::Candidates(c) = listed {
        lemma_first_qualifying(c@);
        if first_qualifying(c@) is Some {
            let i = first_qualifying(c@)->Some_0;
            assert(qualifies(c@[i]));
        }
    }
}

} // verus!
