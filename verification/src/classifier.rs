//! The window classifier: from what the operating system says about the
//! foreground window to a capture target, or to the reason why the window is
//! passed over in this cycle.

use crate::geometry::{is_fullscreen, Rect};
use crate::normalize::{is_normal, normalize_name, normalized};
use crate::rules::{
    find_rule, has_rule, lemma_rule_for_no_match, rule_for, text_view, Config, RuleView,
};
use vstd::prelude::*;

verus! {

/// One line of a snapshot of the running processes.
#[derive(Debug)]
pub struct ProcessEntry {
    pub pid: u32,
    /// The name of the executable file, as the snapshot gives it.
    pub exe_file: String,
}

/// A line of a process snapshot as a mathematical value.
pub struct ProcessView {
    pub pid: u32,
    pub exe_file: Seq<char>,
}

impl View for ProcessEntry {
    type V = ProcessView;

    open spec fn view(&self) -> ProcessView {
        ProcessView { pid: self.pid, exe_file: self.exe_file@ }
    }
}

/// The views of the lines of a snapshot, in the snapshot's order.
pub open spec fn processes_view(processes: Seq<ProcessEntry>) -> Seq<ProcessView> {
    processes.map_values(|p: ProcessEntry| p@)
}

/// What the operating system says about the foreground window. Each answer
/// that the system may refuse is optional: `None` stands for a query that
/// failed.
#[derive(Debug)]
pub struct WindowFacts {
    /// The window's handle.
    pub handle: u32,
    /// The process that owns the window; zero where the system names none.
    pub process_id: u32,
    /// The window's title.
    pub title: Option<String>,
    /// A snapshot of the running processes.
    pub processes: Option<Vec<ProcessEntry>>,
    /// The window's bounds.
    pub window_rect: Option<Rect>,
    /// The bounds of the monitor nearest to the window's bounds.
    pub monitor_rect: Option<Rect>,
}

/// The facts about a window as a mathematical value.
pub struct WindowFactsView {
    pub handle: u32,
    pub process_id: u32,
    pub title: Option<Seq<char>>,
    pub processes: Option<Seq<ProcessView>>,
    pub window_rect: Option<Rect>,
    pub monitor_rect: Option<Rect>,
}

impl View for WindowFacts {
    type V = WindowFactsView;

    open spec fn view(&self) -> WindowFactsView {
        WindowFactsView {
            handle: self.handle,
            process_id: self.process_id,
            title: text_view(self.title),
            processes: match self.processes {
                Some(ps) => Some(processes_view(ps@)),
                None => None,
            },
            window_rect: self.window_rect,
            monitor_rect: self.monitor_rect,
        }
    }
}

/// The view of facts that may be absent.
pub open spec fn facts_view(facts: Option<&WindowFacts>) -> Option<WindowFactsView> {
    match facts {
        Some(f) => Some(f@),
        None => None,
    }
}

/// A window to take a picture of, and the folder name to file it under.
#[derive(Debug)]
pub struct CaptureTarget {
    pub window: u32,
    pub bucket: String,
}

/// A capture target as a mathematical value.
pub struct CaptureTargetView {
    pub window: u32,
    pub bucket: Seq<char>,
}

impl View for CaptureTarget {
    type V = CaptureTargetView;

    open spec fn view(&self) -> CaptureTargetView {
        CaptureTargetView { window: self.window, bucket: self.bucket@ }
    }
}

/// Why the foreground window is passed over.
#[derive(Clone, Copy, Debug, PartialEq, Eq, Structural)]
pub enum ClassificationFailure {
    /// The system reports no foreground window.
    NoForegroundWindow,
    /// The window's application could not be named, or the title that was to
    /// name the folder could not be read.
    IdentityResolutionFailed,
    /// The rule for the application says to ignore it.
    WindowIgnored,
    /// The rule asks for a fullscreen window, and the window is not known to
    /// cover its monitor.
    NotFullscreen,
}

/// The file stem of a path, as `Path::file_stem` of the standard library
/// gives it for the platform that the library is built for, where it is
/// text.
pub uninterp spec fn file_stem_of(path: Seq<char>) -> Option<Seq<char>>;

/// `Path::file_stem` extracts the part of the path's file name that stands
/// before the extension; it returns nothing where the path has no file name.
/// The result is a function of the path alone; this contract gives it the
/// name [`file_stem_of`] and claims no more of it.
#[verifier::external_body]
fn file_stem(path: &str) -> (r: Option<String>)
    ensures
        text_view(r) == file_stem_of(path@),
{
    match std::path::Path::new(path).file_stem() {
        Some(stem) => match stem.to_str() {
            Some(text) => Some(text.to_owned()),
            None => None,
        },
        None => None,
    }
}

/// The name of the process `pid` by a snapshot: the file stem of the first
/// line with that process id. There is none where no line has the id, or
/// where the line's file has no stem.
pub open spec fn process_name(processes: Seq<ProcessView>, pid: u32) -> Option<Seq<char>>
    decreases processes.len(),
{
    if processes.len() == 0 {
        None
    } else if processes[0].pid == pid {
        file_stem_of(processes[0].exe_file)
    } else {
        process_name(processes.drop_first(), pid)
    }
}

/// Whether the snapshot has a line for the process `pid`.
pub open spec fn has_process(processes: Seq<ProcessView>, pid: u32) -> bool {
    exists|i: int| 0 <= i < processes.len() && (#[trigger] processes[i]).pid == pid
}

/// Names the process `pid` by the snapshot `processes`.
pub fn process_name_from_pid(processes: &Vec<ProcessEntry>, pid: u32) -> (r: Option<String>)
    ensures
        text_view(r) == process_name(processes_view(processes@), pid),
{
    let ghost lines = processes_view(processes@);
    let mut i: usize = 0;
    proof {
        assert(lines.skip(0) =~= lines);
    }
    while i < processes.len()
        invariant
            i <= processes.len(),
            lines == processes_view(processes@),
            process_name(lines, pid) == process_name(lines.skip(i as int), pid),
        decreases processes.len() - i,
    {
        proof {
            assert(lines.skip(i as int)[0] == processes@[i as int]@);
            assert(lines.skip(i as int).drop_first() =~= lines.skip(i as int + 1));
        }
        if processes[i].pid == pid {
            return file_stem(processes[i].exe_file.as_str());
        }
        i += 1;
    }
    None
}

/// The identity of a window: the normalized title where no process owns the
/// window, else the name of the owning process.
pub open spec fn identity_of(facts: WindowFactsView) -> Option<Seq<char>> {
    if facts.process_id == 0 {
        match facts.title {
            Some(t) => Some(normalized(t)),
            None => None,
        }
    } else {
        match facts.processes {
            Some(ps) => process_name(ps, facts.process_id),
            None => None,
        }
    }
}

/// Resolves the identity of a window. It is `None` where the answer that the
/// identity rests on is missing, the process is not in the snapshot, or its
/// file has no stem.
pub fn resolve_identity(facts: &WindowFacts) -> (r: Option<String>)
    ensures
        text_view(r) == identity_of(facts@),
{
    if facts.process_id == 0 {
        match &facts.title {
            Some(t) => Some(normalize_name(t.as_str())),
            None => None,
        }
    } else {
        match &facts.processes {
            Some(ps) => process_name_from_pid(ps, facts.process_id),
            None => None,
        }
    }
}

/// Whether the window is known to cover its monitor.
pub open spec fn known_fullscreen(facts: WindowFactsView) -> bool {
    &&& facts.window_rect matches Some(w)
    &&& facts.monitor_rect matches Some(m)
    &&& w.covers(m)
}

/// The folder name for a window under `rule`: the rule's override where it
/// has one, else the normalized title where the rule asks for the title, else
/// the window's identity. There is none where the title is asked for and
/// missing.
pub open spec fn bucket_of(rule: RuleView, identity: Seq<char>, title: Option<Seq<char>>) -> Option<
    Seq<char>,
> {
    match rule.override_name {
        Some(n) => Some(n),
        None => if rule.use_window_name {
            match title {
                Some(t) => Some(normalized(t)),
                None => None,
            }
        } else {
            Some(identity)
        },
    }
}

/// What the classifier makes of the foreground window under the rule table
/// `rules`: the checks in their order, and the first that fails gives the
/// reason.
pub open spec fn classification(rules: Seq<RuleView>, foreground: Option<WindowFactsView>) -> Result<
    CaptureTargetView,
    ClassificationFailure,
> {
    match foreground {
        None => Err(ClassificationFailure::NoForegroundWindow),
        Some(facts) => match identity_of(facts) {
            None => Err(ClassificationFailure::IdentityResolutionFailed),
            Some(identity) => {
                let rule = rule_for(rules, identity);
                if rule.ignore {
                    Err(ClassificationFailure::WindowIgnored)
                } else if rule.needs_fullscreen && !known_fullscreen(facts) {
                    Err(ClassificationFailure::NotFullscreen)
                } else {
                    match bucket_of(rule, identity, facts.title) {
                        None => Err(ClassificationFailure::IdentityResolutionFailed),
                        Some(bucket) => Ok(
                            CaptureTargetView { window: facts.handle, bucket },
                        ),
                    }
                }
            },
        },
    }
}

/// The view of a classifier's result.
pub open spec fn outcome_view(outcome: Result<CaptureTarget, ClassificationFailure>) -> Result<
    CaptureTargetView,
    ClassificationFailure,
> {
    match outcome {
        Ok(target) => Ok(target@),
        Err(reason) => Err(reason),
    }
}

/// Whether the window is known to cover its monitor.
pub fn check_fullscreen(facts: &WindowFacts) -> (r: bool)
    ensures
        r == known_fullscreen(facts@),
{
    match (&facts.window_rect, &facts.monitor_rect) {
        (Some(w), Some(m)) => is_fullscreen(w, m),
        _ => false,
    }
}

/// Classifies the foreground window, where `None` says that the system
/// reports none. The result is a capture target, or the reason why there is
/// none in this cycle; no reason is fatal.
pub fn classify(config: &Config, foreground: Option<&WindowFacts>) -> (r: Result<
    CaptureTarget,
    ClassificationFailure,
>)
    ensures
        outcome_view(r) == classification(config@.rules, facts_view(foreground)),
{
    let facts = match foreground {
        Some(f) => f,
        None => {
            return Err(ClassificationFailure::NoForegroundWindow);
        },
    };
    let identity = match resolve_identity(facts) {
        Some(name) => name,
        None => {
            return Err(ClassificationFailure::IdentityResolutionFailed);
        },
    };
    let rule = find_rule(&config.rules, identity.as_str());
    if rule.ignore {
        return Err(ClassificationFailure::WindowIgnored);
    }
    if rule.needs_fullscreen && !check_fullscreen(facts) {
        return Err(ClassificationFailure::NotFullscreen);
    }
    let bucket = match rule.override_name {
        Some(n) => n,
        None => {
            if rule.use_window_name {
                match &facts.title {
                    Some(t) => normalize_name(t.as_str()),
                    None => {
                        return Err(ClassificationFailure::IdentityResolutionFailed);
                    },
                }
            } else {
                identity
            }
        },
    };
    Ok(CaptureTarget { window: facts.handle, bucket })
}

/// A capture target is always the foreground window itself.
pub proof fn lemma_target_is_foreground(rules: Seq<RuleView>, foreground: Option<WindowFactsView>)
    requires
        classification(rules, foreground) is Ok,
    ensures
        foreground matches Some(facts) && classification(rules, foreground)->Ok_0.window
            == facts.handle,
{
}

/// A window whose rule says to ignore it is never a capture target, whatever
/// else is known about it.
pub proof fn lemma_ignored_is_rejected(rules: Seq<RuleView>, facts: WindowFactsView)
    requires
        identity_of(facts) matches Some(identity) && rule_for(rules, identity).ignore,
    ensures
        classification(rules, Some(facts)) == Err::<CaptureTargetView, ClassificationFailure>(
            ClassificationFailure::WindowIgnored,
        ),
{
}

/// A window that no rule names is a capture target exactly when it is known
/// to be fullscreen, and then under its own identity.
pub proof fn lemma_unlisted_needs_fullscreen(rules: Seq<RuleView>, facts: WindowFactsView)
    requires
        identity_of(facts) matches Some(identity) && !has_rule(rules, identity),
    ensures
        classification(rules, Some(facts)) == (if known_fullscreen(facts) {
            Ok::<CaptureTargetView, ClassificationFailure>(
                CaptureTargetView { window: facts.handle, bucket: identity_of(facts)->0 },
            )
        } else {
            Err::<CaptureTargetView, ClassificationFailure>(ClassificationFailure::NotFullscreen)
        }),
{
    lemma_rule_for_no_match(rules, identity_of(facts)->0);
}

/// A rule's override names the bucket whatever the window's identity and
/// title are.
pub proof fn lemma_override_names_bucket(rules: Seq<RuleView>, facts: WindowFactsView)
    requires
        classification(rules, Some(facts)) is Ok,
        rule_for(rules, identity_of(facts)->0).override_name is Some,
    ensures
        classification(rules, Some(facts))->Ok_0.bucket == rule_for(
            rules,
            identity_of(facts)->0,
        ).override_name->0,
{
}

/// Under a rule that asks for the window's title and has no override, the
/// bucket is the normalized title, which is folder-safe.
pub proof fn lemma_title_names_bucket(rules: Seq<RuleView>, facts: WindowFactsView)
    requires
        classification(rules, Some(facts)) is Ok,
        rule_for(rules, identity_of(facts)->0).override_name is None,
        rule_for(rules, identity_of(facts)->0).use_window_name,
    ensures
        facts.title matches Some(title) && classification(rules, Some(facts))->Ok_0.bucket
            == normalized(title),
        is_normal(classification(rules, Some(facts))->Ok_0.bucket),
{
}

} // verus!
