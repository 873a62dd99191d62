//! Output discovery: the outputs the compositor announced, their properties as
//! they arrive, and the choice of the output to capture.

use crate::protocol::{classify_global, spec_global_kind, GlobalKind};
use vstd::prelude::*;

verus! {

/// Reference to a bound compositor global: its registry name and version.
#[derive(Clone, Copy, Debug, PartialEq, Eq, Structural)]
pub struct GlobalRef {
    pub id: u32,
    pub version: u32,
}

/// What is known of one output; its properties arrive one event at a time.
#[derive(Clone, Debug)]
pub struct OutputRecord {
    /// Registry name of the output global, the key of the record.
    pub id: u32,
    pub name: Option<String>,
    pub width: Option<i32>,
    pub height: Option<i32>,
    /// Whether the record was already handed out as a complete monitor.
    pub reported: bool,
}

/// A property event of an output, decoded from the wire.
#[derive(Clone, Debug)]
pub enum OutputEvent {
    Name { output: u32, name: String },
    Mode { output: u32, width: i32, height: i32 },
}

/// The discovered compositor singletons and outputs, outputs in bind order.
#[derive(Debug)]
pub struct OutputRegistry {
    pub outputs: Vec<OutputRecord>,
    pub manager: Option<GlobalRef>,
    pub dmabuf_factory: Option<GlobalRef>,
}

pub open spec fn has_name(r: OutputRecord, n: Seq<char>) -> bool {
    match r.name {
        Some(s) => s@ == n,
        None => false,
    }
}

pub open spec fn ids_unique(s: Seq<OutputRecord>) -> bool {
    forall|i: int, j: int|
        0 <= i < s.len() && 0 <= j < s.len() && i != j ==> s[i].id != s[j].id
}

/// The name of an output, as characters.
pub open spec fn name_view(r: OutputRecord) -> Option<Seq<char>> {
    match r.name {
        Some(s) => Some(s@),
        None => None,
    }
}

/// No two outputs carry the same name.
pub open spec fn names_unique(s: Seq<OutputRecord>) -> bool {
    forall|i: int, j: int|
        0 <= i < s.len() && 0 <= j < s.len() && i != j && name_view(#[trigger] s[i]) is Some
            ==> name_view(s[i]) != name_view(#[trigger] s[j])
}

pub open spec fn has_id(s: Seq<OutputRecord>, id: u32) -> bool {
    exists|i: int| 0 <= i < s.len() && #[trigger] s[i].id == id
}

/// `i` is the earliest bound output named `n`.
pub open spec fn is_first_named(s: Seq<OutputRecord>, n: Seq<char>, i: int) -> bool {
    &&& 0 <= i < s.len()
    &&& has_name(s[i], n)
    &&& forall|j: int| 0 <= j < i ==> !has_name(#[trigger] s[j], n)
}

pub open spec fn none_named(s: Seq<OutputRecord>, n: Seq<char>) -> bool {
    forall|j: int| 0 <= j < s.len() ==> !has_name(#[trigger] s[j], n)
}

/// A freshly bound output, none of whose properties has arrived.
pub open spec fn fresh_record(id: u32) -> OutputRecord {
    OutputRecord { id, name: None, width: None, height: None, reported: false }
}

impl OutputEvent {
    pub open spec fn target(self) -> u32 {
        match self {
            OutputEvent::Name { output, .. } => output,
            OutputEvent::Mode { output, .. } => output,
        }
    }
}

/// The record after a property event about it.
pub open spec fn updated(r: OutputRecord, ev: OutputEvent) -> OutputRecord {
    match ev {
        OutputEvent::Name { name, .. } => OutputRecord { name: Some(name), ..r },
        OutputEvent::Mode { width, height, .. } => OutputRecord {
            width: Some(width),
            height: Some(height),
            ..r
        },
    }
}

/// The outputs after a property event: the record it names is updated.
pub open spec fn spec_apply(s: Seq<OutputRecord>, ev: OutputEvent) -> Seq<OutputRecord> {
    s.map_values(|r: OutputRecord| if r.id == ev.target() { updated(r, ev) } else { r })
}

/// A record whose name and mode both arrived and that was not handed out yet.
pub open spec fn is_unreported_complete(r: OutputRecord) -> bool {
    r.name is Some && r.width is Some && r.height is Some && !r.reported
}

pub open spec fn is_first_complete(s: Seq<OutputRecord>, i: int) -> bool {
    &&& 0 <= i < s.len()
    &&& is_unreported_complete(s[i])
    &&& forall|j: int| 0 <= j < i ==> !is_unreported_complete(#[trigger] s[j])
}

/// The monitor description of a complete record.
pub open spec fn monitor_of(r: OutputRecord) -> MonitorInfo {
    MonitorInfo { name: r.name->0, width: r.width->0 as u32, height: r.height->0 as u32 }
}

/// Smallest width of an output that shows side-by-side stereo.
pub const STEREO_MIN_WIDTH: u32 = 3000;

/// A display output with its name and current mode.
#[derive(Clone, Debug)]
pub struct MonitorInfo {
    pub name: String,
    pub width: u32,
    pub height: u32,
}

impl MonitorInfo {
    /// Whether this is the monitor named `monitor_name`, switched to its wide
    /// side-by-side stereo mode.
    pub fn shows_stereo_mode(&self, monitor_name: &String) -> (r: bool)
        ensures
            r == (self.name@ == monitor_name@ && self.width > STEREO_MIN_WIDTH),
    {
        self.name == *monitor_name && self.width > STEREO_MIN_WIDTH
    }
}

impl OutputRegistry {
    pub open spec fn wf(&self) -> bool {
        ids_unique(self.outputs@)
    }

    /// The registry before the discovery round trip.
    pub fn new() -> (r: OutputRegistry)
        ensures
            r.wf(),
            r.outputs@ == Seq::<OutputRecord>::empty(),
            r.manager is None,
            r.dmabuf_factory is None,
    {
        OutputRegistry { outputs: Vec::new(), manager: None, dmabuf_factory: None }
    }

    /// Whether an output with registry name `id` is recorded.
    pub fn contains(&self, id: u32) -> (r: bool)
        ensures
            r == has_id(self.outputs@, id),
    {
        let mut i: usize = 0;
        while i < self.outputs.len()
            invariant
                0 <= i <= self.outputs.len(),
                forall|j: int| 0 <= j < i ==> #[trigger] self.outputs@[j].id != id,
            decreases self.outputs.len() - i,
        {
            if self.outputs[i].id == id {
                return true;
            }
            i = i + 1;
        }
        false
    }

    /// Records an announced global and says what the caller must bind: an
    /// output is recorded once, in announcement order; a later capture manager
    /// or dma-buf factory replaces an earlier one; other interfaces are ignored.
    pub fn announce(&mut self, id: u32, interface: &String, version: u32) -> (r: GlobalKind)
        requires
            old(self).wf(),
        ensures
            final(self).wf(),
            r == (if spec_global_kind(interface@) == GlobalKind::Output && has_id(
                old(self).outputs@,
                id,
            ) {
                GlobalKind::Ignored
            } else {
                spec_global_kind(interface@)
            }),
            final(self).outputs@ == (if r == GlobalKind::Output {
                old(self).outputs@.push(fresh_record(id))
            } else {
                old(self).outputs@
            }),
            final(self).manager == (if r == GlobalKind::CaptureManager {
                Some(GlobalRef { id, version })
            } else {
                old(self).manager
            }),
            final(self).dmabuf_factory == (if r == GlobalKind::DmabufFactory {
                Some(GlobalRef { id, version })
            } else {
                old(self).dmabuf_factory
            }),
    {
        let kind = classify_global(interface);
        match kind {
            GlobalKind::Output => {
                if self.contains(id) {
                    GlobalKind::Ignored
                } else {
                    self.outputs.push(
                        OutputRecord { id, name: None, width: None, height: None, reported: false },
                    );
                    GlobalKind::Output
                }
            },
            GlobalKind::CaptureManager => {
                self.manager = Some(GlobalRef { id, version });
                kind
            },
            GlobalKind::DmabufFactory => {
                self.dmabuf_factory = Some(GlobalRef { id, version });
                kind
            },
            GlobalKind::Ignored => kind,
        }
    }

    /// Applies a property event to the output it names; an event about an
    /// unknown output changes nothing.
    pub fn apply(&mut self, ev: OutputEvent)
        requires
            old(self).wf(),
        ensures
            final(self).wf(),
            final(self).outputs@ == spec_apply(old(self).outputs@, ev),
            final(self).manager == old(self).manager,
            final(self).dmabuf_factory == old(self).dmabuf_factory,
    {
        let ghost pre = self.outputs@;
        let target = match &ev {
            OutputEvent::Name { output, .. } => *output,
            OutputEvent::Mode { output, .. } => *output,
        };
        let mut i: usize = 0;
        while i < self.outputs.len()
            invariant
                0 <= i <= self.outputs.len(),
                self.outputs.len() == pre.len(),
                target == ev.target(),
                self.manager == old(self).manager,
                self.dmabuf_factory == old(self).dmabuf_factory,
                forall|j: int| 0 <= j < i ==> #[trigger] self.outputs@[j] == spec_apply(pre, ev)[j],
                forall|j: int| i <= j < pre.len() ==> #[trigger] self.outputs@[j] == pre[j],
            decreases self.outputs.len() - i,
        {
            if self.outputs[i].id == target {
                match &ev {
                    OutputEvent::Name { name, .. } => {
                        self.outputs[i].name = Some(name.clone());
                    },
                    OutputEvent::Mode { width, height, .. } => {
                        self.outputs[i].width = Some(*width);
                        self.outputs[i].height = Some(*height);
                    },
                }
            }
            i = i + 1;
        }
        assert(self.outputs@ =~= spec_apply(pre, ev));
    }

    /// The earliest bound output named `name`.
    pub fn find_named(&self, name: &String) -> (r: Option<usize>)
        ensures
            match r {
                Some(i) => is_first_named(self.outputs@, name@, i as int),
                None => none_named(self.outputs@, name@),
            },
    {
        let mut i: usize = 0;
        while i < self.outputs.len()
            invariant
                0 <= i <= self.outputs.len(),
                forall|j: int| 0 <= j < i ==> !has_name(#[trigger] self.outputs@[j], name@),
            decreases self.outputs.len() - i,
        {
            match &self.outputs[i].name {
                Some(n) => {
                    if *n == *name {
                        return Some(i);
                    }
                },
                None => {},
            }
            i = i + 1;
        }
        None
    }

    /// Hands out the earliest output whose name and mode have both arrived and
    /// that was not handed out before, and marks it as handed out.
    pub fn take_complete(&mut self) -> (r: Option<MonitorInfo>)
        requires
            old(self).wf(),
        ensures
            final(self).wf(),
            final(self).manager == old(self).manager,
            final(self).dmabuf_factory == old(self).dmabuf_factory,
            match r {
                Some(m) => exists|i: int|
                    is_first_complete(old(self).outputs@, i) && m == monitor_of(
                        #[trigger] old(self).outputs@[i],
                    ) && final(self).outputs@ == old(self).outputs@.update(
                        i,
                        OutputRecord { reported: true, ..old(self).outputs@[i] },
                    ),
                None => final(self).outputs@ == old(self).outputs@ && forall|j: int|
                    0 <= j < old(self).outputs@.len() ==> !is_unreported_complete(
                        #[trigger] old(self).outputs@[j],
                    ),
            },
    {
        let mut i: usize = 0;
        while i < self.outputs.len()
            invariant
                0 <= i <= self.outputs.len(),
                self.outputs@ == old(self).outputs@,
                ids_unique(self.outputs@),
                self.manager == old(self).manager,
                self.dmabuf_factory == old(self).dmabuf_factory,
                forall|j: int| 0 <= j < i ==> !is_unreported_complete(#[trigger] self.outputs@[j]),
            decreases self.outputs.len() - i,
        {
            if !self.outputs[i].reported {
                match (&self.outputs[i].name, self.outputs[i].width, self.outputs[i].height) {
                    (Some(n), Some(w), Some(h)) => {
                        let width: u32 = #[verifier::truncate] (w as u32);
                        let height: u32 = #[verifier::truncate] (h as u32);
                        let info = MonitorInfo { name: n.clone(), width, height };
                        let ghost pre = self.outputs@;
                        self.outputs[i].reported = true;
                        assert(self.outputs@ =~= pre.update(
                            i as int,
                            OutputRecord { reported: true, ..pre[i as int] },
                        ));
                        assert(is_first_complete(pre, i as int));
                        assert forall|a: int, b: int|
                            0 <= a < self.outputs@.len() && 0 <= b < self.outputs@.len() && a
                                != b implies self.outputs@[a].id != self.outputs@[b].id by {
                            assert(self.outputs@[a].id == pre[a].id);
                            assert(self.outputs@[b].id == pre[b].id);
                        }
                        return Some(info);
                    },
                    _ => {},
                }
            }
            i = i + 1;
        }
        None
    }
}

proof fn lemma_record_in_other(a: Seq<OutputRecord>, b: Seq<OutputRecord>, ia: int) -> (k: int)
    requires
        a.to_set() == b.to_set(),
        0 <= ia < a.len(),
    ensures
        0 <= k < b.len(),
        b[k] == a[ia],
{
    assert(a.to_set().contains(a[ia]));
    assert(b.contains(a[ia]));
    choose|k: int| 0 <= k < b.len() && b[k] == a[ia]
}

/// Choosing an output by name does not depend on the order of announcement:
/// over the same outputs, with distinct names, in any two orders, the name is
/// carried in both or in neither, and the outputs chosen are the same.
pub proof fn lemma_named_choice_order_free(a: Seq<OutputRecord>, b: Seq<OutputRecord>, n: Seq<char>)
    requires
        a.to_set() == b.to_set(),
        names_unique(a),
        names_unique(b),
    ensures
        none_named(a, n) <==> none_named(b, n),
        forall|ia: int, ib: int|
            is_first_named(a, n, ia) && is_first_named(b, n, ib) ==> a[ia] == b[ib],
{
    if !none_named(a, n) {
        let ia = choose|ia: int| 0 <= ia < a.len() && has_name(#[trigger] a[ia], n);
        let k = lemma_record_in_other(a, b, ia);
        assert(has_name(b[k], n));
    }
    if !none_named(b, n) {
        let ib = choose|ib: int| 0 <= ib < b.len() && has_name(#[trigger] b[ib], n);
        let k = lemma_record_in_other(b, a, ib);
        assert(has_name(a[k], n));
    }
    assert forall|ia: int, ib: int|
        is_first_named(a, n, ia) && is_first_named(b, n, ib) implies a[ia] == b[ib] by {
        let k = lemma_record_in_other(a, b, ia);
        assert(name_view(b[k]) == Some(n));
        assert(name_view(b[ib]) == Some(n));
        if k != ib {
            assert(name_view(b[k]) != name_view(b[ib]));
        }
    }
}

/// Property events leave the same outputs whatever their interleaving: two
/// events commute unless they set the same property of the same output.
pub proof fn lemma_events_commute(s: Seq<OutputRecord>, e1: OutputEvent, e2: OutputEvent)
    requires
        e1.target() != e2.target() || (e1 is Name) != (e2 is Name),
    ensures
        spec_apply(spec_apply(s, e1), e2) == spec_apply(spec_apply(s, e2), e1),
{
    assert(spec_apply(spec_apply(s, e1), e2) =~= spec_apply(spec_apply(s, e2), e1));
}

} // verus!
