//! Event classification.
//!
//! The dispatcher subscribes once to the runtime's asynchronous event
//! channel and classifies every event: failure signals that can be
//! traced back — through the reserved element-name prefix and the
//! watchdog suffix — to a configured source become restart requests;
//! everything else is observability only.  No event ever ends the
//! subscription, and no source-local failure escapes its own restart.

use vstd::prelude::*;
use crate::bytes::{bytes_eq, contains_bytes, contains_seq, drop_front, ends_with, is_prefix_of,
    is_suffix_of, starts_with, take_front};
use crate::ids::{lemma_decimal_digits, lemma_decimal_len, lemma_source_id_injective, rtsp_prefix,
    spec_decimal, spec_rtsp_element_name, spec_rtsp_prefix, spec_source_id,
    spec_watchdog_element_name, spec_watchdog_suffix, watchdog_suffix};
use crate::orchestrator::{RestartReason, SourceState, WallState};

verus! {

/// The stream-status kinds the runtime reports; thread bookkeeping
/// (create, enter, leave) is routine and not logged.
#[derive(Clone, Copy, Debug, PartialEq, Eq, Structural)]
pub enum StreamStatusKind {
    Create,
    Enter,
    Leave,
    Other,
}

/// One event from the runtime's channel, as handed to the classifier:
/// the originating element's name where the runtime reports one, plus
/// the per-kind payload the classification depends on.
#[derive(Clone, Debug, PartialEq)]
pub enum BusEvent {
    /// An error message, with the originating element's name if any.
    Error { origin: Option<Vec<u8>> },
    /// A state change; `old_was_null` marks the uninteresting initial
    /// transitions out of the dormant state.
    StateChanged { origin: Option<Vec<u8>>, old_was_null: bool },
    /// An element-specific message, with the name of its structure.
    ElementMessage { origin: Option<Vec<u8>>, structure_name: Vec<u8> },
    /// A stream-status notification.
    StreamStatus { status: StreamStatusKind },
    /// End of stream.
    EndOfStream,
    /// Quality-of-service statistics.
    Qos,
    /// A latency recalculation notice.
    Latency,
    /// A progress notification.
    Progress,
    /// Anything else.
    Other,
}

/// What the dispatcher does with an event.  Log actions are
/// observability only; the subscription continues whatever the action.
#[derive(Clone, Copy, Debug, PartialEq, Eq, Structural)]
pub enum DispatchAction {
    /// Invoke the restart entry point for the source in cell `index`.
    Restart { index: usize, reason: RestartReason },
    /// The name carried the reserved prefix but no configured source
    /// matches: an inconsistency, logged and contained.
    UnknownSource,
    /// An error from an unmonitored element: logged only.
    LogError,
    /// An interesting state change: logged only.
    LogStateChange,
    /// A timeout notice from an element without the reserved prefix.
    LogTimeout,
    /// A noteworthy stream-status notification.
    LogStreamStatus,
    /// End of stream: logged only.
    LogEndOfStream,
    /// A progress notification: logged only.
    LogProgress,
    /// An unclassified message: logged only.
    LogOther,
    /// Routine events carrying no information worth logging.
    Ignore,
}

/// The structure name of the runtime's RTSP timeout signal:
/// `GstRTSPSrcTimeout`.
pub open spec fn spec_rtsp_timeout_structure() -> Seq<u8> {
    seq![
        71u8, 115u8, 116u8, 82u8, 84u8, 83u8, 80u8, 83u8, 114u8, 99u8, 84u8, 105u8, 109u8, 101u8,
        111u8, 117u8, 116u8,
    ]
}

/// `GstRTSPSrcTimeout` as a byte string.
pub fn rtsp_timeout_structure() -> (r: Vec<u8>)
    ensures
        r@ == spec_rtsp_timeout_structure(),
{
    let mut v: Vec<u8> = Vec::new();
    v.push(71);
    v.push(115);
    v.push(116);
    v.push(82);
    v.push(84);
    v.push(83);
    v.push(80);
    v.push(83);
    v.push(114);
    v.push(99);
    v.push(84);
    v.push(105);
    v.push(109);
    v.push(101);
    v.push(111);
    v.push(117);
    v.push(116);
    proof {
        assert(v@ =~= spec_rtsp_timeout_structure());
    }
    v
}

/// The word other timeout-related structure names carry: `Timeout`.
pub open spec fn spec_timeout_word() -> Seq<u8> {
    seq![84u8, 105u8, 109u8, 101u8, 111u8, 117u8, 116u8]
}

/// `Timeout` as a byte string.
pub fn timeout_word() -> (r: Vec<u8>)
    ensures
        r@ == spec_timeout_word(),
{
    let mut v: Vec<u8> = Vec::new();
    v.push(84);
    v.push(105);
    v.push(109);
    v.push(101);
    v.push(111);
    v.push(117);
    v.push(116);
    proof {
        assert(v@ =~= spec_timeout_word());
    }
    v
}

/// The top-level graph's name, whose state changes are interesting:
/// `pi-frame`.
pub open spec fn spec_pipeline_name() -> Seq<u8> {
    seq![112u8, 105u8, 45u8, 102u8, 114u8, 97u8, 109u8, 101u8]
}

/// `pi-frame` as a byte string.
pub fn pipeline_name() -> (r: Vec<u8>)
    ensures
        r@ == spec_pipeline_name(),
{
    let mut v: Vec<u8> = Vec::new();
    v.push(112);
    v.push(105);
    v.push(45);
    v.push(102);
    v.push(114);
    v.push(97);
    v.push(109);
    v.push(101);
    proof {
        assert(v@ =~= spec_pipeline_name());
    }
    v
}

/// The id of the monitored source an error event's element name traces
/// back to: the name must carry the reserved prefix, and a recognised
/// watchdog suffix is stripped (the error then originated in the
/// source's nested watchdog).
pub open spec fn spec_traced_error_id(name: Seq<u8>) -> Option<Seq<u8>> {
    if is_prefix_of(spec_rtsp_prefix(), name) {
        let rest = name.subrange(spec_rtsp_prefix().len() as int, name.len() as int);
        if is_suffix_of(spec_watchdog_suffix(), rest) {
            Some(rest.subrange(0, rest.len() - spec_watchdog_suffix().len()))
        } else {
            Some(rest)
        }
    } else {
        None
    }
}

/// Strips the reserved prefix from an error event's element name and
/// the watchdog suffix behind it, if both are present.
pub fn traced_error_id(name: &[u8]) -> (r: Option<Vec<u8>>)
    ensures
        match r {
            Some(id) => spec_traced_error_id(name@) == Some(id@),
            None => spec_traced_error_id(name@) is None,
        },
{
    let prefix: Vec<u8> = rtsp_prefix();
    if !starts_with(name, prefix.as_slice()) {
        return None;
    }
    let rest: Vec<u8> = drop_front(name, prefix.len());
    let suffix: Vec<u8> = watchdog_suffix();
    if ends_with(rest.as_slice(), suffix.as_slice()) {
        let kept: usize = rest.len() - suffix.len();
        Some(take_front(rest.as_slice(), kept))
    } else {
        Some(rest)
    }
}

/// The id of the monitored source a timeout signal's element name
/// traces back to: the signal is raised by the source element itself,
/// so only the reserved prefix is stripped.
pub open spec fn spec_traced_timeout_id(name: Seq<u8>) -> Option<Seq<u8>> {
    if is_prefix_of(spec_rtsp_prefix(), name) {
        Some(name.subrange(spec_rtsp_prefix().len() as int, name.len() as int))
    } else {
        None
    }
}

/// Strips the reserved prefix from a timeout signal's element name.
pub fn traced_timeout_id(name: &[u8]) -> (r: Option<Vec<u8>>)
    ensures
        match r {
            Some(id) => spec_traced_timeout_id(name@) == Some(id@),
            None => spec_traced_timeout_id(name@) is None,
        },
{
    let prefix: Vec<u8> = rtsp_prefix();
    if !starts_with(name, prefix.as_slice()) {
        return None;
    }
    Some(drop_front(name, prefix.len()))
}

/// The first source whose stable id is `id`, searching from `from`.
pub open spec fn spec_find_source(states: Seq<SourceState>, id: Seq<u8>, from: int) -> Option<int>
    decreases states.len() - from,
{
    if !(0 <= from < states.len()) {
        None
    } else if states[from].instantiated.name@ == id {
        Some(from)
    } else {
        spec_find_source(states, id, from + 1)
    }
}

/// Whether a monitored name is interesting for state-change logging:
/// a source element or the top-level graph.
pub open spec fn spec_interesting_state_name(name: Seq<u8>) -> bool {
    is_prefix_of(spec_rtsp_prefix(), name) || name == spec_pipeline_name()
}

/// The classification of one event against the wall's source table.
pub open spec fn spec_classify(states: Seq<SourceState>, event: BusEvent) -> DispatchAction {
    match event {
        BusEvent::Error { origin } => match origin {
            Some(name) => match spec_traced_error_id(name@) {
                Some(id) => match spec_find_source(states, id, 0) {
                    Some(i) => DispatchAction::Restart {
                        index: i as usize,
                        reason: RestartReason::Error,
                    },
                    None => DispatchAction::UnknownSource,
                },
                None => DispatchAction::LogError,
            },
            None => DispatchAction::LogError,
        },
        BusEvent::StateChanged { origin, old_was_null } => match origin {
            Some(name) => if spec_interesting_state_name(name@) && !old_was_null {
                DispatchAction::LogStateChange
            } else {
                DispatchAction::Ignore
            },
            None => DispatchAction::Ignore,
        },
        BusEvent::ElementMessage { origin, structure_name } => if structure_name@
            == spec_rtsp_timeout_structure() {
            match origin {
                Some(name) => match spec_traced_timeout_id(name@) {
                    Some(id) => match spec_find_source(states, id, 0) {
                        Some(i) => DispatchAction::Restart {
                            index: i as usize,
                            reason: RestartReason::Timeout,
                        },
                        None => DispatchAction::UnknownSource,
                    },
                    None => DispatchAction::UnknownSource,
                },
                None => DispatchAction::Ignore,
            }
        } else if contains_seq(structure_name@, spec_timeout_word()) {
            DispatchAction::LogTimeout
        } else {
            DispatchAction::Ignore
        },
        BusEvent::StreamStatus { status } => match status {
            StreamStatusKind::Create => DispatchAction::Ignore,
            StreamStatusKind::Enter => DispatchAction::Ignore,
            StreamStatusKind::Leave => DispatchAction::Ignore,
            StreamStatusKind::Other => DispatchAction::LogStreamStatus,
        },
        BusEvent::EndOfStream => DispatchAction::LogEndOfStream,
        BusEvent::Qos => DispatchAction::Ignore,
        BusEvent::Latency => DispatchAction::Ignore,
        BusEvent::Progress => DispatchAction::LogProgress,
        BusEvent::Other => DispatchAction::LogOther,
    }
}

/// An error whose element name is source `i`'s watchdog traces back to
/// the id of source `i`: the reserved prefix comes off the front and
/// the watchdog suffix off the back.
pub proof fn lemma_traced_error_id_of_watchdog(i: nat)
    ensures
        spec_traced_error_id(spec_watchdog_element_name(i)) == Some(spec_source_id(i)),
{
    let name = spec_watchdog_element_name(i);
    let p = spec_rtsp_prefix();
    let sfx = spec_watchdog_suffix();
    let id = spec_source_id(i);
    lemma_decimal_len(i);
    assert(name.subrange(0, p.len() as int) =~= p);
    let rest = name.subrange(p.len() as int, name.len() as int);
    assert(rest =~= id + sfx);
    assert(rest.subrange(rest.len() - sfx.len(), rest.len() as int) =~= sfx);
    assert(rest.subrange(0, rest.len() - sfx.len()) =~= id);
}

/// An error whose element name is source `i`'s RTSP source element
/// itself traces back to the id of source `i`: the reserved prefix
/// comes off, and what remains — an id ending in a decimal digit —
/// never carries the watchdog suffix, so nothing else is stripped.
pub proof fn lemma_traced_error_id_of_source(i: nat)
    ensures
        spec_traced_error_id(spec_rtsp_element_name(i)) == Some(spec_source_id(i)),
{
    let name = spec_rtsp_element_name(i);
    let p = spec_rtsp_prefix();
    let sfx = spec_watchdog_suffix();
    let id = spec_source_id(i);
    lemma_decimal_len(i);
    lemma_decimal_digits(i);
    assert(name.subrange(0, p.len() as int) =~= p);
    let rest = name.subrange(p.len() as int, name.len() as int);
    assert(rest =~= id);
    if is_suffix_of(sfx, rest) {
        assert(rest.last() == spec_decimal(i).last());
        assert(rest.subrange(rest.len() - sfx.len(), rest.len() as int)[sfx.len() - 1]
            == rest.last());
        assert(48 <= spec_decimal(i)[spec_decimal(i).len() - 1] <= 57);
        assert(sfx[sfx.len() - 1] == 103);
    }
}

/// A timeout signal whose element name is source `i`'s RTSP source
/// element traces back to the id of source `i`.
pub proof fn lemma_traced_timeout_id_of_source(i: nat)
    ensures
        spec_traced_timeout_id(spec_rtsp_element_name(i)) == Some(spec_source_id(i)),
{
    let name = spec_rtsp_element_name(i);
    let p = spec_rtsp_prefix();
    let id = spec_source_id(i);
    assert(name.subrange(0, p.len() as int) =~= p);
    assert(name.subrange(p.len() as int, name.len() as int) =~= id);
}

/// In a table whose entry `j` carries the stable id of cell `j`, the
/// search for the id of cell `k` finds exactly entry `k` — ids are
/// unique, so no earlier entry can match.
pub proof fn lemma_find_source_by_id(states: Seq<SourceState>, k: int, from: int)
    requires
        forall|j: int|
            0 <= j < states.len() ==> (#[trigger] states[j]).instantiated.name@ == spec_source_id(
                j as nat,
            ),
        0 <= from <= states.len(),
        from <= k,
    ensures
        spec_find_source(states, spec_source_id(k as nat), from) == if k < states.len() {
            Some(k)
        } else {
            None::<int>
        },
    decreases states.len() - from,
{
    if from < states.len() {
        if states[from].instantiated.name@ == spec_source_id(k as nat) {
            lemma_source_id_injective(from as nat, k as nat);
        } else {
            lemma_find_source_by_id(states, k, from + 1);
        }
    }
}

/// The dispatcher routes a monitored source's failure to exactly that
/// source: an error event originating from source `i`'s RTSP element or
/// from its nested watchdog is classified, against any well-formed
/// wall that has a source `i`, as a restart of source `i` with reason
/// `Error` — never of any other source, and never anything weaker.
pub proof fn lemma_error_event_routes_to_source(w: WallState, event: BusEvent, i: int)
    requires
        w.inv(),
        0 <= i < w.sources@.len(),
        event matches BusEvent::Error { origin: Some(name) } && (name@
            == spec_watchdog_element_name(i as nat) || name@ == spec_rtsp_element_name(i as nat)),
    ensures
        spec_classify(w.sources@, event) == (DispatchAction::Restart {
            index: i as usize,
            reason: RestartReason::Error,
        }),
{
    match event {
        BusEvent::Error { origin: Some(name) } => {
            if name@ == spec_watchdog_element_name(i as nat) {
                lemma_traced_error_id_of_watchdog(i as nat);
            } else {
                lemma_traced_error_id_of_source(i as nat);
            }
            assert forall|j: int| 0 <= j < w.sources@.len() implies (#[trigger] w.sources@[j])
                .instantiated.name@ == spec_source_id(j as nat) by {
                assert(w.sources@[j].instantiated.well_formed(
                    j,
                    w.display_width as int,
                    w.display_height as int,
                    w.layout,
                ));
            }
            lemma_find_source_by_id(w.sources@, i, 0);
        },
        _ => {},
    }
}

/// The dispatcher routes the RTSP timeout signal of source `i` to
/// exactly source `i`, with reason `Timeout`.
pub proof fn lemma_timeout_event_routes_to_source(w: WallState, event: BusEvent, i: int)
    requires
        w.inv(),
        0 <= i < w.sources@.len(),
        event matches BusEvent::ElementMessage { origin: Some(name), structure_name } && name@
            == spec_rtsp_element_name(i as nat) && structure_name@
            == spec_rtsp_timeout_structure(),
    ensures
        spec_classify(w.sources@, event) == (DispatchAction::Restart {
            index: i as usize,
            reason: RestartReason::Timeout,
        }),
{
    match event {
        BusEvent::ElementMessage { origin: Some(_name), structure_name: _s } => {
            lemma_traced_timeout_id_of_source(i as nat);
            assert forall|j: int| 0 <= j < w.sources@.len() implies (#[trigger] w.sources@[j])
                .instantiated.name@ == spec_source_id(j as nat) by {
                assert(w.sources@[j].instantiated.well_formed(
                    j,
                    w.display_width as int,
                    w.display_height as int,
                    w.layout,
                ));
            }
            lemma_find_source_by_id(w.sources@, i, 0);
        },
        _ => {},
    }
}

impl WallState {
    /// The first source whose stable id is `id`.
    pub fn find_source(&self, id: &[u8]) -> (r: Option<usize>)
        ensures
            match r {
                Some(i) => spec_find_source(self.sources@, id@, 0) == Some(i as int),
                None => spec_find_source(self.sources@, id@, 0) is None,
            },
    {
        let mut i: usize = 0;
        let n: usize = self.sources.len();
        while i < n
            invariant
                n == self.sources@.len(),
                i <= n,
                spec_find_source(self.sources@, id@, 0) == spec_find_source(
                    self.sources@,
                    id@,
                    i as int,
                ),
            decreases n - i,
        {
            if bytes_eq(self.sources[i].instantiated.name.as_slice(), id) {
                return Some(i);
            }
            i = i + 1;
        }
        None
    }

    /// Classifies one runtime event against this wall: which source, if
    /// any, is to be restarted and why, or what is logged instead.  The
    /// classification is total — every event gets an action — and pure:
    /// the wall state is not touched.
    pub fn classify(&self, event: &BusEvent) -> (a: DispatchAction)
        ensures
            a == spec_classify(self.sources@, *event),
    {
        match event {
            BusEvent::Error { origin } => match origin {
                Some(name) => match traced_error_id(name.as_slice()) {
                    Some(id) => match self.find_source(id.as_slice()) {
                        Some(i) => DispatchAction::Restart {
                            index: i,
                            reason: RestartReason::Error,
                        },
                        None => DispatchAction::UnknownSource,
                    },
                    None => DispatchAction::LogError,
                },
                None => DispatchAction::LogError,
            },
            BusEvent::StateChanged { origin, old_was_null } => match origin {
                Some(name) => {
                    let prefix: Vec<u8> = rtsp_prefix();
                    let top: Vec<u8> = pipeline_name();
                    let interesting: bool = starts_with(name.as_slice(), prefix.as_slice())
                        || bytes_eq(name.as_slice(), top.as_slice());
                    if interesting && !*old_was_null {
                        DispatchAction::LogStateChange
                    } else {
                        DispatchAction::Ignore
                    }
                },
                None => DispatchAction::Ignore,
            },
            BusEvent::ElementMessage { origin, structure_name } => {
                let timeout_signal: Vec<u8> = rtsp_timeout_structure();
                if bytes_eq(structure_name.as_slice(), timeout_signal.as_slice()) {
                    match origin {
                        Some(name) => match traced_timeout_id(name.as_slice()) {
                            Some(id) => match self.find_source(id.as_slice()) {
                                Some(i) => DispatchAction::Restart {
                                    index: i,
                                    reason: RestartReason::Timeout,
                                },
                                None => DispatchAction::UnknownSource,
                            },
                            None => DispatchAction::UnknownSource,
                        },
                        None => DispatchAction::Ignore,
                    }
                } else {
                    let word: Vec<u8> = timeout_word();
                    if contains_bytes(structure_name.as_slice(), word.as_slice()) {
                        DispatchAction::LogTimeout
                    } else {
                        DispatchAction::Ignore
                    }
                }
            },
            BusEvent::StreamStatus { status } => match status {
                StreamStatusKind::Create => DispatchAction::Ignore,
                StreamStatusKind::Enter => DispatchAction::Ignore,
                StreamStatusKind::Leave => DispatchAction::Ignore,
                StreamStatusKind::Other => DispatchAction::LogStreamStatus,
            },
            BusEvent::EndOfStream => DispatchAction::LogEndOfStream,
            BusEvent::Qos => DispatchAction::Ignore,
            BusEvent::Latency => DispatchAction::Ignore,
            BusEvent::Progress => DispatchAction::LogProgress,
            BusEvent::Other => DispatchAction::LogOther,
        }
    }
}

} // verus!
