//! Display-device logic: pipeline discovery, the active-property lookup,
//! the semantics of the atomic commit, and the device-acquisition order.
//!
//! The device itself is opened and driven by the shell around the library;
//! it hands connector, encoder and property data in as plain values and
//! performs the commits and opens this module decides on.

use vstd::prelude::*;
use crate::error::Error;
use crate::text::str_eq;

verus! {

/// What the device reports about one connector.
#[derive(Debug, Clone, PartialEq, Eq)]
pub struct ConnectorModel {
    /// A display is attached to this connector.
    pub connected: bool,
    /// The encoder currently driving the connector, if any.
    pub current_encoder: Option<u32>,
    /// Every encoder the connector could be driven by, in device order.
    pub encoders: Vec<u32>,
}

/// What the device reports about one encoder.
#[derive(Debug, Clone, Copy, PartialEq, Eq, Structural)]
pub struct EncoderModel {
    /// The encoder's identifier.
    pub id: u32,
    /// The pipeline the encoder is bound to, if any.
    pub crtc: Option<u32>,
}

/// How a pipeline search ends.
#[derive(Debug, Clone, Copy, PartialEq, Eq, Structural)]
pub enum CrtcSearch {
    /// This pipeline drives the first connected display.
    Found(u32),
    /// An encoder the search had to consult is missing from the table:
    /// a device lookup failed.
    Fail,
    /// Nothing here; keep looking, or report no display at the end.
    NoneHere,
}

/// The first encoder in the table with the given identifier.
pub open spec fn spec_lookup_encoder(encs: Seq<EncoderModel>, id: u32) -> Option<EncoderModel>
    decreases encs.len(),
{
    if encs.len() == 0 {
        None
    } else if encs[0].id == id {
        Some(encs[0])
    } else {
        spec_lookup_encoder(encs.drop_first(), id)
    }
}

/// Scan a connector's possible encoders, in order, for one bound to a
/// pipeline.
pub open spec fn spec_scan_possible(list: Seq<u32>, encs: Seq<EncoderModel>) -> CrtcSearch
    decreases list.len(),
{
    if list.len() == 0 {
        CrtcSearch::NoneHere
    } else {
        match spec_lookup_encoder(encs, list[0]) {
            None => CrtcSearch::Fail,
            Some(enc) => match enc.crtc {
                Some(ct) => CrtcSearch::Found(ct),
                None => spec_scan_possible(list.drop_first(), encs),
            },
        }
    }
}

/// Resolve one connector to a pipeline: only connected connectors count;
/// the current encoder is consulted first, then the possible encoders in
/// order.
pub open spec fn spec_connector_crtc(c: ConnectorModel, encs: Seq<EncoderModel>) -> CrtcSearch {
    if !c.connected {
        CrtcSearch::NoneHere
    } else {
        match c.current_encoder {
            Some(e) => match spec_lookup_encoder(encs, e) {
                None => CrtcSearch::Fail,
                Some(enc) => match enc.crtc {
                    Some(ct) => CrtcSearch::Found(ct),
                    None => spec_scan_possible(c.encoders@, encs),
                },
            },
            None => spec_scan_possible(c.encoders@, encs),
        }
    }
}

/// The pipeline of the first connected connector that resolves to one,
/// walking connectors in device order.
pub open spec fn spec_find_crtc(conns: Seq<ConnectorModel>, encs: Seq<EncoderModel>) -> CrtcSearch
    decreases conns.len(),
{
    if conns.len() == 0 {
        CrtcSearch::NoneHere
    } else {
        match spec_connector_crtc(conns[0], encs) {
            CrtcSearch::Found(ct) => CrtcSearch::Found(ct),
            CrtcSearch::Fail => CrtcSearch::Fail,
            CrtcSearch::NoneHere => spec_find_crtc(conns.drop_first(), encs),
        }
    }
}

/// Find the first encoder in the table with the given identifier.
fn lookup_encoder(encoders: &Vec<EncoderModel>, id: u32) -> (r: Option<EncoderModel>)
    ensures
        r == spec_lookup_encoder(encoders@, id),
{
    let n = encoders.len();
    proof {
        assert(encoders@.subrange(0, n as int) =~= encoders@);
    }
    let mut i: usize = 0;
    while i < n
        invariant
            n == encoders@.len(),
            i <= n,
            spec_lookup_encoder(encoders@, id) == spec_lookup_encoder(
                encoders@.subrange(i as int, n as int),
                id,
            ),
        decreases n - i,
    {
        proof {
            assert(encoders@.subrange(i as int, n as int)[0] == encoders@[i as int]);
            assert(encoders@.subrange(i as int, n as int).drop_first()
                =~= encoders@.subrange(i as int + 1, n as int));
        }
        if encoders[i].id == id {
            return Some(encoders[i]);
        }
        i += 1;
    }
    proof {
        assert(encoders@.subrange(n as int, n as int) =~= Seq::<EncoderModel>::empty());
    }
    None
}

/// Resolve one connector as `spec_connector_crtc` says.
#[verifier::loop_isolation(false)]
fn connector_crtc(c: &ConnectorModel, encoders: &Vec<EncoderModel>) -> (r: CrtcSearch)
    ensures
        r == spec_connector_crtc(*c, encoders@),
{
    if !c.connected {
        return CrtcSearch::NoneHere;
    }
    match c.current_encoder {
        Some(e) => {
            match lookup_encoder(encoders, e) {
                None => {
                    return CrtcSearch::Fail;
                },
                Some(enc) => {
                    match enc.crtc {
                        Some(ct) => {
                            return CrtcSearch::Found(ct);
                        },
                        None => {},
                    }
                },
            }
        },
        None => {},
    }
    let list = &c.encoders;
    let n = list.len();
    proof {
        assert(list@.subrange(0, n as int) =~= list@);
    }
    let mut i: usize = 0;
    while i < n
        invariant
            n == list@.len(),
            i <= n,
            spec_scan_possible(list@, encoders@) == spec_scan_possible(
                list@.subrange(i as int, n as int),
                encoders@,
            ),
        decreases n - i,
    {
        proof {
            assert(list@.subrange(i as int, n as int)[0] == list@[i as int]);
            assert(list@.subrange(i as int, n as int).drop_first()
                =~= list@.subrange(i as int + 1, n as int));
        }
        match lookup_encoder(encoders, list[i]) {
            None => {
                return CrtcSearch::Fail;
            },
            Some(enc) => {
                match enc.crtc {
                    Some(ct) => {
                        return CrtcSearch::Found(ct);
                    },
                    None => {},
                }
            },
        }
        i += 1;
    }
    proof {
        assert(list@.subrange(n as int, n as int) =~= Seq::<u32>::empty());
    }
    CrtcSearch::NoneHere
}

/// Find the pipeline that drives the first connected display: walk the
/// connectors in device order, resolve each through its current encoder
/// first and its possible encoders second, and report no display only
/// when no connected connector yields a pipeline.
pub fn find_active_crtc(
    connectors: &Vec<ConnectorModel>,
    encoders: &Vec<EncoderModel>,
) -> (r: Result<u32, Error>)
    ensures
        spec_find_crtc(connectors@, encoders@) matches CrtcSearch::Found(ct) ==> r
            == Ok::<u32, Error>(ct),
        spec_find_crtc(connectors@, encoders@) is Fail ==> (r matches Err(e)
            && e matches Error::DrmError(_)),
        spec_find_crtc(connectors@, encoders@) is NoneHere ==> r == Err::<u32, Error>(
            Error::NoDisplayFound,
        ),
{
    let n = connectors.len();
    proof {
        assert(connectors@.subrange(0, n as int) =~= connectors@);
    }
    let mut i: usize = 0;
    while i < n
        invariant
            n == connectors@.len(),
            i <= n,
            spec_find_crtc(connectors@, encoders@) == spec_find_crtc(
                connectors@.subrange(i as int, n as int),
                encoders@,
            ),
        decreases n - i,
    {
        proof {
            assert(connectors@.subrange(i as int, n as int)[0] == connectors@[i as int]);
            assert(connectors@.subrange(i as int, n as int).drop_first()
                =~= connectors@.subrange(i as int + 1, n as int));
        }
        match connector_crtc(&connectors[i], encoders) {
            CrtcSearch::Found(ct) => {
                return Ok(ct);
            },
            CrtcSearch::Fail => {
                return Err(Error::DrmError("Failed to get encoder info".to_owned()));
            },
            CrtcSearch::NoneHere => {},
        }
        i += 1;
    }
    proof {
        assert(connectors@.subrange(n as int, n as int) =~= Seq::<ConnectorModel>::empty());
    }
    Err(Error::NoDisplayFound)
}

/// One property of a pipeline, as the device lists it.
#[derive(Debug, Clone, PartialEq, Eq)]
pub struct PropModel {
    /// The property's identifier.
    pub id: u32,
    /// The property's name.
    pub name: String,
}

/// The identifier of the first property with the given name.
pub open spec fn spec_find_prop(props: Seq<PropModel>, name: Seq<char>) -> Option<u32>
    decreases props.len(),
{
    if props.len() == 0 {
        None
    } else if props[0].name@ == name {
        Some(props[0].id)
    } else {
        spec_find_prop(props.drop_first(), name)
    }
}

/// Pick the pipeline's `ACTIVE` property out of its property list; the
/// atomic commit toggles exactly this property.
pub fn select_active_property(props: &Vec<PropModel>) -> (r: Option<u32>)
    ensures
        r == spec_find_prop(props@, "ACTIVE"@),
{
    let n = props.len();
    proof {
        assert(props@.subrange(0, n as int) =~= props@);
    }
    let mut i: usize = 0;
    while i < n
        invariant
            n == props@.len(),
            i <= n,
            spec_find_prop(props@, "ACTIVE"@) == spec_find_prop(
                props@.subrange(i as int, n as int),
                "ACTIVE"@,
            ),
        decreases n - i,
    {
        proof {
            assert(props@.subrange(i as int, n as int)[0] == props@[i as int]);
            assert(props@.subrange(i as int, n as int).drop_first()
                =~= props@.subrange(i as int + 1, n as int));
        }
        if str_eq(props[i].name.as_str(), "ACTIVE") {
            return Some(props[i].id);
        }
        i += 1;
    }
    proof {
        assert(props@.subrange(n as int, n as int) =~= Seq::<PropModel>::empty());
    }
    None
}

/// The pipeline states an atomic commit history leaves behind: later
/// commits overwrite earlier ones, key by key.
pub open spec fn entries_map(s: Seq<(u32, bool)>) -> Map<u32, bool>
    decreases s.len(),
{
    if s.len() == 0 {
        Map::empty()
    } else {
        entries_map(s.drop_last()).insert(s.last().0, s.last().1)
    }
}

/// The active flag of every pipeline a commit history has touched.  This
/// is the meaning of the atomic commit: each commit sets one pipeline's
/// flag to exactly the committed value, atomically, and the observable
/// state is the last commit, not anything cumulative.
#[derive(Debug)]
pub struct CrtcStates {
    entries: Vec<(u32, bool)>,
}

impl View for CrtcStates {
    type V = Map<u32, bool>;

    closed spec fn view(&self) -> Map<u32, bool> {
        entries_map(self.entries@)
    }
}

/// With `s[j]` the last entry for its key, the map holds that entry.
proof fn lemma_entries_map_hit(s: Seq<(u32, bool)>, j: int)
    requires
        0 <= j < s.len(),
        forall|t: int| j < t < s.len() ==> (#[trigger] s[t]).0 != s[j].0,
    ensures
        entries_map(s).contains_key(s[j].0),
        entries_map(s)[s[j].0] == s[j].1,
    decreases s.len(),
{
    if j == s.len() - 1 {
    } else {
        assert(forall|t: int| j < t < s.drop_last().len() ==> (#[trigger] s.drop_last()[t]).0
            != s.drop_last()[j].0);
        lemma_entries_map_hit(s.drop_last(), j);
        assert(s.last().0 != s[j].0);
    }
}

/// A key no entry holds is absent from the map.
proof fn lemma_entries_map_miss(s: Seq<(u32, bool)>, k: u32)
    requires
        forall|t: int| 0 <= t < s.len() ==> (#[trigger] s[t]).0 != k,
    ensures
        !entries_map(s).contains_key(k),
    decreases s.len(),
{
    if s.len() > 0 {
        assert(forall|t: int| 0 <= t < s.drop_last().len() ==> (#[trigger] s.drop_last()[t]).0
            != k);
        lemma_entries_map_miss(s.drop_last(), k);
    }
}

impl CrtcStates {
    /// A history with no commits: no pipeline state is known.
    pub fn new() -> (r: CrtcStates)
        ensures
            r@ == Map::<u32, bool>::empty(),
    {
        CrtcStates { entries: Vec::new() }
    }

    /// Commit the pipeline's active flag: the state after the commit is
    /// the state before with exactly this pipeline set to exactly this
    /// value.
    pub fn set_crtc_active(&mut self, crtc: u32, active: bool)
        ensures
            final(self)@ == old(self)@.insert(crtc, active),
    {
        self.entries.push((crtc, active));
        proof {
            assert(self.entries@.drop_last() =~= old(self).entries@);
            assert(self.entries@.last() == (crtc, active));
        }
    }

    /// The pipeline's current active flag, if any commit has set it.
    pub fn is_active(&self, crtc: u32) -> (r: Option<bool>)
        ensures
            self@.contains_key(crtc) ==> r == Some(self@[crtc]),
            !self@.contains_key(crtc) ==> r is None,
    {
        let n = self.entries.len();
        let mut j: usize = n;
        while j > 0
            invariant
                n == self.entries@.len(),
                j <= n,
                forall|t: int| j <= t < n ==> (#[trigger] self.entries@[t]).0 != crtc,
            decreases j,
        {
            j -= 1;
            if self.entries[j].0 == crtc {
                proof {
                    lemma_entries_map_hit(self.entries@, j as int);
                }
                return Some(self.entries[j].1);
            }
        }
        proof {
            lemma_entries_map_miss(self.entries@, crtc);
        }
        None
    }
}

/// Turning a pipeline on and then off leaves it off, and off then on
/// leaves it on: the observable state is exactly the last commit.
pub proof fn lemma_last_commit_wins(m: Map<u32, bool>, crtc: u32)
    ensures
        m.insert(crtc, true).insert(crtc, false)[crtc] == false,
        m.insert(crtc, false).insert(crtc, true)[crtc] == true,
{
}

/// The candidate device nodes, in the fixed ascending order they are
/// tried in.
pub fn drm_device_paths() -> (r: Vec<String>)
    ensures
        r@.len() == 3,
        r@[0]@ == "/dev/dri/card0"@,
        r@[1]@ == "/dev/dri/card1"@,
        r@[2]@ == "/dev/dri/card2"@,
{
    let mut v: Vec<String> = Vec::new();
    v.push("/dev/dri/card0".to_owned());
    v.push("/dev/dri/card1".to_owned());
    v.push("/dev/dri/card2".to_owned());
    v
}

/// Where device acquisition stands.
#[derive(Debug, Clone, Copy, PartialEq, Eq, Structural)]
pub enum AcquirePhase {
    /// Ask the session broker to open candidate path `i`.
    SessionCandidate(usize),
    /// Open candidate path `i` directly.
    DirectCandidate(usize),
    /// A usable handle is open.
    Acquired,
    /// Every candidate failed on both paths: no device is available.
    Exhausted,
}

/// What probing one candidate produced.
#[derive(Debug, Clone, Copy, PartialEq, Eq, Structural)]
pub enum ProbeOutcome {
    /// The open itself failed.
    OpenFailed,
    /// The handle opened but rejected the atomic capability.
    AtomicRejected,
    /// The handle opened and accepted the atomic capability.
    Ready,
}

/// Where acquisition starts: with the session broker when its session
/// opened, else directly on the first candidate.
pub fn acquire_start(session_open: bool) -> (r: AcquirePhase)
    ensures
        session_open ==> r == AcquirePhase::SessionCandidate(0),
        !session_open ==> r == AcquirePhase::DirectCandidate(0),
{
    if session_open {
        AcquirePhase::SessionCandidate(0)
    } else {
        AcquirePhase::DirectCandidate(0)
    }
}

/// The next acquisition phase.  On the session path an open failure moves
/// to the next candidate, and a handle that rejects the atomic capability
/// abandons the session path for the direct one; on the direct path any
/// failure moves to the next candidate; a candidate list exhausted on the
/// direct path means no device.
pub open spec fn spec_acquire_next(
    phase: AcquirePhase,
    n_paths: usize,
    outcome: ProbeOutcome,
) -> AcquirePhase {
    match phase {
        AcquirePhase::SessionCandidate(i) => match outcome {
            ProbeOutcome::Ready => AcquirePhase::Acquired,
            ProbeOutcome::AtomicRejected => AcquirePhase::DirectCandidate(0),
            ProbeOutcome::OpenFailed => if i + 1 < n_paths {
                AcquirePhase::SessionCandidate((i + 1) as usize)
            } else {
                AcquirePhase::DirectCandidate(0)
            },
        },
        AcquirePhase::DirectCandidate(i) => match outcome {
            ProbeOutcome::Ready => AcquirePhase::Acquired,
            _ => if i + 1 < n_paths {
                AcquirePhase::DirectCandidate((i + 1) as usize)
            } else {
                AcquirePhase::Exhausted
            },
        },
        AcquirePhase::Acquired => AcquirePhase::Acquired,
        AcquirePhase::Exhausted => AcquirePhase::Exhausted,
    }
}

/// Step the acquisition state machine.
pub fn acquire_next(phase: AcquirePhase, n_paths: usize, outcome: ProbeOutcome) -> (r:
    AcquirePhase)
    requires
        phase matches AcquirePhase::SessionCandidate(i) ==> i < n_paths,
        phase matches AcquirePhase::DirectCandidate(i) ==> i < n_paths,
    ensures
        r == spec_acquire_next(phase, n_paths, outcome),
{
    match phase {
        AcquirePhase::SessionCandidate(i) => match outcome {
            ProbeOutcome::Ready => AcquirePhase::Acquired,
            ProbeOutcome::AtomicRejected => AcquirePhase::DirectCandidate(0),
            ProbeOutcome::OpenFailed => {
                if i + 1 < n_paths {
                    AcquirePhase::SessionCandidate(i + 1)
                } else {
                    AcquirePhase::DirectCandidate(0)
                }
            },
        },
        AcquirePhase::DirectCandidate(i) => match outcome {
            ProbeOutcome::Ready => AcquirePhase::Acquired,
            _ => {
                if i + 1 < n_paths {
                    AcquirePhase::DirectCandidate(i + 1)
                } else {
                    AcquirePhase::Exhausted
                }
            },
        },
        AcquirePhase::Acquired => AcquirePhase::Acquired,
        AcquirePhase::Exhausted => AcquirePhase::Exhausted,
    }
}

} // verus!
