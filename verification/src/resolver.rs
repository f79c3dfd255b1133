//! The resolution protocol: one native lookup, guarded decoding, and a
//! buffer release on every path.

use vstd::prelude::*;

use crate::guid::Guid;
use crate::known_folder::KnownFolder;
use crate::path::ResolvedPath;

verus! {

/// The status a lookup reports on success.
pub const S_OK: i32 = 0;

/// Documented expected-failure status: the lookup failed generically.
pub const E_FAIL: i32 = -2147467259;

/// Documented expected-failure status: an argument was invalid, among
/// others an identifier not present on this system.
pub const E_INVALIDARG: i32 = -2147024809;

/// The two lookup statuses documented as expected failures. Every other
/// non-success status folds into absence just the same.
pub open spec fn is_expected_failure(status: i32) -> bool {
    status == E_FAIL || status == E_INVALIDARG
}

/// How many code units a lookup buffer with the given reported length
/// may be read for, or `None` when the report must not be trusted.
///
/// The length comes from an external system and is treated as logically
/// unbounded: a negative report is rejected, and so is one whose byte
/// span (two bytes per code unit) would overflow the platform's maximum
/// single-allocation size. On `None` the buffer is not read at all.
pub fn units_to_read(reported_len: isize) -> (count: Option<usize>)
    ensures
        count is Some <==> 0 <= reported_len && 2 * reported_len <= isize::MAX,
        count matches Some(c) ==> c == reported_len as usize,
{
    if reported_len < 0 {
        return None;
    }
    match reported_len.checked_mul(2) {
        Some(_) => Some(reported_len as usize),
        None => None,
    }
}

/// One scripted native-lookup response, together with instrumentation
/// counting the calls a resolution makes.
///
/// The protocol's one outside collaborator is the platform: it answers
/// a lookup with a status and, on success, a buffer it allocated, whose
/// length is then measured and whose contents are read, and which must
/// be handed back exactly once whatever happened. This type stands in
/// for that collaborator: the response is scripted ahead of time — any
/// status, any reported length, any contents, available or not — and
/// the resolver is verified against every script. The counters make the
/// call discipline observable: `releases()` says how often the buffer
/// was handed back, `lookups()` how often the native lookup ran.
pub struct SimulatedPlatform {
    available: bool,
    status: i32,
    reported_len: isize,
    units: Vec<u16>,
    lookups: u64,
    releases: u64,
}

/// Whether two platforms script the same response: an unchanged system,
/// whatever calls were counted on each.
pub open spec fn same_response(a: SimulatedPlatform, b: SimulatedPlatform) -> bool {
    &&& a.available() == b.available()
    &&& a.status() == b.status()
    &&& a.reported_len() == b.reported_len()
    &&& a.units() == b.units()
}

impl SimulatedPlatform {
    /// How often the native lookup has run, as a test observes it.
    pub fn lookup_count(&self) -> (n: u64)
        ensures
            n == self.lookups(),
    {
        self.lookups
    }

    /// How often the buffer was handed back, as a test observes it.
    pub fn release_count(&self) -> (n: u64)
        ensures
            n == self.releases(),
    {
        self.releases
    }

    /// Whether the scripted platform has the lookup capability at all.
    pub closed spec fn available(&self) -> bool {
        self.available
    }

    /// The status the scripted lookup answers with.
    pub closed spec fn status(&self) -> i32 {
        self.status
    }

    /// The length the scripted measurement reports.
    pub closed spec fn reported_len(&self) -> isize {
        self.reported_len
    }

    /// The code units the scripted buffer holds.
    pub closed spec fn units(&self) -> Seq<u16> {
        self.units@
    }

    /// How often the native lookup has run.
    pub closed spec fn lookups(&self) -> u64 {
        self.lookups
    }

    /// How often the buffer has been handed back to the platform.
    pub closed spec fn releases(&self) -> u64 {
        self.releases
    }

    /// Whether the scripted response honors the platform's measurement
    /// contract as far as a resolution relies on it: when the lookup
    /// succeeds and the reported length passes the guards, the buffer
    /// really extends that far. Reports the guards reject — negative or
    /// oversized lengths — may be scripted freely: no read depends on
    /// them.
    pub open spec fn read_within_contents(&self) -> bool {
        (self.status() == S_OK && 0 <= self.reported_len() && 2 * self.reported_len()
            <= isize::MAX) ==> self.reported_len() as int <= self.units().len()
    }

    /// Script a platform: whether the capability exists, the status the
    /// lookup will answer, the length the measurement will report, and
    /// the buffer contents. No calls are counted yet.
    pub fn new(available: bool, status: i32, reported_len: isize, units: Vec<u16>) -> (p:
        SimulatedPlatform)
        ensures
            p.available() == available,
            p.status() == status,
            p.reported_len() == reported_len,
            p.units() == units@,
            p.lookups() == 0,
            p.releases() == 0,
    {
        SimulatedPlatform { available, status, reported_len, units, lookups: 0, releases: 0 }
    }

    /// Whether the capability exists here. A resolution asks this first
    /// and makes no native call where it does not.
    pub fn is_available(&self) -> (r: bool)
        ensures
            r == self.available(),
    {
        self.available
    }

    /// The native lookup: stands for the one call that asks the system
    /// for the directory `id` names and fills the caller's buffer slot.
    pub fn lookup(&mut self, id: &Guid) -> (status: i32)
        requires
            old(self).lookups() < u64::MAX,
        ensures
            status == old(self).status(),
            same_response(*old(self), *final(self)),
            final(self).lookups() == old(self).lookups() + 1,
            final(self).releases() == old(self).releases(),
    {
        self.lookups = self.lookups + 1;
        self.status
    }

    /// Measure the buffer: stands for the platform's length function on
    /// the wide string the lookup produced.
    pub fn measure(&self) -> (len: isize)
        ensures
            len == self.reported_len(),
    {
        self.reported_len
    }

    /// Read exactly `count` code units out of the buffer. A read past
    /// the buffer's real extent is never safe, so none is offered.
    pub fn read(&self, count: usize) -> (units: Vec<u16>)
        requires
            count <= self.units().len(),
        ensures
            units@ == self.units().take(count as int),
    {
        let mut units: Vec<u16> = Vec::new();
        let mut i: usize = 0;
        while i < count
            invariant
                i <= count,
                count <= self.units().len(),
                units@ == self.units().take(i as int),
            decreases count - i,
        {
            units.push(self.units[i]);
            proof {
                assert(self.units().take(i as int).push(self.units()[i as int]) =~= self.units()
                    .take(i as int + 1));
            }
            i = i + 1;
        }
        units
    }

    /// Hand the buffer back to the platform's allocator. Releasing is
    /// a no-op on a platform allocation that was never made, so every
    /// resolution calls this exactly once after its lookup, whatever
    /// the lookup answered.
    pub fn release(&mut self)
        requires
            old(self).releases() < u64::MAX,
        ensures
            same_response(*old(self), *final(self)),
            final(self).releases() == old(self).releases() + 1,
            final(self).lookups() == old(self).lookups(),
    {
        self.releases = self.releases + 1;
    }
}

/// The outcome of one resolution.
#[derive(Debug, Clone, PartialEq, Eq)]
pub enum Resolution {
    /// The lookup succeeded and its buffer decoded to this path.
    Resolved(ResolvedPath),
    /// The capability exists, but the lookup produced no usable path:
    /// an expected failure, an unexpected status, or a rejected length.
    Absent,
    /// The capability does not exist in this execution environment at
    /// all, distinctly from a directory that merely was not found.
    Unsupported,
}

/// A resolution outcome seen abstractly: the resolved path as its code
/// units.
pub enum ResolutionView {
    /// The lookup succeeded and decoded to these code units.
    Resolved(Seq<u16>),
    /// The lookup produced no usable path.
    Absent,
    /// The capability does not exist here.
    Unsupported,
}

impl View for Resolution {
    type V = ResolutionView;

    open spec fn view(&self) -> ResolutionView {
        match self {
            Resolution::Resolved(p) => ResolutionView::Resolved(p@),
            Resolution::Absent => ResolutionView::Absent,
            Resolution::Unsupported => ResolutionView::Unsupported,
        }
    }
}

/// What one resolution returns on the platform `p`: the full failure
/// taxonomy, folded as the resolver folds it.
pub open spec fn spec_resolve(p: SimulatedPlatform) -> ResolutionView {
    if !p.available() {
        ResolutionView::Unsupported
    } else if p.status() != S_OK {
        ResolutionView::Absent
    } else if p.reported_len() < 0 {
        ResolutionView::Absent
    } else if 2 * p.reported_len() > isize::MAX {
        ResolutionView::Absent
    } else {
        ResolutionView::Resolved(p.units().take(p.reported_len() as int))
    }
}

/// Resolve the well-known directory `folder` names, against the
/// platform `platform`.
///
/// One lookup, one release, and every recoverable failure folded into
/// absence:
/// - where the capability does not exist, `Unsupported`, with no native
///   call at all;
/// - on any lookup status but success — the two documented expected
///   failures and every unexpected status alike — `Absent`;
/// - on success with a negative reported length, or one whose byte span
///   would overflow the platform's maximum single allocation, `Absent`,
///   without reading the buffer;
/// - otherwise, exactly the reported number of code units, decoded as a
///   path — the terminator is excluded by the measurement, and length
///   zero decodes to the empty path, not to absence.
///
/// After any lookup the platform-owned buffer is handed back exactly
/// once, on every one of those paths. The response itself is left as it
/// was, so resolving again on an unchanged system returns an equal
/// outcome.
pub fn resolve(platform: &mut SimulatedPlatform, folder: KnownFolder) -> (r: Resolution)
    requires
        old(platform).read_within_contents(),
        old(platform).lookups() < u64::MAX,
        old(platform).releases() < u64::MAX,
    ensures
        r@ == spec_resolve(*old(platform)),
        same_response(*old(platform), *final(platform)),
        spec_resolve(*final(platform)) == spec_resolve(*old(platform)),
        old(platform).available() ==> final(platform).lookups() == old(platform).lookups() + 1
            && final(platform).releases() == old(platform).releases() + 1,
        !old(platform).available() ==> *final(platform) == *old(platform),
{
    if !platform.is_available() {
        return Resolution::Unsupported;
    }
    let id = folder.to_guid();
    let status = platform.lookup(&id);
    let outcome = if status == S_OK {
        let reported = platform.measure();
        match units_to_read(reported) {
            Some(count) => {
                let units = platform.read(count);
                Resolution::Resolved(ResolvedPath::from_units(units))
            },
            None => Resolution::Absent,
        }
    } else if status == E_FAIL || status == E_INVALIDARG {
        // The two documented expected failures.
        Resolution::Absent
    } else {
        // Unexpected status: degrade to absence rather than raise.
        Resolution::Absent
    };
    platform.release();
    outcome
}

/// Retrieve the full path of the known folder `folder` names, from a
/// platform that has the capability: present or absent, never partial
/// success, with the buffer handed back exactly once either way.
pub fn get_known_folder_path(platform: &mut SimulatedPlatform, folder: KnownFolder) -> (r: Option<
    ResolvedPath,
>)
    requires
        old(platform).available(),
        old(platform).read_within_contents(),
        old(platform).lookups() < u64::MAX,
        old(platform).releases() < u64::MAX,
    ensures
        spec_resolve(*old(platform)) matches ResolutionView::Resolved(s) ==> (r matches Some(p)
            && p@ == s),
        spec_resolve(*old(platform)) is Absent ==> r is None,
        same_response(*old(platform), *final(platform)),
        final(platform).lookups() == old(platform).lookups() + 1,
        final(platform).releases() == old(platform).releases() + 1,
{
    match resolve(platform, folder) {
        Resolution::Resolved(path) => Some(path),
        Resolution::Absent => None,
        Resolution::Unsupported => None,
    }
}

/// Resolution is deterministic: two attempts against an unchanged
/// system — the same response scripted, whatever calls were counted —
/// return equal outcomes.
pub proof fn lemma_resolve_deterministic(a: SimulatedPlatform, b: SimulatedPlatform)
    requires
        same_response(a, b),
    ensures
        spec_resolve(a) == spec_resolve(b),
{
}

/// The two statuses documented as expected failures fold to absence.
pub proof fn lemma_expected_failures_fold_to_absence(p: SimulatedPlatform)
    requires
        p.available(),
        is_expected_failure(p.status()),
    ensures
        spec_resolve(p) is Absent,
{
}

/// A status outside the documented set folds to absence identically —
/// forward compatibility over precision, never an error of its own.
pub proof fn lemma_unexpected_statuses_fold_to_absence(p: SimulatedPlatform)
    requires
        p.available(),
        p.status() != S_OK,
        !is_expected_failure(p.status()),
    ensures
        spec_resolve(p) is Absent,
{
}

/// A negative reported length yields absence, never a read.
pub proof fn lemma_negative_length_yields_absence(p: SimulatedPlatform)
    requires
        p.available(),
        p.status() == S_OK,
        p.reported_len() < 0,
    ensures
        spec_resolve(p) is Absent,
{
}

/// A reported length whose byte span — two bytes per code unit — would
/// overflow the platform's maximum single-allocation size yields
/// absence, never a read.
pub proof fn lemma_oversized_length_yields_absence(p: SimulatedPlatform)
    requires
        p.available(),
        p.status() == S_OK,
        2 * p.reported_len() > isize::MAX,
    ensures
        spec_resolve(p) is Absent,
{
}

} // verus!
