//! Collection of the sensors' tagged results for one duty cycle.
//!
//! Each sensor reports once per cycle, possibly from its own task and in any
//! order. A result carries its source as its variant, so results are told
//! apart by tag, never by arrival position. The first result from a source
//! is kept; a repeated one is ignored.
use vstd::prelude::*;

verus! {

/// The sensors of the node, in the order their records appear in the payload.
#[derive(Clone, Copy, Debug, PartialEq, Eq, Structural)]
pub enum SensorId {
    System,
    Soil,
    Air,
}

/// One sensor's result for a cycle: its record, or `None` when its probe failed.
#[derive(Clone, Copy, Debug, PartialEq, Eq)]
pub enum Report {
    System(Option<[u8; 18]>),
    Soil(Option<[u8; 4]>),
    Air(Option<[u8; 11]>),
}

/// Record of a probe result as bytes.
pub open spec fn record_view<const N: usize>(r: Option<[u8; N]>) -> Option<Seq<u8>> {
    match r {
        Some(a) => Some(a@),
        None => None,
    }
}

impl Report {
    pub open spec fn source_spec(&self) -> SensorId {
        match self {
            Report::System(_) => SensorId::System,
            Report::Soil(_) => SensorId::Soil,
            Report::Air(_) => SensorId::Air,
        }
    }

    pub open spec fn record_spec(&self) -> Option<Seq<u8>> {
        match self {
            Report::System(r) => record_view(*r),
            Report::Soil(r) => record_view(*r),
            Report::Air(r) => record_view(*r),
        }
    }

    /// The sensor this result comes from.
    pub fn source(&self) -> (r: SensorId)
        ensures
            r == self.source_spec(),
    {
        match self {
            Report::System(_) => SensorId::System,
            Report::Soil(_) => SensorId::Soil,
            Report::Air(_) => SensorId::Air,
        }
    }
}

/// Length of the record of sensor `id`.
pub open spec fn record_len(id: SensorId) -> nat {
    match id {
        SensorId::System => 18,
        SensorId::Soil => 4,
        SensorId::Air => 11,
    }
}

/// What has been collected: for each source that reported, its record or `None`.
pub type Collected = Map<SensorId, Option<Seq<u8>>>;

/// Collection after result `r` arrives.
pub open spec fn accept_spec(m: Collected, r: Report) -> Collected {
    if m.contains_key(r.source_spec()) {
        m
    } else {
        m.insert(r.source_spec(), r.record_spec())
    }
}

/// Record collected from `id`, if it reported one.
pub open spec fn delivered_by(c: Collected, id: SensorId) -> Option<Seq<u8>> {
    if c.contains_key(id) {
        c[id]
    } else {
        None
    }
}

/// Sensor to probe next when the sensors are probed one after another in
/// sensor order, stopping at the first failure: `None` once every sensor has
/// reported or one has failed.
pub open spec fn next_probe_spec(c: Collected) -> Option<SensorId> {
    if !c.contains_key(SensorId::System) {
        Some(SensorId::System)
    } else if c[SensorId::System] is None {
        None
    } else if !c.contains_key(SensorId::Soil) {
        Some(SensorId::Soil)
    } else if c[SensorId::Soil] is None {
        None
    } else if !c.contains_key(SensorId::Air) {
        Some(SensorId::Air)
    } else {
        None
    }
}

/// Collection after results `rs` arrive in order, starting from `m`.
pub open spec fn accept_all(m: Collected, rs: Seq<Report>) -> Collected
    decreases rs.len(),
{
    if rs.len() == 0 {
        m
    } else {
        accept_spec(accept_all(m, rs.drop_last()), rs.last())
    }
}

/// No two results of `rs` come from the same source.
pub open spec fn distinct_sources(rs: Seq<Report>) -> bool {
    forall|i: int, j: int|
        0 <= i < j < rs.len() ==> #[trigger] rs[i].source_spec() != #[trigger] rs[j].source_spec()
}

/// Results of one duty cycle, slot by slot.
pub struct Collector {
    system: Option<Option<[u8; 18]>>,
    soil: Option<Option<[u8; 4]>>,
    air: Option<Option<[u8; 11]>>,
}

pub open spec fn slot_view<const N: usize>(s: Option<Option<[u8; N]>>) -> Option<Option<Seq<u8>>> {
    match s {
        Some(r) => Some(record_view(r)),
        None => None,
    }
}

impl Collector {
    pub closed spec fn slot(&self, id: SensorId) -> Option<Option<Seq<u8>>> {
        match id {
            SensorId::System => slot_view(self.system),
            SensorId::Soil => slot_view(self.soil),
            SensorId::Air => slot_view(self.air),
        }
    }

    /// The results collected so far, by source.
    pub open spec fn view(&self) -> Collected {
        Map::new(|id: SensorId| self.slot(id) is Some, |id: SensorId| self.slot(id)->0)
    }

    /// A collector for a new cycle, holding nothing.
    pub fn new() -> (r: Collector)
        ensures
            r.view() == Collected::empty(),
    {
        let r = Collector { system: None, soil: None, air: None };
        assert(r.view() =~= Collected::empty());
        r
    }

    /// Takes in one result.
    pub fn accept(&mut self, report: Report)
        ensures
            final(self).view() == accept_spec(old(self).view(), report),
    {
        match report {
            Report::System(r) => {
                if self.system.is_none() {
                    self.system = Some(r);
                }
            },
            Report::Soil(r) => {
                if self.soil.is_none() {
                    self.soil = Some(r);
                }
            },
            Report::Air(r) => {
                if self.air.is_none() {
                    self.air = Some(r);
                }
            },
        }
        assert(final(self).view() =~= accept_spec(old(self).view(), report));
    }

    /// Whether every sensor has reported.
    pub fn is_complete(&self) -> (r: bool)
        ensures
            r <==> (self.view().contains_key(SensorId::System) && self.view().contains_key(
                SensorId::Soil,
            ) && self.view().contains_key(SensorId::Air)),
    {
        self.system.is_some() && self.soil.is_some() && self.air.is_some()
    }

    /// Record delivered by sensor `id`, if it reported one.
    pub fn record(&self, id: SensorId) -> (r: Option<&[u8]>)
        ensures
            match r {
                Some(b) => delivered_by(self.view(), id) == Some(b@) && b@.len() == record_len(id),
                None => delivered_by(self.view(), id) is None,
            },
    {
        match id {
            SensorId::System => match &self.system {
                Some(Some(a)) => Some(a.as_slice()),
                _ => None,
            },
            SensorId::Soil => match &self.soil {
                Some(Some(a)) => Some(a.as_slice()),
                _ => None,
            },
            SensorId::Air => match &self.air {
                Some(Some(a)) => Some(a.as_slice()),
                _ => None,
            },
        }
    }

    /// Sensor to probe next when probing in sensor order and stopping at the
    /// first failure.
    pub fn next_probe(&self) -> (r: Option<SensorId>)
        ensures
            r == next_probe_spec(self.view()),
    {
        match (&self.system, &self.soil, &self.air) {
            (None, _, _) => Some(SensorId::System),
            (Some(None), _, _) => None,
            (Some(Some(_)), None, _) => Some(SensorId::Soil),
            (Some(Some(_)), Some(None), _) => None,
            (Some(Some(_)), Some(Some(_)), None) => Some(SensorId::Air),
            _ => None,
        }
    }

    /// The three records, when every sensor reported one.
    pub fn records(&self) -> (r: Option<([u8; 18], [u8; 4], [u8; 11])>)
        ensures
            r is Some <==> (self.view().contains_key(SensorId::System)
                && self.view()[SensorId::System] is Some && self.view().contains_key(SensorId::Soil)
                && self.view()[SensorId::Soil] is Some && self.view().contains_key(SensorId::Air)
                && self.view()[SensorId::Air] is Some),
            match r {
                Some((s, m, a)) => self.view()[SensorId::System] == Some(s@)
                    && self.view()[SensorId::Soil] == Some(m@) && self.view()[SensorId::Air] == Some(
                    a@,
                ),
                None => true,
            },
    {
        match (self.system, self.soil, self.air) {
            (Some(Some(s)), Some(Some(m)), Some(Some(a))) => Some((s, m, a)),
            _ => None,
        }
    }
}

/// Every result of `rs` is credited to its source in `m`.
pub open spec fn credits_each(m: Collected, rs: Seq<Report>) -> bool {
    forall|i: int|
        0 <= i < rs.len() ==> m.contains_key(#[trigger] rs[i].source_spec()) && m[rs[i].source_spec()]
            == rs[i].record_spec()
}

/// Attribution regardless of arrival order: when results from distinct
/// sources arrive in any order, each source is credited with exactly its own
/// result and no source that did not report is credited with anything.
pub proof fn lemma_attribution(rs: Seq<Report>)
    requires
        distinct_sources(rs),
    ensures
        credits_each(accept_all(Collected::empty(), rs), rs),
        forall|id: SensorId|
            #[trigger] accept_all(Collected::empty(), rs).contains_key(id) ==> exists|i: int|
                0 <= i < rs.len() && rs[i].source_spec() == id,
    decreases rs.len(),
{
    if rs.len() > 0 {
        let init = rs.drop_last();
        assert(distinct_sources(init)) by {
            assert forall|i: int, j: int| 0 <= i < j < init.len() implies #[trigger] init[i].source_spec()
                != #[trigger] init[j].source_spec() by {
                assert(init[i] == rs[i]);
                assert(init[j] == rs[j]);
            }
        }
        lemma_attribution(init);
        assert(credits_each(accept_all(Collected::empty(), init), init));
        let m = accept_all(Collected::empty(), init);
        let last = rs.last();
        assert(!m.contains_key(last.source_spec())) by {
            if m.contains_key(last.source_spec()) {
                let i = choose|i: int| 0 <= i < init.len() && init[i].source_spec() == last.source_spec();
                assert(rs[i] == init[i]);
                assert(rs[i].source_spec() != rs[rs.len() - 1].source_spec());
            }
        }
        let full = accept_all(Collected::empty(), rs);
        assert(full == m.insert(last.source_spec(), last.record_spec()));
        assert forall|i: int| 0 <= i < rs.len() implies full.contains_key(
            #[trigger] rs[i].source_spec(),
        ) && full[rs[i].source_spec()] == rs[i].record_spec() by {
            if i < rs.len() - 1 {
                assert(rs[i] == init[i]);
                assert(rs[i].source_spec() != rs[rs.len() - 1].source_spec());
                assert(m.contains_key(init[i].source_spec()));
                assert(m[init[i].source_spec()] == init[i].record_spec());
            }
        }
        assert forall|id: SensorId| #[trigger] accept_all(Collected::empty(), rs).contains_key(id) implies exists|i: int|
            0 <= i < rs.len() && rs[i].source_spec() == id by {
            if id != last.source_spec() {
                let i = choose|i: int| 0 <= i < init.len() && init[i].source_spec() == id;
                assert(rs[i] == init[i]);
            } else {
                assert(rs[rs.len() - 1].source_spec() == id);
            }
        }
    }
}

/// Order independence: two arrival orders of the same results, one per
/// source, leave the same collection.
pub proof fn lemma_order_independent(rs: Seq<Report>, other: Seq<Report>)
    requires
        distinct_sources(rs),
        distinct_sources(other),
        forall|r: Report| rs.contains(r) <==> other.contains(r),
    ensures
        accept_all(Collected::empty(), rs) == accept_all(Collected::empty(), other),
{
    lemma_attribution(rs);
    lemma_attribution(other);
    let a = accept_all(Collected::empty(), rs);
    let b = accept_all(Collected::empty(), other);
    assert forall|id: SensorId| #[trigger] a.contains_key(id) implies b.contains_key(id) && a[id] == b[id] by {
        let i = choose|i: int| 0 <= i < rs.len() && rs[i].source_spec() == id;
        assert(rs.contains(rs[i]));
        let j = choose|j: int| 0 <= j < other.len() && other[j] == rs[i];
    }
    assert forall|id: SensorId| #[trigger] b.contains_key(id) implies a.contains_key(id) by {
        let j = choose|j: int| 0 <= j < other.len() && other[j].source_spec() == id;
        assert(other.contains(other[j]));
        let i = choose|i: int| 0 <= i < rs.len() && rs[i] == other[j];
    }
    assert(a =~= b);
}

} // verus!
