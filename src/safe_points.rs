//! The safe operating curve: frequencies (MHz) with the least voltage (mV)
//! known to be stable at each.
use vstd::prelude::*;

verus! {

/// Keys strictly increasing.
pub open spec fn keys_increasing(pts: Seq<(u32, u32)>) -> bool {
    forall|i: int, j: int| 0 <= i < j < pts.len() ==> #[trigger] pts[i].0 < #[trigger] pts[j].0
}

/// No lower voltage at a higher frequency.
pub open spec fn voltages_monotone(pts: Seq<(u32, u32)>) -> bool {
    forall|i: int, j: int| 0 <= i < j < pts.len() ==> #[trigger] pts[i].1 <= #[trigger] pts[j].1
}

/// The voltage of the first point whose frequency is at least `f`, if any.
pub open spec fn voltage_at(pts: Seq<(u32, u32)>, f: u32) -> Option<u32>
    decreases pts.len(),
{
    if pts.len() == 0 {
        None
    } else if pts[0].0 >= f {
        Some(pts[0].1)
    } else {
        voltage_at(pts.drop_first(), f)
    }
}

/// A non-empty curve sorted by frequency whose voltages never decrease.
#[derive(Debug, Clone, PartialEq, Eq)]
pub struct SafePoints {
    pub points: Vec<(u32, u32)>,
}

impl SafePoints {
    pub open spec fn view(&self) -> Seq<(u32, u32)> {
        self.points@
    }

    pub open spec fn wf(&self) -> bool {
        &&& self.points@.len() > 0
        &&& keys_increasing(self.points@)
        &&& voltages_monotone(self.points@)
    }

    pub open spec fn first_key(&self) -> u32 {
        self.points@[0].0
    }

    pub open spec fn last_key(&self) -> u32 {
        self.points@.last().0
    }

    /// The curve used when none is configured: 350 MHz at 700 mV and
    /// 2000 MHz at 1000 mV.
    pub fn conservative() -> (r: SafePoints)
        ensures
            r.wf(),
            r.points@ == seq![(350u32, 700u32), (2000u32, 1000u32)],
    {
        let mut points: Vec<(u32, u32)> = Vec::new();
        points.push((350, 700));
        points.push((2000, 1000));
        SafePoints { points }
    }

    /// Lowest configured frequency.
    pub fn min_frequency(&self) -> (r: u32)
        requires
            self.wf(),
        ensures
            r == self.first_key(),
    {
        self.points[0].0
    }

    /// Highest configured frequency.
    pub fn max_frequency(&self) -> (r: u32)
        requires
            self.wf(),
        ensures
            r == self.last_key(),
    {
        self.points[self.points.len() - 1].0
    }

    /// The voltage of the first point whose frequency is at least `f`; `None`
    /// above the highest point.
    pub fn voltage_for(&self, f: u32) -> (r: Option<u32>)
        requires
            self.wf(),
        ensures
            r == voltage_at(self.points@, f),
            r is None <==> f > self.last_key(),
    {
        let mut i: usize = 0;
        proof {
            assert(self.points@.skip(0) =~= self.points@);
        }
        while i < self.points.len()
            invariant
                self.wf(),
                i <= self.points@.len(),
                forall|k: int| 0 <= k < i ==> #[trigger] self.points@[k].0 < f,
                voltage_at(self.points@, f) == voltage_at(self.points@.skip(i as int), f),
            decreases self.points@.len() - i,
        {
            let (freq, volt) = self.points[i];
            if freq >= f {
                proof {
                    lemma_last_key_bounds(self.points@, i as int);
                }
                return Some(volt);
            }
            proof {
                assert(self.points@.skip(i as int).drop_first() =~= self.points@.skip(i as int + 1));
            }
            i = i + 1;
        }
        proof {
            assert(self.points@.skip(i as int) =~= Seq::<(u32, u32)>::empty());
            assert(self.points@[self.points@.len() - 1].0 < f);
        }
        None
    }
}

proof fn lemma_last_key_bounds(pts: Seq<(u32, u32)>, i: int)
    requires
        keys_increasing(pts),
        0 <= i < pts.len(),
    ensures
        pts[i].0 <= pts.last().0,
{
    if i < pts.len() - 1 {
        assert(pts[i].0 < pts[pts.len() - 1].0);
    }
}

/// Every point at or above `f` needs at least the voltage chosen for `f`, and
/// the chosen voltage is that of such a point: the choice is the least safe one.
pub proof fn lemma_chosen_voltage_is_least(pts: Seq<(u32, u32)>, f: u32)
    requires
        keys_increasing(pts),
        voltages_monotone(pts),
    ensures
        voltage_at(pts, f) matches Some(v) ==> {
            &&& exists|i: int| 0 <= i < pts.len() && pts[i].0 >= f && pts[i].1 == v
            &&& forall|j: int| 0 <= j < pts.len() && pts[j].0 >= f ==> v <= #[trigger] pts[j].1
        },
    decreases pts.len(),
{
    if pts.len() > 0 {
        let rest = pts.drop_first();
        if pts[0].0 >= f {
            assert(pts[0].0 >= f && pts[0].1 == pts[0].1);
            assert forall|j: int| 0 <= j < pts.len() && pts[j].0 >= f implies pts[0].1 <= #[trigger] pts[j].1 by {
                if j > 0 {
                    assert(pts[0].1 <= pts[j].1);
                }
            }
        } else {
            assert forall|i: int, j: int| 0 <= i < j < rest.len() implies #[trigger] rest[i].0 < #[trigger] rest[j].0 by {
                assert(pts[i + 1].0 < pts[j + 1].0);
            }
            assert forall|i: int, j: int| 0 <= i < j < rest.len() implies #[trigger] rest[i].1 <= #[trigger] rest[j].1 by {
                assert(pts[i + 1].1 <= pts[j + 1].1);
            }
            lemma_chosen_voltage_is_least(rest, f);
            if let Some(v) = voltage_at(pts, f) {
                let i = choose|i: int| 0 <= i < rest.len() && rest[i].0 >= f && rest[i].1 == v;
                assert(pts[i + 1].0 >= f && pts[i + 1].1 == v);
                assert forall|j: int| 0 <= j < pts.len() && pts[j].0 >= f implies v <= #[trigger] pts[j].1 by {
                    assert(j > 0);
                    assert(rest[j - 1] == pts[j]);
                }
            }
        }
    }
}

/// Every frequency up to the highest point has a voltage.
pub proof fn lemma_voltage_defined(pts: Seq<(u32, u32)>, f: u32)
    requires
        pts.len() > 0,
        f <= pts.last().0,
    ensures
        voltage_at(pts, f) is Some,
    decreases pts.len(),
{
    if pts[0].0 < f {
        assert(pts.len() > 1);
        assert(pts.drop_first().last() == pts.last());
        lemma_voltage_defined(pts.drop_first(), f);
    }
}

} // verus!
