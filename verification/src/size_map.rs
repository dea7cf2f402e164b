//! Measurement to size-label mapping for women's tops.

use vstd::prelude::*;

verus! {

/// A clothing size, from extra small to double extra large.
#[derive(Debug, Clone, Copy, PartialEq, Eq, Structural)]
pub enum SizeLabel {
    XS,
    S,
    M,
    L,
    XL,
    XXL,
}

impl SizeLabel {
    /// The printed name of the label.
    pub open spec fn name(self) -> Seq<char> {
        match self {
            SizeLabel::XS => "XS"@,
            SizeLabel::S => "S"@,
            SizeLabel::M => "M"@,
            SizeLabel::L => "L"@,
            SizeLabel::XL => "XL"@,
            SizeLabel::XXL => "XXL"@,
        }
    }

    /// The rank of the label, from 0 for `XS` to 5 for `XXL`.
    pub open spec fn rank(self) -> nat {
        match self {
            SizeLabel::XS => 0,
            SizeLabel::S => 1,
            SizeLabel::M => 2,
            SizeLabel::L => 3,
            SizeLabel::XL => 4,
            SizeLabel::XXL => 5,
        }
    }

    /// The label with the given rank, for ranks 0 to 5.
    pub open spec fn with_rank(rank: int) -> SizeLabel {
        if rank <= 0 {
            SizeLabel::XS
        } else if rank == 1 {
            SizeLabel::S
        } else if rank == 2 {
            SizeLabel::M
        } else if rank == 3 {
            SizeLabel::L
        } else if rank == 4 {
            SizeLabel::XL
        } else {
            SizeLabel::XXL
        }
    }

    pub fn as_str(self) -> (s: &'static str)
        ensures
            s@ == self.name(),
    {
        match self {
            SizeLabel::XS => "XS",
            SizeLabel::S => "S",
            SizeLabel::M => "M",
            SizeLabel::L => "L",
            SizeLabel::XL => "XL",
            SizeLabel::XXL => "XXL",
        }
    }


    /// The position of the label in the ascending sequence of sizes.
    pub fn order(self) -> (n: usize)
        ensures
            n == self.rank(),
    {
        match self {
            SizeLabel::XS => 0,
            SizeLabel::S => 1,
            SizeLabel::M => 2,
            SizeLabel::L => 3,
            SizeLabel::XL => 4,
            SizeLabel::XXL => 5,
        }
    }

    /// Every label, smallest first.
    pub fn all() -> (labels: &'static [SizeLabel])
        ensures
            labels@ == seq![
                SizeLabel::XS,
                SizeLabel::S,
                SizeLabel::M,
                SizeLabel::L,
                SizeLabel::XL,
                SizeLabel::XXL,
            ],
    {
        &[SizeLabel::XS, SizeLabel::S, SizeLabel::M, SizeLabel::L, SizeLabel::XL, SizeLabel::XXL]
    }
}

/// Body measurements, each in whole millimetres (tenths of a centimetre).
#[derive(Debug, Clone, Copy, PartialEq, Eq, Structural)]
pub struct BodyMeasurements {
    pub height_mm: u32,
    pub chest_mm: u32,
    pub waist_mm: u32,
    pub hip_mm: u32,
    pub shoulder_width_mm: u32,
    pub inseam_mm: u32,
}

/// A closed interval `lo..=hi` of millimetre values.
#[derive(Debug, Clone, Copy, PartialEq, Eq, Structural)]
pub struct InclusiveRange {
    pub lo: u32,
    pub hi: u32,
}

impl InclusiveRange {
    pub open spec fn holds(self, v: u32) -> bool {
        self.lo <= v && v <= self.hi
    }

    pub fn contains(&self, v: u32) -> (b: bool)
        ensures
            b == self.holds(v),
    {
        self.lo <= v && v <= self.hi
    }
}

/// The chart bounds of one size; an absent bound accepts every value.
#[derive(Debug, Clone, Copy, PartialEq, Eq, Structural)]
pub struct Bounds {
    pub chest: Option<InclusiveRange>,
    pub waist: Option<InclusiveRange>,
    pub hip: Option<InclusiveRange>,
}

/// Whether an optional bound accepts the value.
pub open spec fn admits(bound: Option<InclusiveRange>, v: u32) -> bool {
    match bound {
        Some(r) => r.holds(v),
        None => true,
    }
}

/// Whether the chest and waist of `m` lie within the bounds.
pub open spec fn fits(b: Bounds, m: BodyMeasurements) -> bool {
    admits(b.chest, m.chest_mm) && admits(b.waist, m.waist_mm)
}

/// Twice the distance, in millimetres, from `chest` to the middle of the chest range;
/// a row without a chest range lies `u64::MAX` away.
pub open spec fn chest_gap(b: Bounds, chest: u32) -> int {
    match b.chest {
        Some(r) => {
            let d = 2 * chest - (r.lo + r.hi);
            if d >= 0 { d } else { -d }
        },
        None => u64::MAX as int,
    }
}

pub open spec fn span(lo: u32, hi: u32) -> Option<InclusiveRange> {
    Some(InclusiveRange { lo, hi })
}

/// Row `i` of the women's tops chart, in millimetres: chest and waist ranges, no hip range.
pub open spec fn tops_row(i: int) -> (SizeLabel, Bounds) {
    if i <= 0 {
        (SizeLabel::XS, Bounds { chest: span(760, 820), waist: span(580, 630), hip: None })
    } else if i == 1 {
        (SizeLabel::S, Bounds { chest: span(820, 880), waist: span(630, 680), hip: None })
    } else if i == 2 {
        (SizeLabel::M, Bounds { chest: span(880, 940), waist: span(680, 730), hip: None })
    } else if i == 3 {
        (SizeLabel::L, Bounds { chest: span(940, 1000), waist: span(730, 790), hip: None })
    } else if i == 4 {
        (SizeLabel::XL, Bounds { chest: span(1000, 1060), waist: span(790, 850), hip: None })
    } else {
        (SizeLabel::XXL, Bounds { chest: span(1060, 1140), waist: span(850, 920), hip: None })
    }
}

/// The number of rows of the women's tops chart.
pub open spec fn tops_len() -> int {
    6
}

/// Row `i` is the first chart row that `m` fits.
pub open spec fn is_first_fit(m: BodyMeasurements, i: int) -> bool {
    &&& 0 <= i < tops_len()
    &&& fits(tops_row(i).1, m)
    &&& forall|j: int| 0 <= j < i ==> !fits(#[trigger] tops_row(j).1, m)
}

/// Row `i` has the chest midpoint nearest to the chest of `m`, the first such row on a tie.
pub open spec fn is_nearest(m: BodyMeasurements, i: int) -> bool {
    &&& 0 <= i < tops_len()
    &&& forall|j: int|
        0 <= j < tops_len() ==> {
            &&& chest_gap(tops_row(i).1, m.chest_mm) <= chest_gap(#[trigger] tops_row(j).1, m.chest_mm)
            &&& (j < i ==> chest_gap(tops_row(i).1, m.chest_mm) < chest_gap(tops_row(j).1, m.chest_mm))
        }
}

/// The recommended top size: the first size whose chest and waist ranges hold the
/// measurement, or else the size whose chest range has the nearest middle.
pub open spec fn recommended_tops(m: BodyMeasurements) -> SizeLabel {
    if exists|i: int| is_first_fit(m, i) {
        tops_row(choose|i: int| is_first_fit(m, i)).0
    } else {
        tops_row(choose|i: int| is_nearest(m, i)).0
    }
}

fn women_tops() -> (chart: Vec<(SizeLabel, Bounds)>)
    ensures
        chart@.len() == tops_len(),
        forall|i: int| 0 <= i < tops_len() ==> #[trigger] chart@[i] == tops_row(i),
{
    let r = |lo: u32, hi: u32| -> (o: Option<InclusiveRange>)
        ensures
            o == span(lo, hi),
        { Some(InclusiveRange { lo, hi }) };
    let chart = vec![
        (SizeLabel::XS, Bounds { chest: r(760, 820), waist: r(580, 630), hip: None }),
        (SizeLabel::S, Bounds { chest: r(820, 880), waist: r(630, 680), hip: None }),
        (SizeLabel::M, Bounds { chest: r(880, 940), waist: r(680, 730), hip: None }),
        (SizeLabel::L, Bounds { chest: r(940, 1000), waist: r(730, 790), hip: None }),
        (SizeLabel::XL, Bounds { chest: r(1000, 1060), waist: r(790, 850), hip: None }),
        (SizeLabel::XXL, Bounds { chest: r(1060, 1140), waist: r(850, 920), hip: None }),
    ];
    assert forall|i: int| 0 <= i < tops_len() implies #[trigger] chart@[i] == tops_row(i) by {
        if i == 0 {
        } else if i == 1 {
        } else if i == 2 {
        } else if i == 3 {
        } else if i == 4 {
        } else {
        }
    }
    chart
}

fn admits_exec(bound: &Option<InclusiveRange>, v: u32) -> (b: bool)
    ensures
        b == admits(*bound, v),
{
    match bound {
        Some(r) => r.contains(v),
        None => true,
    }
}

fn chest_gap_exec(b: &Bounds, chest: u32) -> (g: u64)
    ensures
        g == chest_gap(*b, chest),
{
    match &b.chest {
        Some(r) => {
            let twice = 2 * (chest as u64);
            let mid2 = r.lo as u64 + r.hi as u64;
            if twice >= mid2 {
                twice - mid2
            } else {
                mid2 - twice
            }
        },
        None => u64::MAX,
    }
}

/// Recommends a women's top size: the first size whose chest and waist ranges hold the
/// measurement; failing that, the size whose chest range has its middle nearest the chest.
pub fn recommend_tops(m: &BodyMeasurements) -> (size: SizeLabel)
    ensures
        size == recommended_tops(*m),
{
    let chart = women_tops();
    let mut i: usize = 0;
    while i < chart.len()
        invariant
            i <= chart@.len(),
            chart@.len() == tops_len(),
            forall|k: int| 0 <= k < tops_len() ==> #[trigger] chart@[k] == tops_row(k),
            forall|j: int| 0 <= j < i ==> !fits(#[trigger] tops_row(j).1, *m),
        decreases chart@.len() - i,
    {
        let chest_ok = admits_exec(&chart[i].1.chest, m.chest_mm);
        let waist_ok = admits_exec(&chart[i].1.waist, m.waist_mm);
        if chest_ok && waist_ok {
            proof {
                assert(is_first_fit(*m, i as int));
                let k = choose|k: int| is_first_fit(*m, k);
                if k < i {
                    assert(!fits(tops_row(k).1, *m));
                } else if k > i {
                    assert(!fits(tops_row(i as int).1, *m));
                }
            }
            return chart[i].0;
        }
        i = i + 1;
    }
    // Nothing fits: fall back to the nearest chest range.
    let mut best: usize = 0;
    let mut best_gap = chest_gap_exec(&chart[0].1, m.chest_mm);
    let mut j: usize = 1;
    while j < chart.len()
        invariant
            1 <= j <= chart@.len(),
            best < j,
            chart@.len() == tops_len(),
            forall|k: int| 0 <= k < tops_len() ==> #[trigger] chart@[k] == tops_row(k),
            best_gap == chest_gap(tops_row(best as int).1, m.chest_mm),
            forall|k: int|
                0 <= k < j ==> {
                    &&& best_gap <= chest_gap(#[trigger] tops_row(k).1, m.chest_mm)
                    &&& (k < best ==> best_gap < chest_gap(tops_row(k).1, m.chest_mm))
                },
        decreases chart@.len() - j,
    {
        let g = chest_gap_exec(&chart[j].1, m.chest_mm);
        if g < best_gap {
            best = j;
            best_gap = g;
        }
        j = j + 1;
    }
    proof {
        assert(forall|k: int| 0 <= k < tops_len() ==> !fits(#[trigger] tops_row(k).1, *m));
        assert(!exists|k: int| is_first_fit(*m, k));
        assert(is_nearest(*m, best as int));
        let k = choose|k: int| is_nearest(*m, k);
        if k < best {
            assert(chest_gap(tops_row(best as int).1, m.chest_mm) < chest_gap(tops_row(k).1, m.chest_mm));
        } else if k > best {
            assert(chest_gap(tops_row(k).1, m.chest_mm) < chest_gap(tops_row(best as int).1, m.chest_mm));
        }
    }
    chart[best].0
}


/// The label of row `i` of the women's tops chart has rank `i`.
pub proof fn lemma_tops_row_rank(i: int)
    requires
        0 <= i < tops_len(),
    ensures
        tops_row(i).0.rank() == i,
        SizeLabel::with_rank(i) == tops_row(i).0,
{
}

proof fn first_fit_up_to(m: BodyMeasurements, i: int) -> (k: int)
    requires
        0 <= i < tops_len(),
        fits(tops_row(i).1, m),
    ensures
        k <= i,
        is_first_fit(m, k),
    decreases i,
{
    if exists|j: int| 0 <= j < i && fits(#[trigger] tops_row(j).1, m) {
        let j = choose|j: int| 0 <= j < i && fits(#[trigger] tops_row(j).1, m);
        first_fit_up_to(m, j)
    } else {
        i
    }
}

proof fn nearest_in_prefix(m: BodyMeasurements, n: int) -> (b: int)
    requires
        1 <= n <= tops_len(),
    ensures
        0 <= b < n,
        forall|k: int|
            0 <= k < n ==> {
                &&& chest_gap(tops_row(b).1, m.chest_mm) <= chest_gap(#[trigger] tops_row(k).1, m.chest_mm)
                &&& (k < b ==> chest_gap(tops_row(b).1, m.chest_mm) < chest_gap(tops_row(k).1, m.chest_mm))
            },
    decreases n,
{
    if n == 1 {
        0
    } else {
        let b = nearest_in_prefix(m, n - 1);
        if chest_gap(tops_row(n - 1).1, m.chest_mm) < chest_gap(tops_row(b).1, m.chest_mm) {
            n - 1
        } else {
            b
        }
    }
}

/// When the measurement fits some size of the chart, the recommendation is the smallest
/// size that it fits: its chest and waist ranges hold the measurement, and no smaller
/// size's ranges do.
pub proof fn lemma_recommend_tops_first_fit(m: BodyMeasurements, i: int)
    requires
        0 <= i < tops_len(),
        fits(tops_row(i).1, m),
    ensures
        recommended_tops(m).rank() <= i,
        fits(tops_row(recommended_tops(m).rank() as int).1, m),
        forall|j: int| 0 <= j < recommended_tops(m).rank() ==> !fits(#[trigger] tops_row(j).1, m),
{
    let f = first_fit_up_to(m, i);
    let k = choose|k: int| is_first_fit(m, k);
    if k < f {
        assert(!fits(tops_row(k).1, m));
    } else if k > f {
        assert(!fits(tops_row(f).1, m));
    }
    lemma_tops_row_rank(k);
}

/// When the measurement fits no size of the chart, the recommendation is the size whose
/// chest range has its middle nearest the chest, the smaller size on a tie.
pub proof fn lemma_recommend_tops_nearest(m: BodyMeasurements)
    requires
        forall|j: int| 0 <= j < tops_len() ==> !fits(#[trigger] tops_row(j).1, m),
    ensures
        forall|j: int|
            0 <= j < tops_len() ==> {
                let r = recommended_tops(m).rank() as int;
                &&& chest_gap(tops_row(r).1, m.chest_mm) <= chest_gap(#[trigger] tops_row(j).1, m.chest_mm)
                &&& (j < r ==> chest_gap(tops_row(r).1, m.chest_mm) < chest_gap(tops_row(j).1, m.chest_mm))
            },
{
    assert(!exists|k: int| is_first_fit(m, k));
    let b = nearest_in_prefix(m, tops_len());
    assert(is_nearest(m, b));
    let k = choose|k: int| is_nearest(m, k);
    lemma_tops_row_rank(k);
}

/// The ranks of the labels are distinct, and so are their printed names.
pub proof fn lemma_labels_distinct(a: SizeLabel, b: SizeLabel)
    requires
        a != b,
    ensures
        a.rank() != b.rank(),
        a.name() != b.name(),
{
    reveal_strlit("XS");
    reveal_strlit("S");
    reveal_strlit("M");
    reveal_strlit("L");
    reveal_strlit("XL");
    reveal_strlit("XXL");
    if a.name().len() == b.name().len() {
        assert(a.name()[0] != b.name()[0] || a.name()[1] != b.name()[1]);
    }
}

/// Every label has the rank of its place in `SizeLabel::all()`.
pub proof fn lemma_all_ranked(i: int)
    requires
        0 <= i < 6,
    ensures
        seq![SizeLabel::XS, SizeLabel::S, SizeLabel::M, SizeLabel::L, SizeLabel::XL, SizeLabel::XXL][i].rank() == i,
        SizeLabel::with_rank(i).rank() == i,
{
}

/// Each label prints as its own name, and the ranks run from 0 for XS to 5 for XXL.
pub proof fn lemma_label_names(label: SizeLabel)
    ensures
        label == SizeLabel::XS ==> label.name() == "XS"@ && label.rank() == 0,
        label == SizeLabel::S ==> label.name() == "S"@ && label.rank() == 1,
        label == SizeLabel::M ==> label.name() == "M"@ && label.rank() == 2,
        label == SizeLabel::L ==> label.name() == "L"@ && label.rank() == 3,
        label == SizeLabel::XL ==> label.name() == "XL"@ && label.rank() == 4,
        label == SizeLabel::XXL ==> label.name() == "XXL"@ && label.rank() == 5,
{
}

/// `lo <= v <= hi`.
pub open spec fn between(v: u32, lo: int, hi: int) -> bool {
    lo <= v && v <= hi
}

/// The distance between two numbers.
pub open spec fn dist(a: int, b: int) -> int {
    if a >= b {
        a - b
    } else {
        b - a
    }
}

/// `d[k]` is a minimum of `d`, and no earlier entry is as small.
pub open spec fn is_first_minimum(d: Seq<int>, k: int) -> bool {
    &&& 0 <= k < d.len()
    &&& forall|j: int| 0 <= j < d.len() ==> d[k] <= #[trigger] d[j] && (j < k ==> d[k] < d[j])
}

/// The first fit against the women's tops chart in millimetres: XS chest 760-820 and waist
/// 580-630, S 820-880 and 630-680, M 880-940 and 680-730, L 940-1000 and 730-790, XL
/// 1000-1060 and 790-850, XXL 1060-1140 and 850-920 (all bounds inclusive). A measurement
/// whose chest and waist both lie in a size's ranges, and in no smaller size's, gets that size.
pub proof fn lemma_recommend_tops_chart_fit(m: BodyMeasurements)
    ensures
        between(m.chest_mm, 760, 820) && between(m.waist_mm, 580, 630) ==> recommended_tops(m)
            == SizeLabel::XS,
        !(between(m.chest_mm, 760, 820) && between(m.waist_mm, 580, 630)) && between(
            m.chest_mm,
            820,
            880,
        ) && between(m.waist_mm, 630, 680) ==> recommended_tops(m) == SizeLabel::S,
        !(between(m.chest_mm, 760, 820) && between(m.waist_mm, 580, 630)) && !(between(
            m.chest_mm,
            820,
            880,
        ) && between(m.waist_mm, 630, 680)) && between(m.chest_mm, 880, 940) && between(
            m.waist_mm,
            680,
            730,
        ) ==> recommended_tops(m) == SizeLabel::M,
        !(between(m.chest_mm, 760, 820) && between(m.waist_mm, 580, 630)) && !(between(
            m.chest_mm,
            820,
            880,
        ) && between(m.waist_mm, 630, 680)) && !(between(m.chest_mm, 880, 940) && between(
            m.waist_mm,
            680,
            730,
        )) && between(m.chest_mm, 940, 1000) && between(m.waist_mm, 730, 790) ==> recommended_tops(
            m,
        ) == SizeLabel::L,
        !(between(m.chest_mm, 760, 820) && between(m.waist_mm, 580, 630)) && !(between(
            m.chest_mm,
            820,
            880,
        ) && between(m.waist_mm, 630, 680)) && !(between(m.chest_mm, 880, 940) && between(
            m.waist_mm,
            680,
            730,
        )) && !(between(m.chest_mm, 940, 1000) && between(m.waist_mm, 730, 790)) && between(
            m.chest_mm,
            1000,
            1060,
        ) && between(m.waist_mm, 790, 850) ==> recommended_tops(m) == SizeLabel::XL,
        !(between(m.chest_mm, 760, 820) && between(m.waist_mm, 580, 630)) && !(between(
            m.chest_mm,
            820,
            880,
        ) && between(m.waist_mm, 630, 680)) && !(between(m.chest_mm, 880, 940) && between(
            m.waist_mm,
            680,
            730,
        )) && !(between(m.chest_mm, 940, 1000) && between(m.waist_mm, 730, 790)) && !(between(
            m.chest_mm,
            1000,
            1060,
        ) && between(m.waist_mm, 790, 850)) && between(m.chest_mm, 1060, 1140) && between(
            m.waist_mm,
            850,
            920,
        ) ==> recommended_tops(m) == SizeLabel::XXL,
{
    assert forall|i: int| 0 <= i < tops_len() && fits(tops_row(i).1, m) implies #[trigger] tops_row(
        i,
    ).0 == recommended_tops(m) || exists|j: int| 0 <= j < i && fits(#[trigger] tops_row(j).1, m) by {
        if !exists|j: int| 0 <= j < i && fits(#[trigger] tops_row(j).1, m) {
            lemma_recommend_tops_first_fit(m, i);
            let r = recommended_tops(m).rank() as int;
            lemma_tops_row_rank(r);
            if r < i {
                assert(fits(tops_row(r).1, m));
            }
            assert(r == i);
            lemma_tops_row_rank(i);
            assert(SizeLabel::with_rank(r) == recommended_tops(m));
        }
    }
    assert(tops_row(0).0 == SizeLabel::XS);
    assert(tops_row(1).0 == SizeLabel::S);
    assert(tops_row(2).0 == SizeLabel::M);
    assert(tops_row(3).0 == SizeLabel::L);
    assert(tops_row(4).0 == SizeLabel::XL);
    assert(tops_row(5).0 == SizeLabel::XXL);
}

/// When the chest and waist fit no size of the chart, the recommendation is the size whose
/// chest range has its middle nearest the chest, the smaller size on a tie. In doubled
/// millimetres the chest middles are 1580 (XS), 1700 (S), 1820 (M), 1940 (L), 2060 (XL)
/// and 2200 (XXL), and the distance counts the same above and below the chest.
pub proof fn lemma_recommend_tops_chart_nearest(m: BodyMeasurements)
    requires
        !(between(m.chest_mm, 760, 820) && between(m.waist_mm, 580, 630)),
        !(between(m.chest_mm, 820, 880) && between(m.waist_mm, 630, 680)),
        !(between(m.chest_mm, 880, 940) && between(m.waist_mm, 680, 730)),
        !(between(m.chest_mm, 940, 1000) && between(m.waist_mm, 730, 790)),
        !(between(m.chest_mm, 1000, 1060) && between(m.waist_mm, 790, 850)),
        !(between(m.chest_mm, 1060, 1140) && between(m.waist_mm, 850, 920)),
    ensures
        ({
            let c = 2 * m.chest_mm;
            let d = seq![
                dist(c, 1580),
                dist(c, 1700),
                dist(c, 1820),
                dist(c, 1940),
                dist(c, 2060),
                dist(c, 2200),
            ];
            &&& recommended_tops(m) == SizeLabel::XS <==> is_first_minimum(d, 0)
            &&& recommended_tops(m) == SizeLabel::S <==> is_first_minimum(d, 1)
            &&& recommended_tops(m) == SizeLabel::M <==> is_first_minimum(d, 2)
            &&& recommended_tops(m) == SizeLabel::L <==> is_first_minimum(d, 3)
            &&& recommended_tops(m) == SizeLabel::XL <==> is_first_minimum(d, 4)
            &&& recommended_tops(m) == SizeLabel::XXL <==> is_first_minimum(d, 5)
        }),
{
    let c = 2 * m.chest_mm;
    let d = seq![
        dist(c, 1580),
        dist(c, 1700),
        dist(c, 1820),
        dist(c, 1940),
        dist(c, 2060),
        dist(c, 2200),
    ];
    assert forall|j: int| 0 <= j < tops_len() implies !fits(#[trigger] tops_row(j).1, m) by {
        if j == 0 {
        } else if j == 1 {
        } else if j == 2 {
        } else if j == 3 {
        } else if j == 4 {
        } else {
        }
    }
    assert forall|j: int| 0 <= j < tops_len() implies chest_gap(#[trigger] tops_row(j).1, m.chest_mm)
        == d[j] by {
        if j == 0 {
        } else if j == 1 {
        } else if j == 2 {
        } else if j == 3 {
        } else if j == 4 {
        } else {
        }
    }
    lemma_recommend_tops_nearest(m);
    let r = recommended_tops(m).rank() as int;
    assert(0 <= r < 6);
    lemma_tops_row_rank(r);
    assert(chest_gap(tops_row(r).1, m.chest_mm) == d[r]);
    assert forall|j: int| 0 <= j < d.len() implies d[r] <= #[trigger] d[j] && (j < r ==> d[r] < d[j]) by {
        assert(chest_gap(tops_row(j).1, m.chest_mm) == d[j]);
    }
    assert(is_first_minimum(d, r));
    assert forall|k: int| 0 <= k < 6 && is_first_minimum(d, k) implies k == r by {
        if k < r {
            assert(d[r] < d[k]);
        } else if k > r {
            assert(d[k] < d[r]);
        }
    }
    assert(SizeLabel::with_rank(r) == recommended_tops(m));
}

} // verus!

