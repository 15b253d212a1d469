//! The identity record of one font face.
use vstd::prelude::*;

verus! {

/// Weight of the thinnest preset.
pub const WEIGHT_THIN: u16 = 100;

pub const WEIGHT_EXTRALIGHT: u16 = 200;

pub const WEIGHT_LIGHT: u16 = 300;

/// Weight of an unmarked face.
pub const WEIGHT_REGULAR: u16 = 400;

pub const WEIGHT_MEDIUM: u16 = 500;

pub const WEIGHT_SEMIBOLD: u16 = 600;

pub const WEIGHT_BOLD: u16 = 700;

pub const WEIGHT_EXTRABOLD: u16 = 800;

/// Weight of the heaviest preset.
pub const WEIGHT_BLACK: u16 = 900;

/// Stretch presets, in thousandths of the normal width.
pub const STRETCH_ULTRA_CONDENSED: u16 = 500;

pub const STRETCH_EXTRA_CONDENSED: u16 = 625;

pub const STRETCH_CONDENSED: u16 = 750;

pub const STRETCH_SEMI_CONDENSED: u16 = 875;

pub const STRETCH_NORMAL: u16 = 1000;

pub const STRETCH_SEMI_EXPANDED: u16 = 1125;

pub const STRETCH_EXPANDED: u16 = 1250;

pub const STRETCH_EXTRA_EXPANDED: u16 = 1500;

pub const STRETCH_ULTRA_EXPANDED: u16 = 2000;

/// Both runs of the coverage that holds every codepoint: nothing left out,
/// then this many codepoints in.
pub const FULL_COVERAGE_RUN: u32 = 4294967295;

/// The slant of a face.
#[derive(Clone, Copy, Debug, PartialEq, Eq, Structural)]
pub enum FontStyle {
    Normal,
    Italic,
    Oblique,
}

/// How heavy a face is, from 1 to 1000.
#[derive(Clone, Copy, Debug, PartialEq, Eq, Structural)]
pub struct FontWeight {
    pub value: u16,
}

impl FontWeight {
    /// A weight lies between 1 and 1000.
    pub open spec fn wf(self) -> bool {
        1 <= self.value <= 1000
    }

    /// The weight nearest to `number` that lies between 1 and 1000.
    pub open spec fn nearest(number: u16) -> u16 {
        if number < 1 {
            1
        } else if number > 1000 {
            1000
        } else {
            number
        }
    }

    /// The weight for `number`, brought into range where it lies outside.
    pub fn from_number(number: u16) -> (w: Self)
        ensures
            w.value == Self::nearest(number),
            w.wf(),
    {
        if number < 1 {
            FontWeight { value: 1 }
        } else if number > 1000 {
            FontWeight { value: 1000 }
        } else {
            FontWeight { value: number }
        }
    }

    /// The weight as a number.
    pub fn to_number(self) -> (n: u16)
        ensures
            n == self.value,
    {
        self.value
    }
}

/// How wide a face is, as a ratio to the normal width held in thousandths.
#[derive(Clone, Copy, Debug, PartialEq, Eq, Structural)]
pub struct FontStretch {
    pub permille: u16,
}

/// What tells a face from the others of its family.
#[derive(Clone, Copy, Debug, PartialEq, Eq, Structural)]
pub struct FontVariant {
    pub style: FontStyle,
    pub weight: FontWeight,
    pub stretch: FontStretch,
}

/// The traits of a face: a subset of monospace and serif.
#[derive(Clone, Copy, Debug, PartialEq, Eq, Structural)]
pub struct FontFlags {
    pub monospace: bool,
    pub serif: bool,
}

impl FontFlags {
    /// The flags that are set in `self` or in `other`.
    pub open spec fn union_of(self, other: FontFlags) -> FontFlags {
        FontFlags {
            monospace: self.monospace || other.monospace,
            serif: self.serif || other.serif,
        }
    }

    /// The flags that are set in `self` or in `other`.
    pub fn union(self, other: FontFlags) -> (f: Self)
        ensures
            f == self.union_of(other),
    {
        FontFlags {
            monospace: self.monospace || other.monospace,
            serif: self.serif || other.serif,
        }
    }
}

/// The codepoints a face covers, as alternating run lengths: so many
/// codepoints left out, so many in, so many left out, and so on from
/// codepoint zero.
#[derive(Debug, PartialEq, Eq)]
pub struct Coverage {
    pub runs: Vec<u32>,
}

impl View for Coverage {
    type V = Seq<u32>;

    open spec fn view(&self) -> Seq<u32> {
        self.runs@
    }
}

/// The codepoint at which run `k` of `runs` begins.
pub open spec fn run_start(runs: Seq<u32>, k: int) -> int
    decreases k,
{
    if k <= 0 {
        0
    } else {
        run_start(runs, k - 1) + runs[k - 1]
    }
}

/// Whether codepoint `c` falls into run `k` of `runs`.
pub open spec fn in_run(runs: Seq<u32>, k: int, c: int) -> bool {
    0 <= k < runs.len() && run_start(runs, k) <= c < run_start(runs, k + 1)
}

/// Whether `runs` puts codepoint `c` in: `c` falls into a run of odd index.
pub open spec fn runs_cover(runs: Seq<u32>, c: int) -> bool {
    exists|k: int| #[trigger] in_run(runs, k, c) && k % 2 == 1
}

/// The run lengths that put every codepoint in.
pub open spec fn full_runs() -> Seq<u32> {
    seq![0u32, FULL_COVERAGE_RUN]
}

impl Coverage {
    /// Whether codepoint `c` is covered.
    pub open spec fn covers(&self, c: int) -> bool {
        runs_cover(self@, c)
    }

    /// The coverage assumed of a face whose character map cannot be read:
    /// the whole codepoint space.
    pub fn full() -> (c: Self)
        ensures
            c@ == full_runs(),
            forall|p: int| 0 <= p < FULL_COVERAGE_RUN ==> c.covers(p),
    {
        let mut runs: Vec<u32> = Vec::new();
        runs.push(0);
        runs.push(FULL_COVERAGE_RUN);
        let c = Coverage { runs };
        proof {
            assert(c@ =~= full_runs());
            lemma_full_runs_cover_all();
        }
        c
    }
}

/// The full run lengths leave no codepoint below their end out.
pub proof fn lemma_full_runs_cover_all()
    ensures
        forall|p: int| 0 <= p < FULL_COVERAGE_RUN ==> runs_cover(full_runs(), p),
{
    let runs = full_runs();
    assert(run_start(runs, 1) == 0) by {
        reveal_with_fuel(run_start, 3);
    }
    assert(run_start(runs, 2) == FULL_COVERAGE_RUN) by {
        reveal_with_fuel(run_start, 3);
    }
    assert forall|p: int| 0 <= p < FULL_COVERAGE_RUN implies runs_cover(runs, p) by {
        assert(in_run(runs, 1, p));
    }
}

/// The runs follow one another: none begins before the one before it.
pub proof fn lemma_runs_in_order(runs: Seq<u32>, j: int, k: int)
    requires
        0 <= j <= k,
    ensures
        0 <= run_start(runs, j) <= run_start(runs, k),
    decreases k,
{
    if j < k {
        lemma_runs_in_order(runs, j, k - 1);
    } else if k > 0 {
        lemma_runs_in_order(runs, 0, k - 1);
        lemma_runs_in_order(runs, k - 1, k - 1);
    }
}

/// The covered stretches of codepoints are sorted and do not overlap: of
/// two runs the later begins where the earlier has ended, or after, so that
/// no codepoint falls into both.
pub proof fn lemma_runs_disjoint(runs: Seq<u32>, j: int, k: int, c: int)
    requires
        0 <= j < k,
        in_run(runs, j, c),
    ensures
        run_start(runs, j + 1) <= run_start(runs, k),
        !in_run(runs, k, c),
{
    lemma_runs_in_order(runs, j + 1, k);
}

impl Clone for Coverage {
    fn clone(&self) -> (c: Self)
        ensures
            c@ == self@,
    {
        let c = Coverage { runs: self.runs.clone() };
        assert(c@ =~= self@);
        c
    }
}

/// The identity of one font face.
#[derive(Debug, PartialEq, Eq)]
pub struct FontInfo {
    /// The typographic family the face belongs to.
    pub family: String,
    pub variant: FontVariant,
    pub flags: FontFlags,
    pub coverage: Coverage,
}

/// What a `FontInfo` holds, as mathematical values.
pub struct FontInfoView {
    pub family: Seq<char>,
    pub variant: FontVariant,
    pub flags: FontFlags,
    pub coverage: Seq<u32>,
}

impl View for FontInfo {
    type V = FontInfoView;

    open spec fn view(&self) -> FontInfoView {
        FontInfoView {
            family: self.family@,
            variant: self.variant,
            flags: self.flags,
            coverage: self.coverage@,
        }
    }
}

impl FontInfo {
    /// Whether the two records say the same.
    pub fn same_as(&self, other: &FontInfo) -> (same: bool)
        ensures
            same == (self@ == other@),
    {
        if !(self.family == other.family) {
            return false;
        }
        if self.variant != other.variant || self.flags != other.flags {
            return false;
        }
        if self.coverage.runs.len() != other.coverage.runs.len() {
            return false;
        }
        let mut i: usize = 0;
        while i < self.coverage.runs.len()
            invariant
                i <= self.coverage.runs.len(),
                self.coverage.runs.len() == other.coverage.runs.len(),
                forall|j: int| 0 <= j < i ==> self.coverage@[j] == other.coverage@[j],
            decreases self.coverage.runs.len() - i,
        {
            if self.coverage.runs[i] != other.coverage.runs[i] {
                return false;
            }
            i += 1;
        }
        assert(self.coverage@ =~= other.coverage@);
        true
    }
}

impl Clone for FontInfo {
    fn clone(&self) -> (r: Self)
        ensures
            r@ == self@,
    {
        FontInfo {
            family: self.family.clone(),
            variant: self.variant,
            flags: self.flags,
            coverage: self.coverage.clone(),
        }
    }
}

/// The views of a list of identity records, in order.
pub open spec fn views_of(infos: Seq<FontInfo>) -> Seq<FontInfoView> {
    Seq::new(infos.len(), |i: int| infos[i]@)
}

/// A copy of `infos`, record by record.
pub fn clone_infos(infos: &Vec<FontInfo>) -> (r: Vec<FontInfo>)
    ensures
        views_of(r@) == views_of(infos@),
{
    let mut r: Vec<FontInfo> = Vec::new();
    let mut i: usize = 0;
    while i < infos.len()
        invariant
            i <= infos.len(),
            r@.len() == i,
            forall|j: int| 0 <= j < i ==> r@[j]@ == infos@[j]@,
        decreases infos.len() - i,
    {
        r.push(infos[i].clone());
        i += 1;
    }
    assert(views_of(r@) =~= views_of(infos@));
    r
}

} // verus!
