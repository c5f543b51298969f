use vstd::prelude::*;
use vstd::arithmetic::div_mod::{
    lemma_add_mod_noop_right, lemma_mod_add_multiples_vanish, lemma_mod_sub_multiples_vanish,
    lemma_mod_self_0, lemma_small_mod,
};

verus! {

/// An item of a fixed, non-empty, ordered menu. The menu is circular: the item
/// after the last one is the first, and the item before the first is the last.
pub trait CyclicItem: Sized + Copy {
    /// The items of the menu, in display order.
    spec fn items() -> Seq<Self>;

    /// The position of this item in `items()`.
    spec fn index(self) -> int;

    /// The menu is non-empty, and `index` and indexing into `items()` are inverse.
    proof fn lemma_items_well_formed()
        ensures
            Self::items().len() > 0,
            forall|x: Self|
                0 <= #[trigger] x.index() < Self::items().len() && Self::items()[x.index()] == x,
            forall|i: int|
                0 <= i < Self::items().len() ==> (#[trigger] Self::items()[i]).index() == i,
    ;

    /// The item after this one, wrapping from the last item to the first.
    fn successor(&self) -> (r: Self)
        ensures
            r == (if self.index() + 1 < Self::items().len() {
                Self::items()[self.index() + 1]
            } else {
                Self::items()[0]
            }),
    ;

    /// The item before this one, wrapping from the first item to the last.
    fn predecessor(&self) -> (r: Self)
        ensures
            r == (if self.index() > 0 {
                Self::items()[self.index() - 1]
            } else {
                Self::items()[Self::items().len() - 1]
            }),
    ;
}

/// The number of items in the menu of `T`.
pub open spec fn menu_len<T: CyclicItem>() -> int {
    T::items().len() as int
}

/// The item after `x`: the next one, or the first after the last.
pub open spec fn successor_of<T: CyclicItem>(x: T) -> T {
    if x.index() + 1 < menu_len::<T>() {
        T::items()[x.index() + 1]
    } else {
        T::items()[0]
    }
}

/// The item before `x`: the previous one, or the last before the first.
pub open spec fn predecessor_of<T: CyclicItem>(x: T) -> T {
    if x.index() > 0 {
        T::items()[x.index() - 1]
    } else {
        T::items()[menu_len::<T>() - 1]
    }
}

/// The item reached from `x` by `k` steps forward.
pub open spec fn advanced_by<T: CyclicItem>(x: T, k: nat) -> T
    decreases k,
{
    if k == 0 {
        x
    } else {
        successor_of(advanced_by(x, (k - 1) as nat))
    }
}

/// The item reached from `x` by `k` steps backward.
pub open spec fn retreated_by<T: CyclicItem>(x: T, k: nat) -> T
    decreases k,
{
    if k == 0 {
        x
    } else {
        predecessor_of(retreated_by(x, (k - 1) as nat))
    }
}

/// A step forward moves the index to `(i + 1) mod n`, a step backward to `(i - 1 + n) mod n`.
pub proof fn lemma_step_index<T: CyclicItem>(x: T)
    ensures
        successor_of(x).index() == (x.index() + 1) % menu_len::<T>(),
        predecessor_of(x).index() == (x.index() - 1 + menu_len::<T>()) % menu_len::<T>(),
{
    T::lemma_items_well_formed();
    let n = menu_len::<T>();
    let i = x.index();
    if i + 1 < n {
        lemma_small_mod((i + 1) as nat, n as nat);
    } else {
        lemma_mod_self_0(n);
    }
    if i > 0 {
        lemma_mod_add_multiples_vanish(i - 1, n);
        lemma_small_mod((i - 1) as nat, n as nat);
    } else {
        lemma_small_mod((n - 1) as nat, n as nat);
    }
}

/// After `k` steps forward the index is `(i + k) mod n`.
pub proof fn lemma_advanced_by_index<T: CyclicItem>(x: T, k: nat)
    ensures
        advanced_by(x, k).index() == (x.index() + k) % menu_len::<T>(),
    decreases k,
{
    T::lemma_items_well_formed();
    let n = menu_len::<T>();
    if k == 0 {
        lemma_small_mod(x.index() as nat, n as nat);
    } else {
        lemma_advanced_by_index(x, (k - 1) as nat);
        lemma_step_index(advanced_by(x, (k - 1) as nat));
        lemma_add_mod_noop_right(1, x.index() + k - 1, n);
    }
}

/// After `k` steps backward the index is `(i - k) mod n`.
pub proof fn lemma_retreated_by_index<T: CyclicItem>(x: T, k: nat)
    ensures
        retreated_by(x, k).index() == (x.index() - k) % menu_len::<T>(),
    decreases k,
{
    T::lemma_items_well_formed();
    let n = menu_len::<T>();
    if k == 0 {
        lemma_small_mod(x.index() as nat, n as nat);
    } else {
        lemma_retreated_by_index(x, (k - 1) as nat);
        lemma_step_index(retreated_by(x, (k - 1) as nat));
        lemma_add_mod_noop_right(n - 1, x.index() - k + 1, n);
        lemma_mod_add_multiples_vanish(x.index() - k, n);
    }
}

/// As many steps forward, or backward, as the menu has items lead back to the start.
pub proof fn lemma_full_cycle<T: CyclicItem>(x: T)
    ensures
        advanced_by(x, menu_len::<T>() as nat) == x,
        retreated_by(x, menu_len::<T>() as nat) == x,
{
    T::lemma_items_well_formed();
    let n = menu_len::<T>();
    lemma_advanced_by_index(x, n as nat);
    lemma_retreated_by_index(x, n as nat);
    lemma_mod_add_multiples_vanish(x.index(), n);
    lemma_mod_sub_multiples_vanish(x.index(), n);
    lemma_small_mod(x.index() as nat, n as nat);
    let a = advanced_by(x, n as nat);
    let b = retreated_by(x, n as nat);
    assert(T::items()[a.index()] == a);
    assert(T::items()[b.index()] == b);
}

/// An entry of the main menu.
#[derive(Debug, Clone, Copy, PartialEq, Eq, Structural)]
pub enum MainMenuItem {
    Analyze,
    Experiment,
    Showcase,
}

impl MainMenuItem {
    /// The text shown for this entry.
    pub open spec fn label(self) -> Seq<char> {
        match self {
            MainMenuItem::Analyze => "Analyze"@,
            MainMenuItem::Experiment => "Experiment"@,
            MainMenuItem::Showcase => "Showcase"@,
        }
    }

    /// Every entry, in display order.
    pub fn all() -> (r: [Self; 3])
        ensures
            r@ == Self::items(),
    {
        let r = [Self::Analyze, Self::Experiment, Self::Showcase];
        assert(r@ =~= Self::items());
        r
    }

    pub fn display(&self) -> (r: &str)
        ensures
            r@ == self.label(),
    {
        match self {
            Self::Analyze => "Analyze",
            Self::Experiment => "Experiment",
            Self::Showcase => "Showcase",
        }
    }
}

impl CyclicItem for MainMenuItem {
    open spec fn items() -> Seq<Self> {
        seq![MainMenuItem::Analyze, MainMenuItem::Experiment, MainMenuItem::Showcase]
    }

    open spec fn index(self) -> int {
        match self {
            MainMenuItem::Analyze => 0,
            MainMenuItem::Experiment => 1,
            MainMenuItem::Showcase => 2,
        }
    }

    proof fn lemma_items_well_formed() {
    }

    fn successor(&self) -> (r: Self) {
        proof {
            Self::lemma_items_well_formed();
        }
        match self {
            Self::Analyze => Self::Experiment,
            Self::Experiment => Self::Showcase,
            Self::Showcase => Self::Analyze,
        }
    }

    fn predecessor(&self) -> (r: Self) {
        proof {
            Self::lemma_items_well_formed();
        }
        match self {
            Self::Analyze => Self::Showcase,
            Self::Experiment => Self::Analyze,
            Self::Showcase => Self::Experiment,
        }
    }
}

/// An entry of the analysis menu.
#[derive(Debug, Clone, Copy, PartialEq, Eq, Structural)]
pub enum AnalyzeMenuItem {
    Dataset,
    SampleBatch,
    TrainingGraphs,
    TrainingResults,
}

impl AnalyzeMenuItem {
    /// The text shown for this entry.
    pub open spec fn label(self) -> Seq<char> {
        match self {
            AnalyzeMenuItem::Dataset => "Describe Dataset"@,
            AnalyzeMenuItem::SampleBatch => "Show Sample Batch"@,
            AnalyzeMenuItem::TrainingGraphs => "Show Training Graphs"@,
            AnalyzeMenuItem::TrainingResults => "Show Training Results"@,
        }
    }

    /// Every entry, in display order.
    pub fn all() -> (r: [Self; 4])
        ensures
            r@ == Self::items(),
    {
        let r = [Self::Dataset, Self::SampleBatch, Self::TrainingGraphs, Self::TrainingResults];
        assert(r@ =~= Self::items());
        r
    }

    pub fn display(&self) -> (r: &str)
        ensures
            r@ == self.label(),
    {
        match self {
            Self::Dataset => "Describe Dataset",
            Self::SampleBatch => "Show Sample Batch",
            Self::TrainingGraphs => "Show Training Graphs",
            Self::TrainingResults => "Show Training Results",
        }
    }
}

impl CyclicItem for AnalyzeMenuItem {
    open spec fn items() -> Seq<Self> {
        seq![AnalyzeMenuItem::Dataset, AnalyzeMenuItem::SampleBatch, AnalyzeMenuItem::TrainingGraphs, AnalyzeMenuItem::TrainingResults]
    }

    open spec fn index(self) -> int {
        match self {
            AnalyzeMenuItem::Dataset => 0,
            AnalyzeMenuItem::SampleBatch => 1,
            AnalyzeMenuItem::TrainingGraphs => 2,
            AnalyzeMenuItem::TrainingResults => 3,
        }
    }

    proof fn lemma_items_well_formed() {
    }

    fn successor(&self) -> (r: Self) {
        proof {
            Self::lemma_items_well_formed();
        }
        match self {
            Self::Dataset => Self::SampleBatch,
            Self::SampleBatch => Self::TrainingGraphs,
            Self::TrainingGraphs => Self::TrainingResults,
            Self::TrainingResults => Self::Dataset,
        }
    }

    fn predecessor(&self) -> (r: Self) {
        proof {
            Self::lemma_items_well_formed();
        }
        match self {
            Self::Dataset => Self::TrainingResults,
            Self::SampleBatch => Self::Dataset,
            Self::TrainingGraphs => Self::SampleBatch,
            Self::TrainingResults => Self::TrainingGraphs,
        }
    }
}

/// An entry of the experiment menu.
#[derive(Debug, Clone, Copy, PartialEq, Eq, Structural)]
pub enum ExperimentMenuItem {
    All,
    Selected,
}

impl ExperimentMenuItem {
    /// The text shown for this entry.
    pub open spec fn label(self) -> Seq<char> {
        match self {
            ExperimentMenuItem::All => "Run All Experiments"@,
            ExperimentMenuItem::Selected => "Run Selected Experiments"@,
        }
    }

    /// Every entry, in display order.
    pub fn all() -> (r: [Self; 2])
        ensures
            r@ == Self::items(),
    {
        let r = [Self::All, Self::Selected];
        assert(r@ =~= Self::items());
        r
    }

    pub fn display(&self) -> (r: &str)
        ensures
            r@ == self.label(),
    {
        match self {
            Self::All => "Run All Experiments",
            Self::Selected => "Run Selected Experiments",
        }
    }
}

impl CyclicItem for ExperimentMenuItem {
    open spec fn items() -> Seq<Self> {
        seq![ExperimentMenuItem::All, ExperimentMenuItem::Selected]
    }

    open spec fn index(self) -> int {
        match self {
            ExperimentMenuItem::All => 0,
            ExperimentMenuItem::Selected => 1,
        }
    }

    proof fn lemma_items_well_formed() {
    }

    fn successor(&self) -> (r: Self) {
        proof {
            Self::lemma_items_well_formed();
        }
        match self {
            Self::All => Self::Selected,
            Self::Selected => Self::All,
        }
    }

    fn predecessor(&self) -> (r: Self) {
        proof {
            Self::lemma_items_well_formed();
        }
        match self {
            Self::All => Self::Selected,
            Self::Selected => Self::All,
        }
    }
}

/// An entry of the showcase menu.
#[derive(Debug, Clone, Copy, PartialEq, Eq, Structural)]
pub enum ShowcaseMenuItem {
    Developer,
    Demonstration,
}

impl ShowcaseMenuItem {
    /// The text shown for this entry.
    pub open spec fn label(self) -> Seq<char> {
        match self {
            ShowcaseMenuItem::Developer => "Launch Dashboard - Developer Mode"@,
            ShowcaseMenuItem::Demonstration => "Launch Dashboard - Demonstration Mode"@,
        }
    }

    /// Every entry, in display order.
    pub fn all() -> (r: [Self; 2])
        ensures
            r@ == Self::items(),
    {
        let r = [Self::Developer, Self::Demonstration];
        assert(r@ =~= Self::items());
        r
    }

    pub fn display(&self) -> (r: &str)
        ensures
            r@ == self.label(),
    {
        match self {
            Self::Developer => "Launch Dashboard - Developer Mode",
            Self::Demonstration => "Launch Dashboard - Demonstration Mode",
        }
    }
}

impl CyclicItem for ShowcaseMenuItem {
    open spec fn items() -> Seq<Self> {
        seq![ShowcaseMenuItem::Developer, ShowcaseMenuItem::Demonstration]
    }

    open spec fn index(self) -> int {
        match self {
            ShowcaseMenuItem::Developer => 0,
            ShowcaseMenuItem::Demonstration => 1,
        }
    }

    proof fn lemma_items_well_formed() {
    }

    fn successor(&self) -> (r: Self) {
        proof {
            Self::lemma_items_well_formed();
        }
        match self {
            Self::Developer => Self::Demonstration,
            Self::Demonstration => Self::Developer,
        }
    }

    fn predecessor(&self) -> (r: Self) {
        proof {
            Self::lemma_items_well_formed();
        }
        match self {
            Self::Developer => Self::Demonstration,
            Self::Demonstration => Self::Developer,
        }
    }
}

} // verus!
