//! The example runner: an ordered registry of named demonstrations, run in
//! registration order, with the observable output reified as a sequence of
//! plain items and any fault surfaced to the caller.

use vstd::prelude::*;

verus! {

use crate::examples::add2;
use crate::examples::another_function;
use crate::examples::clone_s1_s2;
use crate::examples::demo_values;
use crate::examples::five;
use crate::examples::gives_ownership;
use crate::examples::greeting;
use crate::examples::if_exp;
use crate::examples::index_demo;
use crate::examples::move_s1_s2;
use crate::examples::new_scope;
use crate::examples::plus_one;
use crate::examples::takes_and_gives_back;
use crate::examples::test_for;
use crate::examples::test_if_con;
use crate::examples::test_iter;
use crate::examples::test_loop;
use crate::examples::test_rev;
use crate::examples::test_while;

/// One observable output item of a demonstration: a computed number or a
/// piece of text.
#[derive(Debug, Clone, PartialEq, Eq)]
pub enum OutputItem {
    Num(i64),
    Text(String),
}

/// The mathematical model of an output item.
#[verifier::ext_equal]
pub enum ItemModel {
    Num(int),
    Text(Seq<char>),
}

impl View for OutputItem {
    type V = ItemModel;

    open spec fn view(&self) -> ItemModel {
        match self {
            OutputItem::Num(n) => ItemModel::Num(*n as int),
            OutputItem::Text(s) => ItemModel::Text(s@),
        }
    }
}

/// The model of a sequence of output items.
pub open spec fn items_view(s: Seq<OutputItem>) -> Seq<ItemModel> {
    s.map_values(|it: OutputItem| it@)
}

/// The action of one registered example: which demonstration it runs,
/// together with the fixed arguments that demonstration takes.
#[derive(Debug, Clone, Copy, PartialEq, Eq)]
pub enum Action {
    /// The comparison demo: reports whether `num` lies below five.
    Branch { num: i64 },
    /// The conditional-expression demo: five or six by `condition`.
    PickValue { condition: bool },
    /// The counting loop demo: a counter driven to ten, doubled.
    LoopDouble,
    /// The countdown demo: `start` down to one, then a liftoff line.
    Countdown { start: u32 },
    /// The indexed walk over the fixed array.
    ArrayWalk,
    /// The iterator walk over the fixed array.
    ArrayIter,
    /// The reversed-range demo over `lo..hi`, then a liftoff line.
    RevCount { lo: u32, hi: u32 },
    /// The plain-arguments demo: both arguments, in order.
    Echo { x: i64, y: i64 },
    /// The shadowing demo: the value an inner scope computes.
    ScopeDemo,
    /// The constant function demo.
    FiveDemo,
    /// The successor demo, applied to five.
    PlusOneDemo,
    /// The addition demo, applied to one and three.
    AddDemo,
    /// The append demo: the full salutation grown in place.
    Greeting,
    /// The move demo: a greeting moved between bindings.
    MoveDemo,
    /// The clone demo: a greeting and its clone.
    CloneDemo,
    /// The ownership round trip: a greeting given away and handed back.
    OwnershipDemo,
    /// The indexing demo: the fixed array read at `index`; the one action
    /// that faults, when `index` lies outside the array.
    IndexDemo { index: usize },
}

/// The single fault class: an index access outside the array it reads.
#[derive(Debug, Clone, Copy, PartialEq, Eq)]
pub struct Fault {
    pub index: usize,
    pub bound: usize,
}

/// Whether running `a` faults instead of producing output.
pub open spec fn action_faults(a: Action) -> bool {
    match a {
        Action::IndexDemo { index } => index >= 5,
        _ => false,
    }
}

/// The fault that running `a` signals; meaningful only where
/// `action_faults(a)` holds.
pub open spec fn action_fault(a: Action) -> Fault {
    match a {
        Action::IndexDemo { index } => Fault { index, bound: 5 },
        _ => Fault { index: 0, bound: 0 },
    }
}

/// The output items that running `a` produces, in order, where it does not
/// fault.
pub open spec fn action_output(a: Action) -> Seq<ItemModel> {
    match a {
        Action::Branch { num } => seq![
            ItemModel::Text(if num < 5 { "Condition is true"@ } else { "Condition is false"@ }),
        ],
        Action::PickValue { condition } => seq![
            ItemModel::Num(if condition { 5int } else { 6int }),
        ],
        Action::LoopDouble => seq![ItemModel::Num(20)],
        Action::Countdown { start } => Seq::new(
            start as nat,
            |i: int| ItemModel::Num(start as int - i),
        ).push(ItemModel::Text("LIFTOFF!!!"@)),
        Action::ArrayWalk => demo_values().map_values(|v: i64| ItemModel::Num(v as int)),
        Action::ArrayIter => demo_values().map_values(|v: i64| ItemModel::Num(v as int)),
        Action::RevCount { lo, hi } => Seq::new(
            if lo <= hi { (hi - lo) as nat } else { 0nat },
            |i: int| ItemModel::Num(hi as int - 1 - i),
        ).push(ItemModel::Text("LIFTOFF!!!"@)),
        Action::Echo { x, y } => seq![ItemModel::Num(x as int), ItemModel::Num(y as int)],
        Action::ScopeDemo => seq![ItemModel::Num(4)],
        Action::FiveDemo => seq![ItemModel::Num(5)],
        Action::PlusOneDemo => seq![ItemModel::Num(6)],
        Action::AddDemo => seq![ItemModel::Num(4)],
        Action::Greeting => seq![ItemModel::Text("hello, world!"@)],
        Action::MoveDemo => seq![ItemModel::Text("hello"@)],
        Action::CloneDemo => seq![ItemModel::Text("hello"@), ItemModel::Text("hello"@)],
        Action::OwnershipDemo => seq![ItemModel::Text("hello"@), ItemModel::Text("hello"@)],
        Action::IndexDemo { index } => if index < 5 {
            seq![ItemModel::Num(demo_values()[index as int] as int)]
        } else {
            Seq::empty()
        },
    }
}

/// Wraps each number of `nums` as an output item, keeping the order.
fn nums_to_items(nums: &Vec<i64>) -> (out: Vec<OutputItem>)
    ensures
        items_view(out@) == nums@.map_values(|v: i64| ItemModel::Num(v as int)),
{
    let mut out: Vec<OutputItem> = Vec::new();
    let mut i: usize = 0;
    while i < nums.len()
        invariant
            i <= nums@.len(),
            items_view(out@) =~= nums@.take(i as int).map_values(|v: i64| ItemModel::Num(v as int)),
        decreases nums@.len() - i,
    {
        let ghost pre = out@;
        out.push(OutputItem::Num(nums[i]));
        proof {
            assert(out@ == pre.push(OutputItem::Num(nums@[i as int])));
            assert(items_view(out@) =~= items_view(pre).push(
                ItemModel::Num(nums@[i as int] as int),
            ));
            assert(nums@.take(i as int + 1) =~= nums@.take(i as int).push(nums@[i as int]));
            assert(items_view(out@) =~= nums@.take(i as int + 1).map_values(
                |v: i64| ItemModel::Num(v as int),
            ));
        }
        i = i + 1;
    }
    assert(nums@.take(nums@.len() as int) =~= nums@);
    out
}

/// Runs one action: its output items where it succeeds, its fault where it
/// faults.
pub fn run_action(action: &Action) -> (res: Result<Vec<OutputItem>, Fault>)
    ensures
        match res {
            Ok(out) => !action_faults(*action) && items_view(out@) == action_output(*action),
            Err(f) => action_faults(*action) && f == action_fault(*action),
        },
{
    match action {
        Action::Branch { num } => {
            let cond: bool = if_exp(*num);
            let msg: &str = if cond {
                "Condition is true"
            } else {
                "Condition is false"
            };
            let mut out: Vec<OutputItem> = Vec::new();
            out.push(OutputItem::Text(msg.to_owned()));
            assert(items_view(out@) =~= action_output(*action));
            Ok(out)
        }
        Action::PickValue { condition } => {
            let number: i64 = test_if_con(*condition);
            let mut out: Vec<OutputItem> = Vec::new();
            out.push(OutputItem::Num(number));
            assert(items_view(out@) =~= action_output(*action));
            Ok(out)
        }
        Action::LoopDouble => {
            let result: i64 = test_loop();
            let mut out: Vec<OutputItem> = Vec::new();
            out.push(OutputItem::Num(result));
            assert(items_view(out@) =~= action_output(*action));
            Ok(out)
        }
        Action::Countdown { start } => {
            let nums: Vec<i64> = test_while(*start);
            let mut out: Vec<OutputItem> = nums_to_items(&nums);
            let ghost pre = out@;
            out.push(OutputItem::Text("LIFTOFF!!!".to_owned()));
            proof {
                assert(out@ == pre.push(out@[pre.len() as int]));
                assert(out@[pre.len() as int]@ == ItemModel::Text("LIFTOFF!!!"@));
                assert(items_view(pre) == nums@.map_values(|v: i64| ItemModel::Num(v as int)));
                assert(items_view(pre).len() == pre.len());
                assert(pre.len() == nums@.len());
                assert(out@.len() == pre.len() + 1);
                assert(items_view(out@).len() == nums@.len() + 1);
                assert forall|j: int| 0 <= j < nums@.len() implies items_view(out@)[j]
                    == ItemModel::Num(*start as int - j) by {
                    assert(out@[j] == pre[j]);
                    assert(items_view(out@)[j] == pre[j]@);
                    assert(items_view(pre)[j] == ItemModel::Num(nums@[j] as int));
                    assert(nums@[j] as int == *start as int - j);
                }
                assert(items_view(out@) =~~= action_output(*action));
            }
            Ok(out)
        }
        Action::ArrayWalk => {
            let nums: Vec<i64> = test_for();
            let out: Vec<OutputItem> = nums_to_items(&nums);
            Ok(out)
        }
        Action::ArrayIter => {
            let nums: Vec<i64> = test_iter();
            let out: Vec<OutputItem> = nums_to_items(&nums);
            Ok(out)
        }
        Action::RevCount { lo, hi } => {
            let nums: Vec<i64> = test_rev(*lo, *hi);
            let mut out: Vec<OutputItem> = nums_to_items(&nums);
            let ghost pre = out@;
            out.push(OutputItem::Text("LIFTOFF!!!".to_owned()));
            proof {
                assert(out@ == pre.push(out@[pre.len() as int]));
                assert(out@[pre.len() as int]@ == ItemModel::Text("LIFTOFF!!!"@));
                assert(items_view(pre) == nums@.map_values(|v: i64| ItemModel::Num(v as int)));
                assert(items_view(pre).len() == pre.len());
                assert(pre.len() == nums@.len());
                assert(out@.len() == pre.len() + 1);
                assert forall|j: int| 0 <= j < nums@.len() implies items_view(out@)[j]
                    == ItemModel::Num(*hi as int - 1 - j) by {
                    assert(out@[j] == pre[j]);
                    assert(items_view(out@)[j] == pre[j]@);
                    assert(items_view(pre)[j] == ItemModel::Num(nums@[j] as int));
                    assert(nums@[j] as int == *hi as int - 1 - j);
                }
                assert(items_view(out@) =~~= action_output(*action));
            }
            Ok(out)
        }
        Action::Echo { x, y } => {
            let pair: (i64, i64) = another_function(*x, *y);
            let mut out: Vec<OutputItem> = Vec::new();
            out.push(OutputItem::Num(pair.0));
            out.push(OutputItem::Num(pair.1));
            assert(items_view(out@) =~= action_output(*action));
            Ok(out)
        }
        Action::ScopeDemo => {
            let u: i64 = new_scope();
            let mut out: Vec<OutputItem> = Vec::new();
            out.push(OutputItem::Num(u));
            assert(items_view(out@) =~= action_output(*action));
            Ok(out)
        }
        Action::FiveDemo => {
            let r: i32 = five();
            let mut out: Vec<OutputItem> = Vec::new();
            out.push(OutputItem::Num(r as i64));
            assert(items_view(out@) =~= action_output(*action));
            Ok(out)
        }
        Action::PlusOneDemo => {
            let r: i32 = plus_one(5);
            let mut out: Vec<OutputItem> = Vec::new();
            out.push(OutputItem::Num(r as i64));
            assert(items_view(out@) =~= action_output(*action));
            Ok(out)
        }
        Action::AddDemo => {
            let r: i32 = add2(1, 3);
            let mut out: Vec<OutputItem> = Vec::new();
            out.push(OutputItem::Num(r as i64));
            assert(items_view(out@) =~= action_output(*action));
            Ok(out)
        }
        Action::Greeting => {
            let s: String = greeting();
            let mut out: Vec<OutputItem> = Vec::new();
            out.push(OutputItem::Text(s));
            assert(items_view(out@) =~= action_output(*action));
            Ok(out)
        }
        Action::MoveDemo => {
            let s: String = move_s1_s2();
            let mut out: Vec<OutputItem> = Vec::new();
            out.push(OutputItem::Text(s));
            assert(items_view(out@) =~= action_output(*action));
            Ok(out)
        }
        Action::CloneDemo => {
            let pair: (String, String) = clone_s1_s2();
            let mut out: Vec<OutputItem> = Vec::new();
            out.push(OutputItem::Text(pair.0));
            out.push(OutputItem::Text(pair.1));
            assert(items_view(out@) =~= action_output(*action));
            Ok(out)
        }
        Action::OwnershipDemo => {
            let s1: String = gives_ownership();
            let s2: String = "hello".to_owned();
            let s3: String = takes_and_gives_back(s2);
            let mut out: Vec<OutputItem> = Vec::new();
            out.push(OutputItem::Text(s1));
            out.push(OutputItem::Text(s3));
            assert(items_view(out@) =~= action_output(*action));
            Ok(out)
        }
        Action::IndexDemo { index } => {
            match index_demo(*index) {
                Some(v) => {
                    let mut out: Vec<OutputItem> = Vec::new();
                    out.push(OutputItem::Num(v));
                    assert(items_view(out@) =~= action_output(*action));
                    Ok(out)
                }
                None => Err(Fault { index: *index, bound: 5 }),
            }
        }
    }
}

/// One registered example: a display name and the action it runs. Names
/// serve display alone; nothing requires them unique.
#[derive(Debug, Clone, PartialEq, Eq)]
pub struct Example {
    pub name: String,
    pub action: Action,
}

/// The ordered registry of examples. Insertion order is execution order.
#[derive(Debug, Clone, PartialEq, Eq)]
pub struct Registry {
    pub examples: Vec<Example>,
}

impl View for Registry {
    type V = Seq<Example>;

    open spec fn view(&self) -> Seq<Example> {
        self.examples@
    }
}

impl Registry {
    /// A registry with nothing registered.
    pub fn new() -> (r: Registry)
        ensures
            r@ == Seq::<Example>::empty(),
    {
        let r = Registry { examples: Vec::new() };
        proof {
            assert(r@ =~= Seq::<Example>::empty());
        }
        r
    }

    /// Appends one example after everything registered so far.
    pub fn register(&mut self, name: String, action: Action)
        ensures
            final(self)@ == old(self)@.push(Example { name, action }),
    {
        self.examples.push(Example { name, action });
    }

    /// How many examples stand registered.
    pub fn len(&self) -> (n: usize)
        ensures
            n == self@.len(),
    {
        self.examples.len()
    }
}

/// Whether none of the first `n` registered actions faults.
pub open spec fn ok_upto(r: Seq<Example>, n: int) -> bool {
    forall|i: int| 0 <= i < n ==> !action_faults(#[trigger] r[i].action)
}

/// The concatenated output of the first `n` registered actions, in
/// registration order.
pub open spec fn output_upto(r: Seq<Example>, n: int) -> Seq<ItemModel>
    decreases n,
{
    if n <= 0 {
        Seq::empty()
    } else {
        output_upto(r, n - 1) + action_output(r[n - 1].action)
    }
}

/// Whether position `k` holds the first faulting example of `r`: everything
/// before it runs clean, and it faults.
pub open spec fn faults_at(r: Seq<Example>, k: int) -> bool {
    0 <= k < r.len() && ok_upto(r, k) && action_faults(r[k].action)
}

/// Everything a finished run reports. With no fault: every example ran, and
/// `items` is the whole output in registration order. With a fault: `items`
/// is exactly the output of the examples before the first faulting one, and
/// the fault is that example's.
pub open spec fn run_post(r: Seq<Example>, items: Seq<ItemModel>, fault: Option<Fault>) -> bool {
    match fault {
        None => ok_upto(r, r.len() as int) && items == output_upto(r, r.len() as int),
        Some(f) => exists|k: int|
            #[trigger] faults_at(r, k) && f == action_fault(r[k].action) && items == output_upto(
                r,
                k,
            ),
    }
}

/// What one run hands back: every output item produced, in order, and the
/// fault that stopped the run, where one did.
#[derive(Debug, Clone, PartialEq, Eq)]
pub struct RunReport {
    pub items: Vec<OutputItem>,
    pub fault: Option<Fault>,
}

/// Runs every registered example, strictly in registration order, stopping
/// at the first fault and surfacing it unmodified.
pub fn run_all(registry: &Registry) -> (report: RunReport)
    ensures
        run_post(registry@, items_view(report.items@), report.fault),
{
    let mut items: Vec<OutputItem> = Vec::new();
    let n: usize = registry.examples.len();
    let mut i: usize = 0;
    while i < n
        invariant
            n == registry@.len(),
            i <= n,
            ok_upto(registry@, i as int),
            items_view(items@) == output_upto(registry@, i as int),
        decreases n - i,
    {
        let ghost pre = items@;
        match run_action(&registry.examples[i].action) {
            Ok(mut out) => {
                let ghost outg = out@;
                items.append(&mut out);
                proof {
                    assert(items@ == pre + outg);
                    assert(items_view(items@) =~= items_view(pre) + items_view(outg));
                    assert(items_view(items@) == output_upto(registry@, i as int + 1));
                }
            }
            Err(f) => {
                proof {
                    assert(faults_at(registry@, i as int));
                }
                return RunReport { items, fault: Some(f) };
            }
        }
        i = i + 1;
    }
    RunReport { items, fault: None }
}

/// In a run that finishes without a fault, every example's action has
/// contributed exactly once, in registration order: the whole output splits,
/// position by position, into each action's own output appended after that
/// of all earlier ones.
pub proof fn lemma_run_all_in_order(r: Seq<Example>, items: Seq<ItemModel>)
    requires
        run_post(r, items, None),
    ensures
        items == output_upto(r, r.len() as int),
        forall|k: int|
            0 <= k < r.len() ==> output_upto(r, k + 1) == output_upto(r, k) + action_output(
                #[trigger] r[k].action,
            ),
{
    assert forall|k: int| 0 <= k < r.len() implies output_upto(r, k + 1) == output_upto(r, k)
        + action_output(r[k].action) by {
        assert(output_upto(r, k + 1) == output_upto(r, k) + action_output(r[k].action));
    }
}

/// Running an empty registry produces no output and returns normally.
pub proof fn lemma_empty_registry(r: Seq<Example>, items: Seq<ItemModel>, fault: Option<Fault>)
    requires
        r.len() == 0,
        run_post(r, items, fault),
    ensures
        items == Seq::<ItemModel>::empty(),
        fault is None,
{
    match fault {
        None => {
            assert(items == output_upto(r, 0));
        }
        Some(f) => {
            let k = choose|k: int|
                #[trigger] faults_at(r, k) && f == action_fault(r[k].action) && items
                    == output_upto(r, k);
            assert(false);
        }
    }
}

/// When a run stops at a fault, the examples before the first faulting
/// position `k` have observably run — their output, and only theirs, stands
/// in order — and the faulting example and everything after it have
/// contributed nothing beyond the fault itself.
pub proof fn lemma_fault_prefix(r: Seq<Example>, items: Seq<ItemModel>, f: Fault, k: int)
    requires
        run_post(r, items, Some(f)),
        faults_at(r, k),
    ensures
        items == output_upto(r, k),
        f == action_fault(r[k].action),
{
    let k2 = choose|k2: int|
        #[trigger] faults_at(r, k2) && f == action_fault(r[k2].action) && items == output_upto(
            r,
            k2,
        );
    if k < k2 {
        assert(!action_faults(r[k].action));
    }
    if k2 < k {
        assert(!action_faults(r[k2].action));
    }
}

/// Determinism: two runs of the same registry report the same output, item
/// for item, and the same fault.
pub proof fn lemma_run_deterministic(
    r: Seq<Example>,
    items1: Seq<ItemModel>,
    fault1: Option<Fault>,
    items2: Seq<ItemModel>,
    fault2: Option<Fault>,
)
    requires
        run_post(r, items1, fault1),
        run_post(r, items2, fault2),
    ensures
        items1 == items2,
        fault1 == fault2,
{
    match (fault1, fault2) {
        (None, None) => {
        }
        (None, Some(f2)) => {
            let k2 = choose|k2: int|
                #[trigger] faults_at(r, k2) && f2 == action_fault(r[k2].action) && items2
                    == output_upto(r, k2);
            assert(!action_faults(r[k2].action));
        }
        (Some(f1), None) => {
            let k1 = choose|k1: int|
                #[trigger] faults_at(r, k1) && f1 == action_fault(r[k1].action) && items1
                    == output_upto(r, k1);
            assert(!action_faults(r[k1].action));
        }
        (Some(f1), Some(f2)) => {
            let k1 = choose|k1: int|
                #[trigger] faults_at(r, k1) && f1 == action_fault(r[k1].action) && items1
                    == output_upto(r, k1);
            lemma_fault_prefix(r, items2, f2, k1);
        }
    }
}

} // verus!
