use nia_body_check::atomic::{
    cmpxchg_failure_too_strong, AtomicOrderContext, CheckedAtomicOrder, CheckedAtomicRmwOp,
};
use nia_body_check::def_set::DefIdSet;
use nia_body_check::filter::{empty_global_def_ids, ActiveBodyCheckFilter, BodyCheckFilter};
use nia_body_check::ids::GlobalDefId;

const ALL_ORDERS: [CheckedAtomicOrder; 6] = [
    CheckedAtomicOrder::Unordered,
    CheckedAtomicOrder::Monotonic,
    CheckedAtomicOrder::Acquire,
    CheckedAtomicOrder::Release,
    CheckedAtomicOrder::AcqRel,
    CheckedAtomicOrder::SeqCst,
];

fn def(module_id: u32, def_id: u32) -> GlobalDefId {
    GlobalDefId::new(module_id, def_id)
}

fn set_of(ids: &[GlobalDefId]) -> DefIdSet {
    let mut set = DefIdSet::new();
    for id in ids {
        set.insert(*id);
    }
    set
}

#[test]
fn atomic_context_names() {
    assert_eq!(AtomicOrderContext::Load.name(), "atomic load");
    assert_eq!(AtomicOrderContext::Store.name(), "atomic store");
    assert_eq!(AtomicOrderContext::Rmw.name(), "atomic read-modify-write");
    assert_eq!(AtomicOrderContext::CmpxchgSuccess.name(), "cmpxchg success");
    assert_eq!(AtomicOrderContext::CmpxchgFailure.name(), "cmpxchg failure");
    assert_eq!(AtomicOrderContext::Fence.name(), "atomic fence");
}

#[test]
fn atomic_order_names_and_strengths() {
    let names: Vec<&str> = ALL_ORDERS.iter().map(|o| o.name()).collect();
    assert_eq!(names, vec!["Unordered", "Monotonic", "Acquire", "Release", "AcqRel", "SeqCst"]);
    let strengths: Vec<u8> = ALL_ORDERS.iter().map(|o| o.strength()).collect();
    assert_eq!(strengths, vec![0, 1, 2, 2, 3, 4]);
}

#[test]
fn atomic_rmw_names() {
    assert_eq!(CheckedAtomicRmwOp::Xchg.name(), "Xchg");
    assert_eq!(CheckedAtomicRmwOp::Nand.name(), "Nand");
    assert_eq!(CheckedAtomicRmwOp::UMax.name(), "UMax");
    assert_eq!(CheckedAtomicRmwOp::UMin.name(), "UMin");
    assert!(!CheckedAtomicRmwOp::Xchg.requires_integer_like());
    assert!(CheckedAtomicRmwOp::Add.requires_integer_like());
}

#[test]
fn atomic_order_from_value() {
    assert_eq!(CheckedAtomicOrder::from_value(0), Some(CheckedAtomicOrder::Unordered));
    assert_eq!(CheckedAtomicOrder::from_value(5), Some(CheckedAtomicOrder::SeqCst));
    assert_eq!(CheckedAtomicOrder::from_value(6), None);
    assert_eq!(CheckedAtomicOrder::from_value(-1), None);
}

#[test]
fn atomic_orders_allowed_per_context() {
    assert!(AtomicOrderContext::Load.allows(CheckedAtomicOrder::Acquire));
    assert!(!AtomicOrderContext::Load.allows(CheckedAtomicOrder::Release));
    assert!(!AtomicOrderContext::Load.allows(CheckedAtomicOrder::AcqRel));
    assert!(AtomicOrderContext::Store.allows(CheckedAtomicOrder::Release));
    assert!(!AtomicOrderContext::Store.allows(CheckedAtomicOrder::Acquire));
    assert!(!AtomicOrderContext::Rmw.allows(CheckedAtomicOrder::Unordered));
    assert!(AtomicOrderContext::Rmw.allows(CheckedAtomicOrder::AcqRel));
    assert!(!AtomicOrderContext::CmpxchgFailure.allows(CheckedAtomicOrder::Release));
    assert!(!AtomicOrderContext::CmpxchgFailure.allows(CheckedAtomicOrder::AcqRel));
    assert!(!AtomicOrderContext::Fence.allows(CheckedAtomicOrder::Monotonic));
    assert!(AtomicOrderContext::Fence.allows(CheckedAtomicOrder::SeqCst));
}

#[test]
fn failure_orders_are_success_orders_on_every_order() {
    for order in ALL_ORDERS {
        if AtomicOrderContext::CmpxchgFailure.allows(order) {
            assert!(AtomicOrderContext::CmpxchgSuccess.allows(order));
        }
        if AtomicOrderContext::Fence.allows(order) {
            assert!(order.strength() >= 2);
        }
    }
}

#[test]
fn cmpxchg_failure_may_not_be_stronger() {
    assert!(cmpxchg_failure_too_strong(CheckedAtomicOrder::Monotonic, CheckedAtomicOrder::Acquire));
    assert!(!cmpxchg_failure_too_strong(CheckedAtomicOrder::Release, CheckedAtomicOrder::Acquire));
    assert!(!cmpxchg_failure_too_strong(CheckedAtomicOrder::SeqCst, CheckedAtomicOrder::SeqCst));
    assert!(cmpxchg_failure_too_strong(CheckedAtomicOrder::AcqRel, CheckedAtomicOrder::SeqCst));
}

#[test]
fn def_id_set_keeps_members_once() {
    let mut set = DefIdSet::new();
    assert!(set.insert(def(0, 1)));
    assert!(set.insert(def(0, 2)));
    assert!(!set.insert(def(0, 1)));
    assert_eq!(set.len(), 2);
    assert!(set.contains(def(0, 2)));
    assert!(!set.contains(def(1, 2)));
    assert_eq!(set.member_at(0), def(0, 1));
}

#[test]
fn empty_globals_are_empty() {
    let globals = empty_global_def_ids();
    assert_eq!(globals.len(), 0);
}

#[test]
fn all_filter_includes_everything_and_discovers_nothing() {
    let mut filter = ActiveBodyCheckFilter::from_filter(BodyCheckFilter::All);
    assert!(filter.includes_function(def(3, 4)));
    assert!(filter.includes_global(def(3, 4)));
    assert!(filter.selects_global(def(3, 4)));
    assert!(!filter.add_function(def(3, 4)));
}

#[test]
fn reachable_functions_filter_has_no_globals() {
    let filter =
        ActiveBodyCheckFilter::from_filter(BodyCheckFilter::ReachableFunctions(set_of(&[def(0, 1)])));
    assert!(filter.includes_function(def(0, 1)));
    assert!(!filter.includes_function(def(0, 2)));
    assert!(!filter.includes_global(def(0, 1)));
    assert!(!filter.selects_global(def(0, 1)));
}

#[test]
fn reachable_items_filter_skips_checked_items() {
    let filter = ActiveBodyCheckFilter::from_filter(BodyCheckFilter::ReachableItems {
        functions: set_of(&[def(0, 1), def(0, 2)]),
        globals: set_of(&[def(0, 7), def(0, 8)]),
        already_checked_functions: Some(set_of(&[def(0, 2)])),
        already_checked_globals: Some(set_of(&[def(0, 8)])),
    });
    assert!(filter.includes_function(def(0, 1)));
    assert!(!filter.includes_function(def(0, 2)));
    assert!(filter.includes_global(def(0, 7)));
    assert!(!filter.includes_global(def(0, 8)));
    assert!(filter.selects_global(def(0, 8)));
    assert!(!filter.selects_global(def(0, 9)));
}

#[test]
fn added_function_is_included_once() {
    let mut filter = ActiveBodyCheckFilter::from_filter(BodyCheckFilter::ReachableItems {
        functions: set_of(&[def(0, 1)]),
        globals: DefIdSet::new(),
        already_checked_functions: Some(set_of(&[def(0, 2)])),
        already_checked_globals: None,
    });
    assert!(!filter.includes_function(def(0, 3)));
    assert!(filter.add_function(def(0, 3)));
    assert!(filter.includes_function(def(0, 3)));
    assert!(!filter.add_function(def(0, 3)));
    assert!(!filter.add_function(def(0, 1)));
    assert!(!filter.add_function(def(0, 2)));
    assert!(!filter.includes_function(def(0, 2)));
}

#[test]
fn initial_functions_are_requested_unchecked_and_available() {
    let filter = ActiveBodyCheckFilter::from_filter(BodyCheckFilter::ReachableItems {
        functions: set_of(&[def(0, 1), def(0, 2), def(0, 3)]),
        globals: DefIdSet::new(),
        already_checked_functions: Some(set_of(&[def(0, 2)])),
        already_checked_globals: None,
    });
    let available = set_of(&[def(0, 1), def(0, 2)]);
    assert_eq!(filter.initial_functions(&available), vec![def(0, 1)]);
    let all = ActiveBodyCheckFilter::from_filter(BodyCheckFilter::All);
    assert_eq!(all.initial_functions(&available), vec![def(0, 1), def(0, 2)]);
}
