//! The table of thread modes: for each known thread id, whether that
//! thread's file-system calls are served by the virtual file system.
use std::collections::HashMap;
use vstd::prelude::*;

verus! {

broadcast use vstd::std_specs::hash::group_hash_axioms;

/// The table as it is first created: only the creating thread is known, and
/// it does not run in virtual mode.
pub fn new_context(main_thread: u64) -> (modes: HashMap<u64, bool>)
    ensures
        modes@ == map![main_thread => false],
{
    let mut modes: HashMap<u64, bool> = HashMap::new();
    modes.insert(main_thread, false);
    modes
}

/// The mode of `thread`, or `None` when the thread is unknown.
pub fn mode_of(modes: &HashMap<u64, bool>, thread: u64) -> (mode: Option<bool>)
    ensures
        mode == (if modes@.contains_key(thread) {
            Some(modes@[thread])
        } else {
            None::<bool>
        }),
{
    match modes.get(&thread) {
        Some(m) => Some(*m),
        None => None,
    }
}

/// Registers a thread that `parent` has just created: the new thread runs in
/// the mode of its creator, and no other entry changes. Returns that mode;
/// returns `None` and leaves the table unchanged when `parent` is unknown.
pub fn inherit(modes: &mut HashMap<u64, bool>, parent: u64, child: u64) -> (mode: Option<bool>)
    ensures
        old(modes)@.contains_key(parent) ==> {
            &&& mode == Some(old(modes)@[parent])
            &&& final(modes)@ == old(modes)@.insert(child, old(modes)@[parent])
        },
        !old(modes)@.contains_key(parent) ==> {
            &&& mode == None::<bool>
            &&& final(modes)@ == old(modes)@
        },
{
    match mode_of(modes, parent) {
        Some(m) => {
            modes.insert(child, m);
            Some(m)
        },
        None => None,
    }
}

/// After `inherit`, the new thread runs in its creator's mode, the creator
/// keeps its own, and every other thread keeps its mode.
pub proof fn lemma_inherit_copies_creator_mode(
    before: Map<u64, bool>,
    parent: u64,
    child: u64,
    other: u64,
)
    requires
        before.contains_key(parent),
    ensures
        ({
            let after = before.insert(child, before[parent]);
            &&& after.contains_key(child) && after[child] == before[parent]
            &&& after.contains_key(parent) && after[parent] == before[parent]
            &&& other != child ==> (after.contains_key(other) == before.contains_key(other))
            &&& other != child && before.contains_key(other) ==> after[other] == before[other]
        }),
{
}

} // verus!
