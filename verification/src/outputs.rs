//! The table of outputs: for each output of the script its clip, the frame
//! that was last delivered for it and the bookkeeping of the scheduler.
//!
//! The table is generic in the handle `F` by which a rendered frame is
//! shared with the task that works on it, and in the frame properties `P`
//! that are cached beside it. It never looks into either.

use std::collections::HashMap;
use vstd::prelude::*;
use vstd::std_specs::iter::IteratorSpec;
use crate::vsnode::VSOutput;

verus! {

/// What is kept for one output.
pub struct PreviewOutput<F, P> {
    pub vsoutput: VSOutput,
    /// The frame that was last delivered for this output.
    pub rendered_frame: Option<F>,
    /// The properties of the frame as the script gave it, when they were
    /// asked for.
    pub original_props: Option<P>,
    /// The displayed image no longer matches the view parameters.
    pub force_reprocess: bool,
    /// The number of the frame in `rendered_frame`.
    pub last_frame_no: u32,
}

/// The outputs by their number.
pub struct OutputTable<F, P> {
    pub map: HashMap<i32, PreviewOutput<F, P>>,
}

/// The record of an output for which nothing was delivered yet.
pub open spec fn fresh_record<F, P>(vsoutput: VSOutput) -> PreviewOutput<F, P> {
    PreviewOutput {
        vsoutput,
        rendered_frame: None,
        original_props: None,
        force_reprocess: false,
        last_frame_no: 0,
    }
}

/// The table holds output `key`.
pub open spec fn has_output<F, P>(table: Map<i32, PreviewOutput<F, P>>, key: i32) -> bool {
    table.contains_key(key)
}

/// The record of output `key`.
pub open spec fn output_record<F, P>(table: Map<i32, PreviewOutput<F, P>>, key: i32) -> PreviewOutput<
    F,
    P,
> {
    table[key]
}

/// The table holds output `key`, and no output of a lesser number.
pub open spec fn is_least_output<F, P>(table: Map<i32, PreviewOutput<F, P>>, key: i32) -> bool {
    &&& table.contains_key(key)
    &&& forall|k: i32| table.contains_key(k) ==> key <= k
}

/// The least number of an output of the table.
pub open spec fn least_output<F, P>(table: Map<i32, PreviewOutput<F, P>>) -> i32 {
    choose|key: i32| is_least_output(table, key)
}

/// The last of `outputs` that has the number `key` is at `i`.
pub open spec fn is_last_with_index(outputs: Seq<VSOutput>, key: i32, i: int) -> bool {
    &&& 0 <= i < outputs.len()
    &&& outputs[i].index == key
    &&& forall|j: int| i < j < outputs.len() ==> outputs[j].index != key
}

/// The record is the fresh record of the last of `outputs` with the number
/// `key`.
pub open spec fn is_fresh_from<F, P>(
    outputs: Seq<VSOutput>,
    key: i32,
    rec: PreviewOutput<F, P>,
) -> bool {
    exists|i: int| is_last_with_index(outputs, key, i) && rec == fresh_record::<F, P>(outputs[i])
}

/// Some output of `outputs` has the number `key`.
pub open spec fn lists_output(outputs: Seq<VSOutput>, key: i32) -> bool {
    exists|i: int| 0 <= i < outputs.len() && #[trigger] outputs[i].index == key
}

/// The table `table` is the one of the outputs `list`: it holds exactly
/// their numbers, each with the fresh record of the last output of that
/// number.
#[verifier::opaque]
pub open spec fn is_table_of<F, P>(table: Map<i32, PreviewOutput<F, P>>, list: Seq<VSOutput>) -> bool {
    &&& forall|k: i32| table.contains_key(k) <==> lists_output(list, k)
    &&& forall|k: i32| table.contains_key(k) ==> is_fresh_from(list, k, #[trigger] table[k])
}

/// The table of some outputs holds an output, and the table of none holds
/// none.
pub proof fn lemma_table_of_len<F, P>(table: Map<i32, PreviewOutput<F, P>>, list: Seq<VSOutput>)
    requires
        is_table_of(table, list),
    ensures
        table.is_empty() <==> list.len() == 0,
{
    reveal(is_table_of);
    if list.len() > 0 {
        assert(lists_output(list, list[0].index));
        assert(table.contains_key(list[0].index));
    } else {
        assert forall|k: i32| !table.dom().contains(k) by {
            if table.contains_key(k) {
                assert(lists_output(list, k));
            }
        }
        assert(table.dom() =~= Set::empty());
    }
}

/// The table `after` is the table `before` with every record asking for
/// reprocessing, or not asking, as `flag` says.
pub open spec fn all_marked<F, P>(
    before: Map<i32, PreviewOutput<F, P>>,
    flag: bool,
    after: Map<i32, PreviewOutput<F, P>>,
) -> bool {
    &&& after.dom() == before.dom()
    &&& forall|k: i32|
        before.contains_key(k) ==> #[trigger] after[k] == (PreviewOutput {
            force_reprocess: flag,
            ..before[k]
        })
}

impl<F, P> PreviewOutput<F, P> {
    /// The record of an output for which nothing was delivered yet.
    pub fn new(vsoutput: VSOutput) -> (r: Self)
        ensures
            r == fresh_record::<F, P>(vsoutput),
    {
        PreviewOutput {
            vsoutput,
            rendered_frame: None,
            original_props: None,
            force_reprocess: false,
            last_frame_no: 0,
        }
    }
}

impl<F, P> View for OutputTable<F, P> {
    type V = Map<i32, PreviewOutput<F, P>>;

    open spec fn view(&self) -> Map<i32, PreviewOutput<F, P>> {
        self.map@
    }
}

impl<F, P> OutputTable<F, P> {
    /// The table without outputs.
    pub fn new() -> (r: Self)
        ensures
            r@ == Map::<i32, PreviewOutput<F, P>>::empty(),
    {
        OutputTable { map: HashMap::new() }
    }

    /// The table of the outputs `outputs`, with nothing delivered for any of
    /// them. Where two of them have the same number, the later one stands in
    /// the table.
    pub fn from_outputs(outputs: Vec<VSOutput>) -> (r: Self)
        ensures
            is_table_of(r@, outputs@),
    {
        broadcast use vstd::std_specs::hash::group_hash_axioms;

        let ghost all = outputs@;
        let mut rest = outputs;
        let mut map: HashMap<i32, PreviewOutput<F, P>> = HashMap::new();
        while rest.len() > 0
            invariant
                rest@.len() <= all.len(),
                rest@ == all.subrange(0, rest@.len() as int),
                forall|k: i32|
                    map@.contains_key(k) <==> exists|i: int|
                        rest@.len() <= i < all.len() && #[trigger] all[i].index == k,
                forall|k: i32| map@.contains_key(k) ==> is_fresh_from(all, k, #[trigger] map@[k]),
            decreases rest@.len(),
        {
            let ghost before = map@;
            let ghost m = rest@.len() - 1;
            let output = rest.pop().unwrap();
            assert(output == all[m]);
            let key = output.index;
            if !map.contains_key(&key) {
                let rec = PreviewOutput::new(output);
                proof {
                    assert(is_last_with_index(all, key, m)) by {
                        assert forall|j: int| m < j < all.len() implies all[j].index != key by {
                            if all[j].index == key {
                                assert(before.contains_key(key));
                            }
                        }
                    }
                    assert(is_fresh_from(all, key, rec));
                }
                map.insert(key, rec);
            }
            proof {
                assert forall|k: i32| map@.contains_key(k) implies exists|i: int|
                    m <= i < all.len() && #[trigger] all[i].index == k by {
                    if k == key {
                        assert(m <= m < all.len() && all[m].index == k);
                    } else {
                        let i = choose|i: int|
                            m + 1 <= i < all.len() && #[trigger] all[i].index == k;
                        assert(m <= i < all.len() && all[i].index == k);
                    }
                }
                assert forall|k: i32|
                    (exists|i: int|
                        m <= i < all.len() && #[trigger] all[i].index == k) implies map@.contains_key(
                    k,
                ) by {
                    let i = choose|i: int| m <= i < all.len() && #[trigger] all[i].index == k;
                    if i > m {
                        assert(m + 1 <= i < all.len() && all[i].index == k);
                        assert(before.contains_key(k));
                    }
                }
            }
        }
        proof {
            reveal(is_table_of);
            assert forall|k: i32| map@.contains_key(k) <==> lists_output(all, k) by {
                if lists_output(all, k) {
                    let i = choose|i: int| 0 <= i < all.len() && #[trigger] all[i].index == k;
                    assert(rest@.len() <= i < all.len() && all[i].index == k);
                }
            }
        }
        OutputTable { map }
    }

    /// The number of outputs.
    pub fn len(&self) -> (r: usize)
        ensures
            r == self@.len(),
    {
        broadcast use vstd::std_specs::hash::group_hash_axioms;

        self.map.len()
    }

    /// Whether the table holds no output.
    pub fn is_empty(&self) -> (r: bool)
        ensures
            r == self@.is_empty(),
            r ==> forall|k: i32| !self@.contains_key(k),
    {
        let r = self.map.is_empty();
        proof {
            if r {
                assert forall|k: i32| !self@.contains_key(k) by {
                    assert(!Set::<i32>::empty().contains(k));
                }
            }
        }
        r
    }

    /// Whether the table holds output `key`.
    pub fn contains_key(&self, key: i32) -> (r: bool)
        ensures
            r == has_output(self@, key),
    {
        broadcast use vstd::std_specs::hash::group_hash_axioms;

        self.map.contains_key(&key)
    }

    /// The record of output `key`, if the table holds it.
    pub fn get(&self, key: i32) -> (r: Option<&PreviewOutput<F, P>>)
        ensures
            r is Some <==> has_output(self@, key),
            r matches Some(o) ==> *o == output_record(self@, key),
    {
        broadcast use vstd::std_specs::hash::group_hash_axioms;

        self.map.get(&key)
    }

    /// The output numbers, each once, in no particular order.
    pub fn keys(&self) -> (r: Vec<i32>)
        ensures
            r@.to_set() == self@.dom(),
            r@.no_duplicates(),
    {
        broadcast use vstd::std_specs::hash::group_hash_axioms;

        let mut keys: Vec<i32> = Vec::new();
        let ghost all = self.map.keys().remaining().unref();
        for k in it: self.map.keys()
            invariant
                all == it.seq().unref(),
                keys@ == it.seq().unref().take(it.index()),
        {
            keys.push(*k);
            assert(keys@ =~= it.seq().unref().take(it.index() + 1));
        }
        assert(keys@ =~= all);
        keys
    }

    /// The least output number, if there is an output.
    pub fn first_key(&self) -> (r: Option<i32>)
        ensures
            r is Some <==> !self@.is_empty(),
            r matches Some(k) ==> is_least_output(self@, k) && k == least_output(self@),
    {
        let keys = self.keys();
        let n = keys.len();
        if n == 0 {
            assert(self@.dom() =~= Set::empty()) by {
                assert forall|k: i32| !self@.dom().contains(k) by {
                    if self@.dom().contains(k) {
                        assert(keys@.to_set().contains(k));
                        assert(keys@.contains(k));
                    }
                }
            }
            return None;
        }
        let mut least: i32 = keys[0];
        let mut i: usize = 1;
        while i < n
            invariant
                1 <= i <= n,
                n == keys@.len(),
                exists|j: int| 0 <= j < i && keys@[j] == least,
                forall|j: int| 0 <= j < i ==> least <= keys@[j],
            decreases n - i,
        {
            if keys[i] < least {
                least = keys[i];
            }
            i += 1;
        }
        proof {
            let j = choose|j: int| 0 <= j < n && keys@[j] == least;
            assert(keys@.contains(least));
            assert(keys@.to_set().contains(least));
            assert forall|k: i32| self@.contains_key(k) implies least <= k by {
                assert(keys@.to_set().contains(k));
                assert(keys@.contains(k));
                let m = choose|m: int| 0 <= m < keys@.len() && keys@[m] == k;
                assert(least <= keys@[m]);
            }
            assert(is_least_output(self@, least));
            let other = least_output(self@);
            assert(is_least_output(self@, other));
        }
        Some(least)
    }

    /// Changes the record of output `key`, if the table holds it: whether
    /// it asks for reprocessing.
    pub fn set_force_reprocess(&mut self, key: i32, flag: bool)
        ensures
            old(self)@.contains_key(key) ==> final(self)@ == old(self)@.insert(
                key,
                PreviewOutput { force_reprocess: flag, ..old(self)@[key] },
            ),
            !old(self)@.contains_key(key) ==> final(self)@ == old(self)@,
    {
        broadcast use vstd::std_specs::hash::group_hash_axioms;

        match self.map.remove(&key) {
            Some(mut rec) => {
                rec.force_reprocess = flag;
                self.map.insert(key, rec);
                assert(self@ =~= old(self)@.insert(
                    key,
                    PreviewOutput { force_reprocess: flag, ..old(self)@[key] },
                ));
            },
            None => {
                assert(self@ =~= old(self)@);
            },
        }
    }

    /// Changes the record of output `key`, if the table holds it: the
    /// cached frame properties.
    pub fn set_original_props(&mut self, key: i32, props: Option<P>)
        ensures
            old(self)@.contains_key(key) ==> final(self)@ == old(self)@.insert(
                key,
                PreviewOutput { original_props: props, ..old(self)@[key] },
            ),
            !old(self)@.contains_key(key) ==> final(self)@ == old(self)@,
    {
        broadcast use vstd::std_specs::hash::group_hash_axioms;

        match self.map.remove(&key) {
            Some(mut rec) => {
                rec.original_props = props;
                self.map.insert(key, rec);
                assert(self@ =~= old(self)@.insert(
                    key,
                    PreviewOutput { original_props: props, ..old(self)@[key] },
                ));
            },
            None => {
                assert(self@ =~= old(self)@);
            },
        }
    }

    /// Changes the record of output `key`, if the table holds it: the frame
    /// `frame` with the number `frame_no` is put into it.
    pub fn set_rendered_frame(&mut self, key: i32, frame: F, frame_no: u32)
        ensures
            old(self)@.contains_key(key) ==> final(self)@ == old(self)@.insert(
                key,
                PreviewOutput {
                    rendered_frame: Some(frame),
                    last_frame_no: frame_no,
                    ..old(self)@[key]
                },
            ),
            !old(self)@.contains_key(key) ==> final(self)@ == old(self)@,
    {
        broadcast use vstd::std_specs::hash::group_hash_axioms;

        match self.map.remove(&key) {
            Some(mut rec) => {
                rec.rendered_frame = Some(frame);
                rec.last_frame_no = frame_no;
                self.map.insert(key, rec);
                assert(self@ =~= old(self)@.insert(
                    key,
                    PreviewOutput {
                        rendered_frame: Some(frame),
                        last_frame_no: frame_no,
                        ..old(self)@[key]
                    },
                ));
            },
            None => {
                assert(self@ =~= old(self)@);
            },
        }
    }

    /// Sets the flag that asks for reprocessing in every record.
    pub fn set_force_reprocess_all(&mut self, flag: bool)
        ensures
            all_marked(old(self)@, flag, final(self)@),
    {
        let keys = self.keys();
        let n = keys.len();
        let mut i: usize = 0;
        while i < n
            invariant
                i <= n,
                n == keys@.len(),
                keys@.no_duplicates(),
                keys@.to_set() == old(self)@.dom(),
                self@.dom() == old(self)@.dom(),
                forall|j: int|
                    0 <= j < i ==> #[trigger] self@[keys@[j]] == (PreviewOutput {
                        force_reprocess: flag,
                        ..old(self)@[keys@[j]]
                    }),
                forall|j: int| i <= j < n ==> #[trigger] self@[keys@[j]] == old(self)@[keys@[j]],
            decreases n - i,
        {
            let key = keys[i];
            let ghost before = self@;
            assert(keys@.contains(key));
            assert(keys@.to_set().contains(key));
            self.set_force_reprocess(key, flag);
            proof {
                assert(self@.dom() =~= before.dom());
                assert forall|j: int| 0 <= j < i implies #[trigger] self@[keys@[j]]
                    == (PreviewOutput { force_reprocess: flag, ..old(self)@[keys@[j]] }) by {
                    assert(keys@[j] != key);
                    assert(self@[keys@[j]] == before[keys@[j]]);
                }
                assert forall|j: int| i + 1 <= j < n implies #[trigger] self@[keys@[j]] == old(
                    self,
                )@[keys@[j]] by {
                    assert(keys@[j] != key);
                    assert(self@[keys@[j]] == before[keys@[j]]);
                }
            }
            i += 1;
        }
        proof {
            assert forall|k: i32| old(self)@.contains_key(k) implies #[trigger] self@[k]
                == (PreviewOutput { force_reprocess: flag, ..old(self)@[k] }) by {
                assert(keys@.to_set().contains(k));
                assert(keys@.contains(k));
                let j = choose|j: int| 0 <= j < keys@.len() && keys@[j] == k;
                assert(self@[keys@[j]] == (PreviewOutput {
                    force_reprocess: flag,
                    ..old(self)@[keys@[j]]
                }));
            }
        }
    }
}

} // verus!
