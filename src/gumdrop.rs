use rand::Rng;
use vstd::prelude::*;

verus! {

/// One line of a distribution list: a recipient's handle and the amount it
/// receives.
#[derive(Debug)]
pub struct Whitelist {
    pub handle: String,
    pub amount: u64,
}

impl Clone for Whitelist {
    fn clone(&self) -> (r: Self)
        ensures
            r == *self,
    {
        Whitelist { handle: self.handle.clone(), amount: self.amount }
    }
}

impl Whitelist {
    pub fn new(handle: String, amount: u64) -> (r: Whitelist)
        ensures
            r.handle == handle,
            r.amount == amount,
    {
        Whitelist { handle, amount }
    }
}

/// The handles of a list, in its order.
pub open spec fn handles_of(list: Seq<Whitelist>) -> Seq<Seq<char>> {
    list.map_values(|w: Whitelist| w.handle@)
}

/// The texts of the handles, in their order.
pub open spec fn texts(handles: Seq<String>) -> Seq<Seq<char>> {
    handles.map_values(|h: String| h@)
}

/// Relies on `rand::thread_rng().gen_range(0..n)`: a number below `n`, drawn at
/// random. The range must not be empty.
#[verifier::external_body]
fn random_below(n: usize) -> (r: usize)
    requires
        n > 0,
    ensures
        r < n,
{
    rand::thread_rng().gen_range(0..n)
}

/// A list that gives `amount` to each of `handles`, in their order, with
/// `special` put in at `index`.
pub fn whitelist_with_slot(handles: &Vec<String>, special: String, amount: u64, index: usize) -> (r:
    Vec<Whitelist>)
    requires
        index <= handles@.len(),
    ensures
        handles_of(r@) == texts(handles@).insert(index as int, special@),
        forall|k: int| 0 <= k < r@.len() ==> (#[trigger] r@[k]).amount == amount,
{
    let mut r: Vec<Whitelist> = Vec::new();
    let mut i: usize = 0;
    while i < handles.len()
        invariant
            i <= handles@.len(),
            r@.len() == i,
            handles_of(r@) == texts(handles@.subrange(0, i as int)),
            forall|k: int| 0 <= k < r@.len() ==> (#[trigger] r@[k]).amount == amount,
        decreases handles@.len() - i,
    {
        let ghost before = r@;
        let w = Whitelist::new(handles[i].clone(), amount);
        r.push(w);
        assert forall|k: int| 0 <= k < i implies handles_of(r@)[k] == texts(
            handles@.subrange(0, i + 1),
        )[k] by {
            assert(r@[k] == before[k]);
            assert(handles_of(before)[k] == texts(handles@.subrange(0, i as int))[k]);
        }
        assert(handles_of(r@)[i as int] == handles@[i as int]@);
        assert(handles_of(r@) =~= texts(handles@.subrange(0, i + 1)));
        i = i + 1;
    }
    assert(handles@.subrange(0, handles@.len() as int) =~= handles@);
    let ghost before = r@;
    r.insert(index, Whitelist::new(special, amount));
    assert(handles_of(r@) =~= handles_of(before).insert(index as int, special@));
    r
}

/// A list that gives `amount` to each of `handles`, in their order, with
/// `special` put in at a place drawn at random.
pub fn make_whitelist(handles: &Vec<String>, special: String, amount: u64) -> (r: Vec<Whitelist>)
    requires
        handles@.len() < usize::MAX,
    ensures
        exists|index: int|
            0 <= index <= handles@.len() && handles_of(r@) == texts(handles@).insert(
                index,
                special@,
            ),
        forall|k: int| 0 <= k < r@.len() ==> (#[trigger] r@[k]).amount == amount,
{
    let index = random_below(handles.len() + 1);
    whitelist_with_slot(handles, special, amount, index)
}

} // verus!
