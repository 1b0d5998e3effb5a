//! Natural ordering of names: runs of digits compare by value, so `a2`
//! comes before `a10`.
use std::cmp::Ordering;
use vstd::prelude::*;

verus! {

/// What `natord::compare` answers for two strings.
pub uninterp spec fn natural_order(a: Seq<char>, b: Seq<char>) -> Ordering;

/// The ordering with its two strict sides exchanged.
pub open spec fn reversed(o: Ordering) -> Ordering {
    match o {
        Ordering::Less => Ordering::Greater,
        Ordering::Equal => Ordering::Equal,
        Ordering::Greater => Ordering::Less,
    }
}

/// Relies on `natord::compare`: the answer depends on the two strings alone,
/// and the function treats its two sides alike, so that exchanging the
/// arguments exchanges `Less` and `Greater`.
#[verifier::external_body]
fn compare_natural(a: &str, b: &str) -> (r: Ordering)
    ensures
        r == natural_order(a@, b@),
        natural_order(b@, a@) == reversed(r),
{
    natord::compare(a, b)
}

/// Whether `a` may stand before `b` in a natural listing.
pub open spec fn in_natural_order(a: Seq<char>, b: Seq<char>) -> bool {
    natural_order(a, b) != Ordering::Greater
}

/// Something listed by a name.
pub trait Named {
    spec fn name_view(&self) -> Seq<char>;

    fn name_str(&self) -> (r: &str)
        ensures
            r@ == self.name_view(),
    ;
}

impl Named for String {
    open spec fn name_view(&self) -> Seq<char> {
        self@
    }

    fn name_str(&self) -> (r: &str) {
        self.as_str()
    }
}

/// Each name may stand before the next one.
pub open spec fn naturally_sorted<T: Named>(s: Seq<T>) -> bool {
    forall|i: int| 0 <= i < s.len() - 1 ==> #[trigger] in_natural_order(
        s[i].name_view(),
        s[i + 1].name_view(),
    )
}

/// Returns whether `a` may stand before `b` in a natural listing.
pub fn natural_le(a: &str, b: &str) -> (r: bool)
    ensures
        r == in_natural_order(a@, b@),
        natural_order(b@, a@) == reversed(natural_order(a@, b@)),
{
    match compare_natural(a, b) {
        Ordering::Greater => false,
        _ => true,
    }
}

/// Sorts `items` by name in natural order.
pub fn sort_naturally<T: Named>(items: Vec<T>) -> (r: Vec<T>)
    ensures
        r@.to_multiset() == items@.to_multiset(),
        naturally_sorted(r@),
{
    broadcast use vstd::seq_lib::group_to_multiset_ensures;

    let mut rest = items;
    let mut sorted: Vec<T> = Vec::new();
    while rest.len() > 0
        invariant
            sorted@.to_multiset().add(rest@.to_multiset()) == items@.to_multiset(),
            naturally_sorted(sorted@),
        decreases rest.len(),
    {
        let ghost rest0 = rest@;
        let x = rest.remove(0);
        proof {
            assert(rest0[0] == x);
            rest0.to_multiset_ensures();
            assert(rest0.contains(x));
            assert(rest0.remove(0) =~= rest@);
            assert(rest0.to_multiset().count(x) > 0);
            assert(rest0.to_multiset() =~= rest@.to_multiset().insert(x));
        }
        let mut j: usize = sorted.len();
        while j > 0 && !natural_le(sorted[j - 1].name_str(), x.name_str())
            invariant
                j <= sorted.len(),
                j < sorted.len() ==> natural_order(x.name_view(), sorted[j as int].name_view())
                    == Ordering::Less,
            decreases j,
        {
            j = j - 1;
        }
        let ghost before = sorted@;
        sorted.insert(j, x);
        proof {
            assert(sorted@.remove(j as int) == before);
            assert(sorted@[j as int] == x);
            sorted@.to_multiset_ensures();
            assert(sorted@.contains(x));
            assert(sorted@.to_multiset().count(x) > 0);
            assert(sorted@.to_multiset() =~= before.to_multiset().insert(x));
            assert(sorted@.to_multiset().add(rest@.to_multiset()) =~= before.to_multiset().add(
                rest0.to_multiset(),
            ));
            assert forall|i: int| 0 <= i < sorted@.len() - 1 implies #[trigger] in_natural_order(
                sorted@[i].name_view(),
                sorted@[i + 1].name_view(),
            ) by {
                if i + 1 < j {
                    assert(sorted@[i] == before[i] && sorted@[i + 1] == before[i + 1]);
                    assert(in_natural_order(before[i].name_view(), before[i + 1].name_view()));
                } else if i + 1 == j {
                    assert(sorted@[i] == before[i]);
                } else if i == j {
                    assert(sorted@[i + 1] == before[j as int]);
                } else {
                    assert(sorted@[i] == before[i - 1] && sorted@[i + 1] == before[i]);
                    let k = i - 1;
                    assert(in_natural_order(before[k].name_view(), before[k + 1].name_view()));
                }
            }
        }
    }
    sorted
}

} // verus!
