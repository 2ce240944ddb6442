//! What the event-draining driver decides: which user accounts to hand to
//! the next draining operation, and which failures of a submission are
//! none.
use crate::address::{lemma_precedes_transitive, precedes, strictly_sorted, Address, Rank};
use crate::consume_events::{Event, Params};
use vstd::prelude::*;

verus! {

/// The most events that one operation of the driver drains.
pub const MAX_ITERATIONS: u64 = 10;

/// The most user accounts that one operation of the driver names.
pub const MAX_NUMBER_OF_USER_ACCOUNTS: usize = 20;

/// The user account whose ledger the event changes: the maker of a fill,
/// the owner of an order that left the book.
pub open spec fn spec_event_account(event: Event) -> Address {
    match event {
        Event::Fill { maker_callback_info, .. } => maker_callback_info.user_account,
        Event::Out { callback_info, .. } => callback_info.user_account,
    }
}

/// The user account whose ledger the event changes.
pub fn event_account(event: &Event) -> (r: Address)
    ensures
        r == spec_event_account(*event),
{
    match event {
        Event::Fill { maker_callback_info, .. } => maker_callback_info.user_account,
        Event::Out { callback_info, .. } => callback_info.user_account,
    }
}

/// The addresses of a list, as byte sequences.
pub open spec fn address_views(list: Seq<Address>) -> Seq<Seq<u8>> {
    list.map_values(|a: Address| a@)
}

/// The accounts of the first events of the queue, up to `cap` of them.
pub open spec fn spec_wanted_accounts(events: Seq<Event>, cap: int) -> Seq<Seq<u8>> {
    events.take(if events.len() < cap { events.len() as int } else { cap }).map_values(
        |e: Event| spec_event_account(e)@,
    )
}

/// Puts `key` at its place in a list of addresses in strictly increasing
/// order, unless it is there already.
pub fn insert_sorted(list: &mut Vec<Address>, key: Address)
    requires
        strictly_sorted(address_views(old(list)@)),
    ensures
        strictly_sorted(address_views(final(list)@)),
        forall|k: Seq<u8>|
            address_views(final(list)@).contains(k) <==> (address_views(old(list)@).contains(k)
                || k == key@),
        final(list).len() <= old(list).len() + 1,
{
    let ghost before = address_views(list@);
    let mut i: usize = 0;
    let mut found: bool = false;
    while i < list.len() && !found
        invariant
            0 <= i <= list.len(),
            list@ == old(list)@,
            before == address_views(list@),
            strictly_sorted(before),
            forall|j: int| 0 <= j < i - (if found { 1int } else { 0int }) ==> precedes(#[trigger] before[j], key@),
            found ==> i >= 1 && !precedes(before[i - 1], key@),
        decreases list.len() - i + (if found { 0int } else { 1int }),
    {
        match list[i].rank(&key) {
            Rank::Before => {},
            _ => {
                found = true;
            },
        }
        i += 1;
    }
    let at: usize = if found { i - 1 } else { i };
    if found {
        assert(before[at as int] == list[at as int]@);
        match list[at].rank(&key) {
            Rank::Same => {
                return ;
            },
            _ => {},
        }
        assert(precedes(key@, before[at as int]));
    }
    list.insert(at, key);
    proof {
        let after = address_views(list@);
        assert(after =~= before.insert(at as int, key@));
        assert forall|a: int, b: int| 0 <= a < b < after.len() implies precedes(
            #[trigger] after[a],
            #[trigger] after[b],
        ) by {
            if b < at {
                assert(precedes(before[a], before[b]));
            } else if b == at {
                assert(precedes(before[a], key@));
            } else if a < at {
                assert(after[b] == before[b - 1]);
                if at < before.len() {
                    if b - 1 == at {
                        lemma_precedes_transitive(before[a], key@, before[at as int]);
                    } else {
                        assert(precedes(before[a], before[b - 1]));
                    }
                }
            } else if a == at {
                assert(after[b] == before[b - 1]);
                if b - 1 > at {
                    assert(precedes(before[at as int], before[b - 1]));
                    lemma_precedes_transitive(key@, before[at as int], before[b - 1]);
                }
            } else {
                assert(after[a] == before[a - 1]);
                assert(after[b] == before[b - 1]);
                assert(precedes(before[a - 1], before[b - 1]));
            }
        }
        assert forall|k: Seq<u8>| after.contains(k) <==> (before.contains(k) || k == key@) by {
            if after.contains(k) {
                let p = choose|p: int| 0 <= p < after.len() && after[p] == k;
                if p < at {
                    assert(before[p] == k);
                } else if p > at {
                    assert(before[p - 1] == k);
                }
            }
            if before.contains(k) {
                let p = choose|p: int| 0 <= p < before.len() && before[p] == k;
                if p < at {
                    assert(after[p] == k);
                } else {
                    assert(after[p + 1] == k);
                }
            }
            if k == key@ {
                assert(after[at as int] == k);
            }
        }
    }
}

/// The user accounts to hand to the next draining operation: those that the
/// twenty oldest events of the queue name, each once, in increasing order of
/// address, as the operation requires of its account list.
pub fn crank_accounts(events: &Vec<Event>) -> (r: Vec<Address>)
    ensures
        strictly_sorted(address_views(r@)),
        r.len() <= 20,
        forall|k: Seq<u8>|
            address_views(r@).contains(k) <==> spec_wanted_accounts(events@, 20).contains(k),
{
    let mut list: Vec<Address> = Vec::new();
    let n: usize = if events.len() < MAX_NUMBER_OF_USER_ACCOUNTS {
        events.len()
    } else {
        MAX_NUMBER_OF_USER_ACCOUNTS
    };
    let ghost wanted = spec_wanted_accounts(events@, 20);
    let mut i: usize = 0;
    assert(address_views(list@) =~= Seq::<Seq<u8>>::empty());
    while i < n
        invariant
            0 <= i <= n,
            n <= events.len(),
            n <= 20,
            wanted == spec_wanted_accounts(events@, 20),
            wanted.len() == n,
            list.len() <= i,
            strictly_sorted(address_views(list@)),
            forall|k: Seq<u8>|
                address_views(list@).contains(k) <==> wanted.take(i as int).contains(k),
        decreases n - i,
    {
        let key = event_account(&events[i]);
        insert_sorted(&mut list, key);
        proof {
            assert(wanted[i as int] == key@);
            assert(wanted.take(i + 1) =~= wanted.take(i as int).push(key@));
            let shorter = wanted.take(i as int);
            let longer = wanted.take(i + 1);
            assert forall|k: Seq<u8>| address_views(list@).contains(k) <==> longer.contains(k) by {
                if longer.contains(k) {
                    let p = choose|p: int| 0 <= p < longer.len() && longer[p] == k;
                    if p < i {
                        assert(shorter[p] == k);
                    }
                }
                if shorter.contains(k) {
                    let p = choose|p: int| 0 <= p < shorter.len() && shorter[p] == k;
                    assert(longer[p] == k);
                }
                if k == key@ {
                    assert(longer[i as int] == k);
                }
            }
        }
        i += 1;
    }
    assert(wanted.take(n as int) =~= wanted);
    list
}

/// The arguments with which the driver drains events: a bounded batch, and
/// a failure when nothing could be drained.
pub fn crank_params() -> (r: Params)
    ensures
        r.max_iterations == 10,
        r.no_op_err == 1,
{
    Params { max_iterations: MAX_ITERATIONS, no_op_err: 1 }
}

/// How a submission to the host ledger ended.
#[derive(Clone, Copy, Debug, PartialEq, Eq)]
pub enum Submission {
    /// It was accepted under the given signature.
    Sent([u8; 64]),
    /// The ledger's trial run refused it; the operation failed with the
    /// given code of the exchange, if with one.
    PreflightFailure(Option<u32>),
    /// It failed otherwise.
    Failed,
}

/// Whether the submission counts as done.
pub open spec fn spec_is_done(s: Submission) -> bool {
    s is Sent
}

/// Whether the failure is the exchange saying that there was nothing to do.
pub open spec fn spec_is_no_op(s: Submission) -> bool {
    s == Submission::PreflightFailure(Some(5u32))
}

/// Treats the failure "nothing to do" of a trial run as a success under an
/// empty signature, so that a drained queue does not make the driver spin;
/// everything else is passed on as it is.
pub fn no_op_filter(r: Submission) -> (out: Submission)
    ensures
        spec_is_no_op(r) ==> out is Sent && out->Sent_0@ == Seq::new(64, |i: int| 0u8),
        !spec_is_no_op(r) ==> out == r,
{
    match r {
        Submission::PreflightFailure(Some(code)) => {
            if code == 5 {
                let blank = [0u8; 64];
                assert(blank@ =~= Seq::new(64, |i: int| 0u8));
                Submission::Sent(blank)
            } else {
                r
            }
        },
        _ => r,
    }
}

/// Whether the driver must try again: it does until a submission, after
/// the filter, is done.
pub fn must_retry(filtered: &Submission) -> (r: bool)
    ensures
        r == !spec_is_done(*filtered),
{
    match filtered {
        Submission::Sent(_) => false,
        _ => true,
    }
}

} // verus!
