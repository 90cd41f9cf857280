//! What holds of the record across several appends.
use vstd::prelude::*;
use crate::store::{new_entry, ProjectEntry, StoreModel};
use anchor_lang::solana_program::pubkey::Pubkey;

verus! {

/// The record after the entries `es` are appended to `s` one by one, in order,
/// each append succeeding.
pub open spec fn added_all(s: StoreModel, es: Seq<ProjectEntry>) -> StoreModel
    decreases es.len(),
{
    if es.len() == 0 {
        s
    } else {
        added_all(s, es.drop_last()).added(es.last())
    }
}

/// Appending entries one by one raises the count by their number and extends
/// the entries by exactly them, in call order.
pub proof fn lemma_added_all(s: StoreModel, es: Seq<ProjectEntry>)
    ensures
        added_all(s, es).total == s.total + es.len(),
        added_all(s, es).entries == s.entries + es,
    decreases es.len(),
{
    if es.len() > 0 {
        lemma_added_all(s, es.drop_last());
        assert(s.entries + es =~= (s.entries + es.drop_last()).push(es.last()));
    }
}

/// After N successful appends to a freshly created record, the count is N and
/// the entries are the N appended ones, in call order.
pub proof fn lemma_appends_from_empty(es: Seq<ProjectEntry>)
    ensures
        added_all(StoreModel::empty(), es).total == es.len(),
        added_all(StoreModel::empty(), es).entries == es,
{
    lemma_added_all(StoreModel::empty(), es);
    assert(Seq::<ProjectEntry>::empty() + es =~= es);
}

/// Appends never change an entry that was already stored.
pub proof fn lemma_appends_keep_entries(s: StoreModel, es: Seq<ProjectEntry>, i: int)
    requires
        0 <= i < s.entries.len(),
    ensures
        added_all(s, es).entries[i] == s.entries[i],
{
    lemma_added_all(s, es);
}

/// Two appends with the same arguments by the same signer store two entries,
/// one after the other, each tagged with that signer.
pub proof fn lemma_duplicates_kept(
    s: StoreModel,
    link: Seq<char>,
    title: Seq<char>,
    kind: Seq<char>,
    user: Pubkey,
)
    ensures
        ({
            let e = new_entry(link, title, kind, user);
            let t = s.added(e).added(e);
            let n = s.entries.len() as int;
            &&& t.total == s.total + 2
            &&& t.entries.len() == n + 2
            &&& t.entries.take(n) == s.entries
            &&& t.entries[n] == e
            &&& t.entries[n + 1] == e
            &&& t.entries[n].submitter == user
            &&& t.entries[n + 1].submitter == user
        }),
{
    let e = new_entry(link, title, kind, user);
    let n = s.entries.len() as int;
    assert(s.added(e).added(e).entries.take(n) =~= s.entries);
}

} // verus!
