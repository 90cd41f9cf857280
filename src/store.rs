//! The storage account, its serialized size, and the two entry points.
use vstd::prelude::*;
use vstd::utf8::encode_utf8;
use anchor_lang::solana_program::pubkey::Pubkey;

verus! {

/// Bytes allocated to the storage account when it is created.
pub const ACCOUNT_SPACE: usize = 9000;

/// Bytes of the allocation taken by the runtime's account-type tag.
pub const DISCRIMINATOR_LEN: usize = 8;

/// Bytes left for the serialized record.
pub const DATA_CAPACITY: usize = ACCOUNT_SPACE - DISCRIMINATOR_LEN;

/// Width of a serialized address.
pub const PUBKEY_LEN: usize = 32;

/// One submitted project.
#[derive(Debug)]
pub struct ItemStruct {
    pub project_link: String,
    pub project_title: String,
    pub project_type: String,
    pub user_address: Pubkey,
}

/// What an entry holds, as values.
pub struct ProjectEntry {
    pub link: Seq<char>,
    pub title: Seq<char>,
    pub kind: Seq<char>,
    pub submitter: Pubkey,
}

impl View for ItemStruct {
    type V = ProjectEntry;

    open spec fn view(&self) -> ProjectEntry {
        ProjectEntry {
            link: self.project_link@,
            title: self.project_title@,
            kind: self.project_type@,
            submitter: self.user_address,
        }
    }
}

/// The storage record: the running count and the entries in submission order.
#[derive(Debug)]
pub struct BaseAccount {
    pub total_projects: u64,
    pub project_list: Vec<ItemStruct>,
}

/// What a storage record holds, as values.
pub struct StoreModel {
    pub total: nat,
    pub entries: Seq<ProjectEntry>,
}

impl View for BaseAccount {
    type V = StoreModel;

    open spec fn view(&self) -> StoreModel {
        StoreModel {
            total: self.total_projects as nat,
            entries: self.project_list@.map_values(|i: ItemStruct| i@),
        }
    }
}

/// Serialized width of a string: a four-byte length, then its UTF-8 bytes.
pub open spec fn string_size(s: Seq<char>) -> nat {
    4 + encode_utf8(s).len()
}

/// Serialized width of one entry: three strings and an address.
pub open spec fn entry_size(e: ProjectEntry) -> nat {
    string_size(e.link) + string_size(e.title) + string_size(e.kind) + PUBKEY_LEN as nat
}

/// Serialized width of a run of entries, without the run's length prefix.
pub open spec fn entries_size(es: Seq<ProjectEntry>) -> nat
    decreases es.len(),
{
    if es.len() == 0 {
        0
    } else {
        entries_size(es.drop_last()) + entry_size(es.last())
    }
}

/// The entry that a call of `add_project` records.
pub open spec fn new_entry(link: Seq<char>, title: Seq<char>, kind: Seq<char>, user: Pubkey) -> ProjectEntry {
    ProjectEntry { link, title, kind, submitter: user }
}

impl StoreModel {
    /// A freshly created record: no entries, count zero.
    pub open spec fn empty() -> StoreModel {
        StoreModel { total: 0, entries: Seq::empty() }
    }

    /// Serialized width: the eight-byte count, the four-byte list length, the entries.
    pub open spec fn size(self) -> nat {
        8 + 4 + entries_size(self.entries)
    }

    /// The count matches the entries, and the record fits its allocation.
    pub open spec fn wf(self) -> bool {
        &&& self.total == self.entries.len()
        &&& self.size() <= DATA_CAPACITY
    }

    /// Whether one more entry still fits the allocation.
    pub open spec fn fits(self, e: ProjectEntry) -> bool {
        self.size() + entry_size(e) <= DATA_CAPACITY
    }

    /// The record after one more entry is appended.
    pub open spec fn added(self, e: ProjectEntry) -> StoreModel {
        StoreModel { total: self.total + 1, entries: self.entries.push(e) }
    }
}

impl BaseAccount {
    pub open spec fn wf(&self) -> bool {
        self@.wf()
    }
}

/// Why an append was refused.
#[derive(Debug, Clone, Copy, PartialEq, Eq, Structural)]
pub enum ProjectError {
    /// The serialized record would no longer fit the account's allocation.
    AccountFull,
}

/// The accounts that `initialize` works on.
pub struct Initialize {
    /// The storage record being created.
    pub base_account: BaseAccount,
    /// Who pays for the allocation.
    pub user: Pubkey,
}

/// The accounts that `add_project` works on.
pub struct AddProject {
    /// The existing storage record.
    pub base_account: BaseAccount,
    /// The signer submitting the project.
    pub user: Pubkey,
}

/// Sets the storage record to its zeroed state: count zero, no entries.
pub fn initialize(ctx: &mut Initialize)
    ensures
        final(ctx).base_account@ == StoreModel::empty(),
        final(ctx).base_account.wf(),
        final(ctx).user == old(ctx).user,
{
    ctx.base_account.total_projects = 0;
    ctx.base_account.project_list = Vec::new();
    assert(ctx.base_account@.entries =~= Seq::<ProjectEntry>::empty());
}

/// Appending an entry adds its width to the run's width.
proof fn lemma_entries_size_step(es: Seq<ProjectEntry>, i: int)
    requires
        0 <= i < es.len(),
    ensures
        entries_size(es.take(i + 1)) == entries_size(es.take(i)) + entry_size(es[i]),
{
    assert(es.take(i + 1).drop_last() =~= es.take(i));
}

/// A prefix of a run is no wider than the run.
proof fn lemma_entries_size_prefix(es: Seq<ProjectEntry>, i: int)
    requires
        0 <= i <= es.len(),
    ensures
        entries_size(es.take(i)) <= entries_size(es),
    decreases es.len() - i,
{
    if i < es.len() {
        lemma_entries_size_step(es, i);
        lemma_entries_size_prefix(es, i + 1);
    } else {
        assert(es.take(i) =~= es);
    }
}

/// Every entry takes at least one byte, so a run is at least as wide as it is long.
proof fn lemma_entries_size_bounds_len(es: Seq<ProjectEntry>)
    ensures
        es.len() <= entries_size(es),
    decreases es.len(),
{
    if es.len() > 0 {
        lemma_entries_size_bounds_len(es.drop_last());
    }
}

/// The number of UTF-8 bytes of `s`.
fn utf8_len(s: &String) -> (r: usize)
    ensures
        r == encode_utf8(s@).len(),
{
    s.as_str().as_bytes().len()
}

/// The serialized width of an entry with these three strings.
fn entry_len(link: &String, title: &String, kind: &String) -> (r: u128)
    ensures
        r == string_size(link@) + string_size(title@) + string_size(kind@) + PUBKEY_LEN,
        r <= 4 * (usize::MAX as u128),
{
    12 + PUBKEY_LEN as u128 + utf8_len(link) as u128 + utf8_len(title) as u128 + utf8_len(
        kind,
    ) as u128
}

impl BaseAccount {
    /// The number of bytes that the serialized record takes.
    pub fn serialized_len(&self) -> (r: usize)
        requires
            self@.size() <= DATA_CAPACITY,
        ensures
            r == self@.size(),
    {
        let ghost es = self@.entries;
        let mut total: usize = 12;
        let mut i: usize = 0;
        while i < self.project_list.len()
            invariant
                es == self@.entries,
                es.len() == self.project_list.len(),
                0 <= i <= es.len(),
                total == 12 + entries_size(es.take(i as int)),
                12 + entries_size(es) <= DATA_CAPACITY,
            decreases es.len() - i,
        {
            proof {
                lemma_entries_size_step(es, i as int);
                lemma_entries_size_prefix(es, i as int + 1);
                assert(es[i as int] == self.project_list@[i as int]@);
            }
            let item = &self.project_list[i];
            let n = entry_len(&item.project_link, &item.project_title, &item.project_type);
            total = total + n as usize;
            i = i + 1;
        }
        proof {
            assert(es.take(i as int) =~= es);
        }
        total
    }

    /// Whether the count matches the entries and the serialized record fits
    /// the account's allocation.
    pub fn is_well_formed(&self) -> (r: bool)
        ensures
            r == self.wf(),
    {
        let ghost es = self@.entries;
        let mut total: usize = 12;
        let mut i: usize = 0;
        while i < self.project_list.len()
            invariant
                es == self@.entries,
                es.len() == self.project_list.len(),
                0 <= i <= es.len(),
                total == 12 + entries_size(es.take(i as int)),
                total <= DATA_CAPACITY,
            decreases es.len() - i,
        {
            proof {
                lemma_entries_size_step(es, i as int);
                lemma_entries_size_prefix(es, i as int + 1);
                assert(es[i as int] == self.project_list@[i as int]@);
            }
            let item = &self.project_list[i];
            let n = entry_len(&item.project_link, &item.project_title, &item.project_type);
            if total as u128 + n > DATA_CAPACITY as u128 {
                return false;
            }
            total = total + n as usize;
            i = i + 1;
        }
        proof {
            assert(es.take(i as int) =~= es);
        }
        self.total_projects as u128 == self.project_list.len() as u128
    }
}

/// Appends one entry, submitted by `ctx.user`, and counts it, when the
/// serialized record still fits the account's allocation. Otherwise nothing
/// changes and the append is refused.
pub fn add_project(
    ctx: &mut AddProject,
    project_link: String,
    project_title: String,
    project_type: String,
) -> (r: Result<(), ProjectError>)
    requires
        old(ctx).base_account.wf(),
    ensures
        final(ctx).user == old(ctx).user,
        final(ctx).base_account.wf(),
        r is Ok <==> old(ctx).base_account@.fits(
            new_entry(project_link@, project_title@, project_type@, old(ctx).user),
        ),
        r is Ok ==> final(ctx).base_account@ == old(ctx).base_account@.added(
            new_entry(project_link@, project_title@, project_type@, old(ctx).user),
        ),
        r is Err ==> r == Err::<(), ProjectError>(ProjectError::AccountFull) && *final(ctx)
            == *old(ctx),
{
    let used = ctx.base_account.serialized_len();
    let need = entry_len(&project_link, &project_title, &project_type);
    if used as u128 + need > DATA_CAPACITY as u128 {
        return Err(ProjectError::AccountFull);
    }
    let ghost before = ctx.base_account@;
    let item = ItemStruct {
        project_link,
        project_title,
        project_type,
        user_address: ctx.user,
    };
    proof {
        lemma_entries_size_bounds_len(before.entries);
    }
    ctx.base_account.project_list.push(item);
    ctx.base_account.total_projects = ctx.base_account.total_projects + 1;
    proof {
        let after = ctx.base_account@;
        assert(after.entries =~= before.entries.push(item@));
        assert(after.entries.drop_last() =~= before.entries);
    }
    Ok(())
}

} // verus!
