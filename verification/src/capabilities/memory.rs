//! A store that keeps its entries in memory. It answers the requests of the
//! store capability as a shell is to answer them.

use crate::capabilities::store::{
    entries_view, StoreEntry, StoreError, StoreErrorView, StoreOperation, StoreOperationView,
    StoreResponse, StoreResponseView, StoreResult, StoreResultView,
};
use vstd::prelude::*;
use vstd::string::StringExecFns;

verus! {

/// One entry of a store: data under an id in a catalog.
#[derive(Clone, Debug, PartialEq, Eq)]
pub struct Record {
    pub catalog: String,
    pub id: String,
    pub data: Vec<u8>,
}

/// The mathematical value of a [`Record`].
pub ghost struct RecordView {
    pub catalog: Seq<char>,
    pub id: Seq<char>,
    pub data: Seq<u8>,
}

impl View for Record {
    type V = RecordView;

    open spec fn view(&self) -> RecordView {
        RecordView { catalog: self.catalog@, id: self.id@, data: self.data@ }
    }
}

/// A store in memory. No id occurs twice in a catalog.
#[derive(Clone, Debug, Default, PartialEq, Eq)]
pub struct MemoryStore {
    pub records: Vec<Record>,
}

impl View for MemoryStore {
    type V = Seq<RecordView>;

    open spec fn view(&self) -> Seq<RecordView> {
        Seq::new(self.records@.len(), |i: int| self.records@[i]@)
    }
}

/// Whether a record stands under `id` in `catalog`.
pub open spec fn stands_under(record: RecordView, catalog: Seq<char>, id: Seq<char>) -> bool {
    record.catalog == catalog && record.id == id
}

/// Whether `records` holds an entry under `id` in `catalog`.
pub open spec fn holds(records: Seq<RecordView>, catalog: Seq<char>, id: Seq<char>) -> bool {
    exists|i: int| 0 <= i < records.len() && stands_under(#[trigger] records[i], catalog, id)
}

/// The records once `data` has been saved under `id` in `catalog`: in
/// place of what stood there, or at the end where nothing stood there.
pub open spec fn saved(
    records: Seq<RecordView>,
    catalog: Seq<char>,
    id: Seq<char>,
    data: Seq<u8>,
) -> Seq<RecordView> {
    if holds(records, catalog, id) {
        Seq::new(
            records.len(),
            |i: int|
                if stands_under(records[i], catalog, id) {
                    RecordView { catalog, id, data }
                } else {
                    records[i]
                },
        )
    } else {
        records.push(RecordView { catalog, id, data })
    }
}

/// The entries of `catalog` among the first `n` records, in their order.
pub open spec fn listed(records: Seq<RecordView>, catalog: Seq<char>, n: int) -> Seq<
    Option<Seq<u8>>,
>
    decreases n,
{
    if n <= 0 {
        Seq::empty()
    } else if records[n - 1].catalog == catalog {
        listed(records, catalog, n - 1).push(Some(records[n - 1].data))
    } else {
        listed(records, catalog, n - 1)
    }
}

/// The first `n` records without those under `id` in `catalog`.
pub open spec fn deleted(records: Seq<RecordView>, catalog: Seq<char>, id: Seq<char>, n: int) -> Seq<
    RecordView,
>
    decreases n,
{
    if n <= 0 {
        Seq::empty()
    } else if stands_under(records[n - 1], catalog, id) {
        deleted(records, catalog, id, n - 1)
    } else {
        deleted(records, catalog, id, n - 1).push(records[n - 1])
    }
}

/// The error for a request to delete what is not there.
pub open spec fn missing_entry() -> StoreErrorView {
    StoreErrorView::InvalidRequest { message: "no entry under the id"@ }
}

/// What a request makes of the records, and the answer to it. `Save`
/// keeps the data under the id, in place of what stood there. `List` hands
/// out the entries of the catalog. `Delete` removes the entry under the
/// id, and fails where there is none.
pub open spec fn respond(records: Seq<RecordView>, operation: StoreOperationView) -> (
    Seq<RecordView>,
    StoreResultView,
) {
    match operation {
        StoreOperationView::Save { catalog, id, data } => (
            saved(records, catalog, id, data),
            StoreResultView::Success { response: StoreResponseView::Saved },
        ),
        StoreOperationView::List { catalog } => (
            records,
            StoreResultView::Success {
                response: StoreResponseView::List {
                    entries: listed(records, catalog, records.len() as int),
                },
            },
        ),
        StoreOperationView::Delete { catalog, id } => if holds(records, catalog, id) {
            (
                deleted(records, catalog, id, records.len() as int),
                StoreResultView::Success { response: StoreResponseView::Deleted },
            )
        } else {
            (records, StoreResultView::Failure { error: missing_entry() })
        },
    }
}

/// Whether no id occurs twice in a catalog.
pub open spec fn distinct(records: Seq<RecordView>) -> bool {
    forall|i: int, j: int|
        0 <= i < j < records.len() ==> !stands_under(
            #[trigger] records[i],
            (#[trigger] records[j]).catalog,
            records[j].id,
        )
}

/// What is left after a deletion is part of what was there, in its order.
pub proof fn lemma_deleted_from(records: Seq<RecordView>, catalog: Seq<char>, id: Seq<char>, n: int)
    requires
        0 <= n <= records.len(),
    ensures
        deleted(records, catalog, id, n).len() <= n,
        forall|k: int|
            0 <= k < deleted(records, catalog, id, n).len() ==> !stands_under(
                #[trigger] deleted(records, catalog, id, n)[k],
                catalog,
                id,
            ),
        forall|k: int, l: int|
            0 <= k < l < deleted(records, catalog, id, n).len() ==> exists|i: int, j: int|
                0 <= i < j < n && records[i] == #[trigger] deleted(records, catalog, id, n)[k]
                    && records[j] == #[trigger] deleted(records, catalog, id, n)[l],
        forall|k: int|
            0 <= k < deleted(records, catalog, id, n).len() ==> exists|i: int|
                0 <= i < n && records[i] == #[trigger] deleted(records, catalog, id, n)[k],
    decreases n,
{
    if n > 0 {
        lemma_deleted_from(records, catalog, id, n - 1);
        let front = deleted(records, catalog, id, n - 1);
        let all = deleted(records, catalog, id, n);
        if !stands_under(records[n - 1], catalog, id) {
            assert forall|k: int| 0 <= k < all.len() implies exists|i: int|
                0 <= i < n && records[i] == #[trigger] all[k] by {
                if k < front.len() {
                    let i = choose|i: int| 0 <= i < n - 1 && records[i] == front[k];
                    assert(records[i] == all[k]);
                } else {
                    assert(records[n - 1] == all[k]);
                }
            }
            assert forall|k: int, l: int| 0 <= k < l < all.len() implies exists|i: int, j: int|
                0 <= i < j < n && records[i] == #[trigger] all[k] && records[j]
                    == #[trigger] all[l] by {
                if l < front.len() {
                    let (i, j) = choose|i: int, j: int|
                        0 <= i < j < n - 1 && records[i] == front[k] && records[j] == front[l];
                    assert(records[i] == all[k] && records[j] == all[l]);
                } else {
                    let i = choose|i: int| 0 <= i < n - 1 && records[i] == front[k];
                    assert(records[i] == all[k] && records[n - 1] == all[l]);
                }
            }
        }
    }
}

/// A request leaves a store in which no id occurs twice in a catalog as
/// such a store.
pub proof fn lemma_respond_distinct(records: Seq<RecordView>, operation: StoreOperationView)
    requires
        distinct(records),
    ensures
        distinct(respond(records, operation).0),
{
    let after = respond(records, operation).0;
    match operation {
        StoreOperationView::Save { catalog, id, data } => {
            if holds(records, catalog, id) {
                assert forall|i: int, j: int| 0 <= i < j < after.len() implies !stands_under(
                    #[trigger] after[i],
                    (#[trigger] after[j]).catalog,
                    after[j].id,
                ) by {
                    assert(after[i].catalog == records[i].catalog && after[i].id == records[i].id);
                    assert(after[j].catalog == records[j].catalog && after[j].id == records[j].id);
                    assert(!stands_under(records[i], records[j].catalog, records[j].id));
                }
            } else {
                assert forall|i: int, j: int| 0 <= i < j < after.len() implies !stands_under(
                    #[trigger] after[i],
                    (#[trigger] after[j]).catalog,
                    after[j].id,
                ) by {
                    if j < records.len() {
                        assert(!stands_under(records[i], records[j].catalog, records[j].id));
                    } else {
                        assert(!stands_under(records[i], catalog, id));
                    }
                }
            }
        },
        StoreOperationView::List { .. } => {},
        StoreOperationView::Delete { catalog, id } => {
            if holds(records, catalog, id) {
                lemma_deleted_from(records, catalog, id, records.len() as int);
                assert forall|k: int, l: int| 0 <= k < l < after.len() implies !stands_under(
                    #[trigger] after[k],
                    (#[trigger] after[l]).catalog,
                    after[l].id,
                ) by {
                    let (i, j) = choose|i: int, j: int|
                        0 <= i < j < records.len() && records[i] == after[k] && records[j]
                            == after[l];
                    assert(!stands_under(records[i], records[j].catalog, records[j].id));
                }
            }
        },
    }
}

/// What has been saved is listed: the entries of the catalog hold the
/// data, and hold it at the place of the record that stands under the id.
pub proof fn lemma_saved_is_listed(
    records: Seq<RecordView>,
    catalog: Seq<char>,
    id: Seq<char>,
    data: Seq<u8>,
)
    ensures
        ({
            let after = respond(records, StoreOperationView::Save { catalog, id, data }).0;
            let answer = respond(after, StoreOperationView::List { catalog }).1;
            answer matches StoreResultView::Success {
                response: StoreResponseView::List { entries },
            } && entries.contains(Some(data))
        }),
{
    let after = saved(records, catalog, id, data);
    let at = if holds(records, catalog, id) {
        choose|i: int| 0 <= i < records.len() && stands_under(#[trigger] records[i], catalog, id)
    } else {
        records.len() as int
    };
    assert(after[at] == RecordView { catalog, id, data });
    lemma_listed_holds(after, catalog, after.len() as int, at);
}

/// The entries listed for a catalog hold the data of each of its records.
pub proof fn lemma_listed_holds(records: Seq<RecordView>, catalog: Seq<char>, n: int, at: int)
    requires
        0 <= at < n <= records.len(),
        records[at].catalog == catalog,
    ensures
        listed(records, catalog, n).contains(Some(records[at].data)),
    decreases n,
{
    let all = listed(records, catalog, n);
    if at == n - 1 {
        assert(all[all.len() - 1] == Some(records[at].data));
    } else {
        lemma_listed_holds(records, catalog, n - 1, at);
        let front = listed(records, catalog, n - 1);
        let k = choose|k: int| 0 <= k < front.len() && front[k] == Some(records[at].data);
        assert(all[k] == Some(records[at].data));
    }
}

impl MemoryStore {
    /// Whether no id occurs twice in a catalog.
    pub open spec fn wf(&self) -> bool {
        distinct(self@)
    }

    /// A store that holds nothing.
    pub fn new() -> (store: MemoryStore)
        ensures
            store@ == Seq::<RecordView>::empty(),
            store.wf(),
    {
        let store = MemoryStore { records: Vec::new() };
        assert(store@ =~= Seq::empty());
        store
    }

    /// Whether the store holds an entry under `id` in `catalog`.
    fn holds(&self, catalog: &String, id: &String) -> (found: bool)
        ensures
            found == holds(self@, catalog@, id@),
    {
        let mut i: usize = 0;
        while i < self.records.len()
            invariant
                i <= self.records.len(),
                forall|k: int| 0 <= k < i ==> !stands_under(#[trigger] self@[k], catalog@, id@),
            decreases self.records.len() - i,
        {
            if self.records[i].catalog == *catalog && self.records[i].id == *id {
                assert(stands_under(self@[i as int], catalog@, id@));
                return true;
            }
            i += 1;
        }
        false
    }

    /// Carries out a request and answers it.
    pub fn respond(&mut self, operation: &StoreOperation) -> (result: StoreResult)
        ensures
            (final(self)@, result@) == respond(old(self)@, operation@),
            old(self).wf() ==> final(self).wf(),
    {
        proof {
            if distinct(self@) {
                lemma_respond_distinct(self@, operation@);
            }
        }
        match operation {
            StoreOperation::Save { catalog, id, data } => {
                let ghost before = self@;
                if self.holds(catalog, id) {
                    let mut i: usize = 0;
                    while i < self.records.len()
                        invariant
                            i <= self.records.len(),
                            self.records@.len() == before.len(),
                            forall|k: int|
                                0 <= k < before.len() ==> (#[trigger] self.records@[k]).catalog@
                                    == before[k].catalog && self.records@[k].id@ == before[k].id,
                            forall|k: int|
                                0 <= k < i ==> (#[trigger] self.records@[k]).data@ == if stands_under(
                                    before[k],
                                    catalog@,
                                    id@,
                                ) {
                                    data@
                                } else {
                                    before[k].data
                                },
                            forall|k: int|
                                i <= k < before.len() ==> (#[trigger] self.records@[k]).data@
                                    == before[k].data,
                            holds(before, catalog@, id@),
                        decreases self.records.len() - i,
                    {
                        if self.records[i].catalog == *catalog && self.records[i].id == *id {
                            let copy = data.clone();
                            assert(copy@ =~= data@);
                            self.records[i].data = copy;
                        }
                        i += 1;
                    }
                    assert(self@ =~= saved(before, catalog@, id@, data@));
                } else {
                    let copy = data.clone();
                    assert(copy@ =~= data@);
                    self.records.push(Record { catalog: catalog.clone(), id: id.clone(), data: copy });
                    assert(self@ =~= saved(before, catalog@, id@, data@));
                }
                StoreResult::Success { response: StoreResponse::Saved }
            },
            StoreOperation::List { catalog } => {
                let mut entries: Vec<StoreEntry> = Vec::new();
                let mut i: usize = 0;
                assert(entries_view(entries@) =~= listed(
                    self@,
                    catalog@,
                    0,
                ));
                while i < self.records.len()
                    invariant
                        i <= self.records.len(),
                        entries_view(entries@) == listed(
                            self@,
                            catalog@,
                            i as int,
                        ),
                    decreases self.records.len() - i,
                {
                    let ghost before = entries_view(entries@);
                    assert(self@[i as int] == self.records@[i as int]@);
                    if self.records[i].catalog == *catalog {
                        let copy = self.records[i].data.clone();
                        assert(copy@ =~= self.records@[i as int].data@);
                        entries.push(StoreEntry::Present(copy));
                        assert(entries_view(entries@) =~= before.push(
                            Some(self.records@[i as int].data@),
                        ));
                    }
                    i += 1;
                }
                StoreResult::Success { response: StoreResponse::List { entries } }
            },
            StoreOperation::Delete { catalog, id } => {
                if !self.holds(catalog, id) {
                    return StoreResult::Failure {
                        error: StoreError::InvalidRequest {
                            message: String::from_str("no entry under the id"),
                        },
                    };
                }
                let ghost before = self@;
                let mut kept: Vec<Record> = Vec::new();
                let mut i: usize = 0;
                assert(Seq::new(kept@.len(), |k: int| kept@[k]@) =~= deleted(
                    before,
                    catalog@,
                    id@,
                    0,
                ));
                while i < self.records.len()
                    invariant
                        i <= self.records.len(),
                        before == self@,
                        Seq::new(kept@.len(), |k: int| kept@[k]@) == deleted(
                            before,
                            catalog@,
                            id@,
                            i as int,
                        ),
                    decreases self.records.len() - i,
                {
                    let ghost so_far = Seq::new(kept@.len(), |k: int| kept@[k]@);
                    assert(self@[i as int] == self.records@[i as int]@);
                    if !(self.records[i].catalog == *catalog && self.records[i].id == *id) {
                        let copy = self.records[i].data.clone();
                        assert(copy@ =~= self.records@[i as int].data@);
                        let record = Record {
                            catalog: self.records[i].catalog.clone(),
                            id: self.records[i].id.clone(),
                            data: copy,
                        };
                        kept.push(record);
                        assert(Seq::new(kept@.len(), |k: int| kept@[k]@) =~= so_far.push(
                            self@[i as int],
                        ));
                    }
                    i += 1;
                }
                self.records = kept;
                assert(self@ =~= deleted(before, catalog@, id@, before.len() as int));
                StoreResult::Success { response: StoreResponse::Deleted }
            },
        }
    }
}

} // verus!
