//! The credentials that the wallet holds, as the core knows them.

use crate::capabilities::store::{entries_view, StoreEntry};
use crate::holder::credential::{credential_of_bytes, Credential, CredentialView};
use crate::json::optional_string_view;
use vstd::prelude::*;

verus! {

/// The state of the credentials part of the wallet.
#[derive(Clone, Debug, Default, PartialEq, Eq)]
pub struct CredentialState {
    /// The credential that the holder has selected.
    pub id: Option<String>,
    /// The credentials that the wallet holds.
    pub credentials: Vec<Credential>,
}

/// The mathematical value of a [`CredentialState`].
pub ghost struct CredentialStateView {
    pub id: Option<Seq<char>>,
    pub credentials: Seq<CredentialView>,
}

impl View for CredentialState {
    type V = CredentialStateView;

    open spec fn view(&self) -> CredentialStateView {
        CredentialStateView {
            id: optional_string_view(self.id),
            credentials: Credential::list_view(self.credentials@),
        }
    }
}

/// What reading the first `n` entries gives: the credentials of the
/// entries that hold data, in their order, up to the first entry whose
/// data is no credential, and whether every entry was read.
pub open spec fn credentials_read(entries: Seq<Option<Seq<u8>>>, n: int) -> (
    Seq<CredentialView>,
    bool,
)
    decreases n,
{
    if n <= 0 {
        (Seq::empty(), true)
    } else {
        let (front, complete) = credentials_read(entries, n - 1);
        if !complete {
            (front, false)
        } else {
            match entries[n - 1] {
                None => (front, true),
                Some(bytes) => match credential_of_bytes(bytes) {
                    Some(credential) => (front.push(credential), true),
                    None => (front, false),
                },
            }
        }
    }
}

/// The credentials that the first `n` entries stand for, in their order:
/// one for each entry that holds data, and `None` where the data of one of
/// them is no credential.
pub open spec fn credentials_of(entries: Seq<Option<Seq<u8>>>, n: int) -> Option<Seq<CredentialView>> {
    if credentials_read(entries, n).1 {
        Some(credentials_read(entries, n).0)
    } else {
        None
    }
}

/// Once an entry is no credential, reading stops: a longer front of the
/// entries gives what the shorter one gave.
pub proof fn lemma_reading_stops(entries: Seq<Option<Seq<u8>>>, n: int, m: int)
    requires
        0 <= n <= m,
        !credentials_read(entries, n).1,
    ensures
        credentials_read(entries, m) == credentials_read(entries, n),
    decreases m - n,
{
    if n < m {
        lemma_reading_stops(entries, n, m - 1);
    }
}

/// Reads the credentials that the entries of the store hold, in their
/// order, up to the first entry whose data is no credential. The flag says
/// whether every entry was read.
pub fn read_credentials(entries: &Vec<StoreEntry>) -> (read: (Vec<Credential>, bool))
    ensures
        (Credential::list_view(read.0@), read.1) == credentials_read(
            entries_view(entries@),
            entries.len() as int,
        ),
{
    let ghost all = entries_view(entries@);
    let mut credentials: Vec<Credential> = Vec::new();
    let mut i: usize = 0;
    assert(Credential::list_view(credentials@) =~= Seq::empty());
    while i < entries.len()
        invariant
            i <= entries.len(),
            all == entries_view(entries@),
            credentials_read(all, i as int) == (Credential::list_view(credentials@), true),
        decreases entries.len() - i,
    {
        match &entries[i] {
            StoreEntry::Absent => {},
            StoreEntry::Present(bytes) => match Credential::decode(bytes.as_slice()) {
                Some(credential) => {
                    let ghost before = Credential::list_view(credentials@);
                    credentials.push(credential);
                    assert(Credential::list_view(credentials@) =~= before.push(credential@));
                },
                None => {
                    proof {
                        assert(credentials_read(all, i as int + 1) == (
                            Credential::list_view(credentials@),
                            false,
                        ));
                        lemma_reading_stops(all, i as int + 1, entries.len() as int);
                    }
                    return (credentials, false);
                },
            },
        }
        i += 1;
    }
    (credentials, true)
}

impl CredentialStateView {
    /// The state with no credential selected and none held.
    pub open spec fn init() -> CredentialStateView {
        CredentialStateView { id: None, credentials: Seq::empty() }
    }

    /// The state once the entries of the store have come in: the
    /// credentials are those of the entries. Where an entry is no
    /// credential nothing changes.
    pub open spec fn with_entries(self, entries: Seq<Option<Seq<u8>>>) -> CredentialStateView {
        match credentials_of(entries, entries.len() as int) {
            Some(credentials) => CredentialStateView { credentials, ..self },
            None => self,
        }
    }
}

impl CredentialState {
    /// The state with no credential selected and none held.
    pub fn init() -> (state: CredentialState)
        ensures
            state@ == CredentialStateView::init(),
    {
        let state = CredentialState { id: None, credentials: Vec::new() };
        assert(state@.credentials =~= Seq::empty());
        state
    }

    /// A copy of this state.
    pub fn duplicate(&self) -> (copy: CredentialState)
        ensures
            copy@ == self@,
    {
        CredentialState {
            id: self.id.clone(),
            credentials: Credential::list_duplicate(&self.credentials),
        }
    }

    /// Takes in the entries that the store listed: the credentials are
    /// those that the entries hold. Where the data of an entry is no
    /// credential the state stays as it is, and the result is `false`.
    pub fn set_credentials(&mut self, entries: Vec<StoreEntry>) -> (read: bool)
        ensures
            final(self)@ == old(self)@.with_entries(entries_view(entries@)),
            read == credentials_of(entries_view(entries@), entries.len() as int).is_some(),
    {
        let (credentials, complete) = read_credentials(&entries);
        if complete {
            self.credentials = credentials;
        }
        complete
    }
}

} // verus!
