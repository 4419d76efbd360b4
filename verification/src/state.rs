//! The shard store: loading, writing and initialising the sealed state of a
//! shard, and listing the shards that exist.
//!
//! Each operation is a small machine. The function named after the operation
//! starts it, and the function ending in `_resume` takes it on from the
//! driver's answer: see [`crate::storage`].
//!
//! The store does not order its callers: two operations on one shard at the
//! same time must be kept apart by whoever drives them.

use crate::encoding::{
    scale_decode_map, scale_decoded_map, scale_encodable, scale_encode_map, scale_encoded_map,
};
use crate::error::StoreError;
use crate::shard::{
    shard_from_name, shard_of_name, shard_path, shard_path_text, state_path, state_path_text, H256,
    ShardIdentifier, SHARDS_PATH,
};
use crate::storage::{EntryName, EntryNameView, Reply, ReplyView, Request, RequestView, Step};
use std::collections::BTreeMap;
use vstd::prelude::*;
use vstd::string::StringExecFns;

verus! {

/// The state proper: what is sealed and stored.
pub type StateType = BTreeMap<Vec<u8>, Vec<u8>>;

/// Changes made to a state since it was loaded; never stored.
pub type StateDiffType = BTreeMap<Vec<u8>, Option<Vec<u8>>>;

/// A state in memory: the value that is stored, and the changes made to it
/// since.
#[derive(Clone, Debug, PartialEq, Eq)]
pub struct State {
    /// The value.
    pub state: StateType,
    /// The changes; empty right after a load.
    pub state_diff: StateDiffType,
}

impl State {
    /// The value as a map from keys to what they hold.
    pub open spec fn value(&self) -> Map<Seq<u8>, Seq<u8>> {
        self.state.deep_view()
    }

    /// Whether no change is recorded.
    pub open spec fn unchanged(&self) -> bool {
        self.state_diff@ == Map::<Vec<u8>, Option<Vec<u8>>>::empty()
    }

    /// The state that holds `value` and no changes.
    pub fn from_value(value: StateType) -> (state: State)
        ensures
            state.state == value,
            state.value() == value.deep_view(),
            state.unchanged(),
    {
        State { state: value, state_diff: BTreeMap::new() }
    }
}

impl Default for State {
    /// The state that holds nothing and no changes.
    fn default() -> (state: State)
        ensures
            state.state@ == Map::<Vec<u8>, Vec<u8>>::empty(),
            state.unchanged(),
    {
        State { state: BTreeMap::new(), state_diff: BTreeMap::new() }
    }
}

/// Where a load stands.
#[derive(Clone, Copy, Debug, PartialEq, Eq, Structural)]
pub enum LoadState {
    /// The state file is being read.
    Reading,
    /// What the file held is being unsealed.
    Unsealing,
}

/// What `plaintext` stands for: the state of a shard that holds nothing yet
/// where there are no bytes, and else what the bytes decode to, if they do.
pub open spec fn state_of_plaintext(plaintext: Seq<u8>, initial: Map<Seq<u8>, Seq<u8>>) -> Option<
    Map<Seq<u8>, Seq<u8>>,
> {
    if plaintext.len() == 0 {
        Some(initial)
    } else {
        scale_decoded_map(plaintext)
    }
}

/// Starts loading the state of `shard`: its state file is to be read.
pub fn load(shard: &ShardIdentifier) -> (step: Step<LoadState, State>)
    ensures
        step.asks(
            |at: LoadState| at == LoadState::Reading,
            (RequestView::ReadFile { path: state_path_text(shard@) }),
        ),
{
    Step::Ask(LoadState::Reading, Request::ReadFile { path: state_path(shard) })
}

/// Ends a load with the state that `plaintext` stands for.
fn load_plaintext(plaintext: Vec<u8>, initial: State) -> (step: Step<LoadState, State>)
    ensures
        match state_of_plaintext(plaintext@, initial.value()) {
            Some(value) => step.yields(|state: State| state.value() == value && state.unchanged()),
            None => step.fails(StoreError::Decode),
        },
{
    if plaintext.len() == 0 {
        Step::Done(Ok(State::from_value(initial.state)))
    } else {
        match scale_decode_map(plaintext.as_slice()) {
            Ok(value) => Step::Done(Ok(State::from_value(value))),
            Err(_) => Step::Done(Err(StoreError::Decode)),
        }
    }
}

/// Takes a load on from the driver's answer. `initial` is the state of a
/// shard that holds nothing yet.
///
/// An empty state file stands for such a shard and is not unsealed. What a
/// file that is not empty holds is unsealed, and the plaintext is decoded,
/// unless it is empty: then it stands for `initial` too. The state that is
/// loaded has no changes recorded, whatever `initial` has.
///
/// A file that cannot be read fails the load with [`StoreError::Io`],
/// bytes that cannot be unsealed with [`StoreError::Crypto`], and plaintext
/// that does not decode with [`StoreError::Decode`]: no state is made up in
/// place of one that could not be had.
pub fn load_resume(at: LoadState, reply: Reply, initial: State) -> (step: Step<LoadState, State>)
    ensures
        match (at, reply@) {
            (LoadState::Reading, ReplyView::Bytes(sealed)) => if sealed.len() == 0 {
                step.yields(|state: State| state.value() == initial.value() && state.unchanged())
            } else {
                step.asks(
                    |next: LoadState| next == LoadState::Unsealing,
                    (RequestView::Unseal { bytes: sealed }),
                )
            },
            (LoadState::Reading, _) => step.fails(StoreError::Io),
            (LoadState::Unsealing, ReplyView::Bytes(plaintext)) => match state_of_plaintext(
                plaintext,
                initial.value(),
            ) {
                Some(value) => step.yields(
                    |state: State| state.value() == value && state.unchanged(),
                ),
                None => step.fails(StoreError::Decode),
            },
            (LoadState::Unsealing, _) => step.fails(StoreError::Crypto),
        },
{
    match at {
        LoadState::Reading => match reply {
            Reply::Bytes(sealed) => {
                if sealed.len() == 0 {
                    load_plaintext(sealed, initial)
                } else {
                    Step::Ask(LoadState::Unsealing, Request::Unseal { bytes: sealed })
                }
            },
            _ => Step::Done(Err(StoreError::Io)),
        },
        LoadState::Unsealing => match reply {
            Reply::Bytes(plaintext) => load_plaintext(plaintext, initial),
            _ => Step::Done(Err(StoreError::Crypto)),
        },
    }
}

/// Where a write stands.
#[derive(Debug)]
pub enum WriteState {
    /// The encoded value is being sealed; the file to write is `path`.
    Sealing { path: String },
    /// `ciphertext` is being hashed; the file to write is `path`.
    Hashing { path: String, ciphertext: Vec<u8> },
    /// The ciphertext, whose hash is `hash`, is being written.
    Storing { hash: H256 },
}

/// A [`WriteState`] as contracts speak of it.
pub enum WriteStateView {
    Sealing { path: Seq<char> },
    Hashing { path: Seq<char>, ciphertext: Seq<u8> },
    Storing { hash: Seq<u8> },
}

impl View for WriteState {
    type V = WriteStateView;

    open spec fn view(&self) -> WriteStateView {
        match self {
            WriteState::Sealing { path } => WriteStateView::Sealing { path: path@ },
            WriteState::Hashing { path, ciphertext } => WriteStateView::Hashing {
                path: path@,
                ciphertext: ciphertext@,
            },
            WriteState::Storing { hash } => WriteStateView::Storing { hash: hash@ },
        }
    }
}

/// The bytes that are sealed when `state` is written: the encoding of its
/// value. The changes recorded in `state` have no part in them.
pub open spec fn plaintext_of(state: State) -> Seq<u8> {
    scale_encoded_map(state.value())
}

/// Two states with the same value are written alike, whatever changes they
/// record: the same bytes are sealed, and what follows depends on those
/// bytes, on the shard and on the driver's answers alone.
pub proof fn lemma_write_ignores_changes(a: State, b: State)
    requires
        a.value() == b.value(),
    ensures
        plaintext_of(a) == plaintext_of(b),
{
}

/// A load gives back the value that was written, with no changes recorded,
/// where the plaintext that the load decodes is the one that the write
/// sealed, and where the codec reads back from it what it encoded. A write
/// never seals an empty plaintext, so a written value is never taken for
/// that of a shard that holds nothing yet.
pub proof fn lemma_load_gives_written_value(written: State, initial: Map<Seq<u8>, Seq<u8>>)
    requires
        plaintext_of(written).len() > 0,
        scale_decoded_map(plaintext_of(written)) == Some(written.value()),
    ensures
        state_of_plaintext(plaintext_of(written), initial) == Some(written.value()),
{
}

/// Starts writing `state` as the state of `shard`: the encoding of its value
/// is to be sealed. The changes recorded in `state` are dropped.
///
/// The codec writes every length in 32 bits; a value with a longer key or
/// entry, or with more entries than that, is not for this function.
pub fn write(state: State, shard: &ShardIdentifier) -> (step: Step<WriteState, H256>)
    requires
        scale_encodable(state.value()),
    ensures
        step.asks(
            |at: WriteState| at@ == (WriteStateView::Sealing { path: state_path_text(shard@) }),
            (RequestView::Seal { bytes: plaintext_of(state) }),
        ),
        plaintext_of(state).len() > 0,
{
    let path = state_path(shard);
    let plaintext = scale_encode_map(&state.state);
    Step::Ask(WriteState::Sealing { path }, Request::Seal { bytes: plaintext })
}

/// Takes a write on from the driver's answer.
///
/// The ciphertext is hashed, then it replaces what the state file held, and
/// the write ends with the hash. The hash is that of the ciphertext: it says
/// nothing of the plaintext where sealing the same bytes twice gives
/// different ciphertexts.
///
/// Sealing or hashing that fails ends the write with
/// [`StoreError::Crypto`] before the file is touched; a file that cannot be
/// written ends it with [`StoreError::Io`].
pub fn write_resume(at: WriteState, reply: Reply) -> (step: Step<WriteState, H256>)
    ensures
        match (at@, reply@) {
            (WriteStateView::Sealing { path }, ReplyView::Bytes(ciphertext)) => step.asks(
                |next: WriteState| next@ == (WriteStateView::Hashing { path, ciphertext }),
                (RequestView::Hash { bytes: ciphertext }),
            ),
            (WriteStateView::Sealing { .. }, _) => step.fails(StoreError::Crypto),
            (WriteStateView::Hashing { path, ciphertext }, ReplyView::Digest(hash)) => step.asks(
                |next: WriteState| next@ == (WriteStateView::Storing { hash }),
                (RequestView::WriteFile { path, bytes: ciphertext }),
            ),
            (WriteStateView::Hashing { .. }, _) => step.fails(StoreError::Crypto),
            (WriteStateView::Storing { hash }, ReplyView::Done) => step.yields(
                |written: H256| written@ == hash,
            ),
            (WriteStateView::Storing { .. }, _) => step.fails(StoreError::Io),
        },
{
    match at {
        WriteState::Sealing { path } => match reply {
            Reply::Bytes(ciphertext) => {
                let bytes = ciphertext.clone();
                assert(bytes@ =~= ciphertext@);
                Step::Ask(WriteState::Hashing { path, ciphertext }, Request::Hash { bytes })
            },
            _ => Step::Done(Err(StoreError::Crypto)),
        },
        WriteState::Hashing { path, ciphertext } => match reply {
            Reply::Digest(hash) => Step::Ask(
                WriteState::Storing { hash: H256(hash) },
                Request::WriteFile { path, bytes: ciphertext },
            ),
            _ => Step::Done(Err(StoreError::Crypto)),
        },
        WriteState::Storing { hash } => match reply {
            Reply::Done => Step::Done(Ok(hash)),
            _ => Step::Done(Err(StoreError::Io)),
        },
    }
}

/// Where the initialising of a shard stands.
#[derive(Debug)]
pub enum InitState {
    /// The shard's directory is being created; the state file is `file`.
    CreatingDir { file: String },
    /// The empty state file is being created.
    CreatingFile,
}

/// An [`InitState`] as contracts speak of it.
pub enum InitStateView {
    CreatingDir { file: Seq<char> },
    CreatingFile,
}

impl View for InitState {
    type V = InitStateView;

    open spec fn view(&self) -> InitStateView {
        match self {
            InitState::CreatingDir { file } => InitStateView::CreatingDir { file: file@ },
            InitState::CreatingFile => InitStateView::CreatingFile,
        }
    }
}

/// Starts initialising `shard`: its directory is to be created. Both steps
/// of the operation can be repeated: a directory that is there is left as it
/// is, and a state file that is there is cut to no bytes.
pub fn init_shard(shard: &ShardIdentifier) -> (step: Step<InitState, ()>)
    ensures
        step.asks(
            |at: InitState| at@ == (InitStateView::CreatingDir { file: state_path_text(shard@) }),
            (RequestView::CreateDirAll { path: shard_path_text(shard@) }),
        ),
{
    Step::Ask(
        InitState::CreatingDir { file: state_path(shard) },
        Request::CreateDirAll { path: shard_path(shard) },
    )
}

/// Takes the initialising of a shard on from the driver's answer: after the
/// directory the empty state file is created, and then the operation ends.
/// A step that fails ends it with [`StoreError::Io`].
pub fn init_shard_resume(at: InitState, reply: Reply) -> (step: Step<InitState, ()>)
    ensures
        match (at@, reply@) {
            (InitStateView::CreatingDir { file }, ReplyView::Done) => step.asks(
                |next: InitState| next@ == InitStateView::CreatingFile,
                (RequestView::CreateFile { path: file }),
            ),
            (InitStateView::CreatingFile, ReplyView::Done) => step.yields(|done: ()| true),
            (_, _) => step.fails(StoreError::Io),
        },
{
    match reply {
        Reply::Done => match at {
            InitState::CreatingDir { file } => Step::Ask(
                InitState::CreatingFile,
                Request::CreateFile { path: file },
            ),
            InitState::CreatingFile => Step::Done(Ok(())),
        },
        _ => Step::Done(Err(StoreError::Io)),
    }
}

/// Where the query for a shard stands.
#[derive(Clone, Copy, Debug, PartialEq, Eq, Structural)]
pub enum ExistsState {
    /// The state file is being looked for.
    Probing,
}

/// Starts asking whether `shard` exists: its state file is to be looked
/// for.
pub fn shard_exists(shard: &ShardIdentifier) -> (step: Step<ExistsState, bool>)
    ensures
        step.asks(
            |at: ExistsState| at == ExistsState::Probing,
            (RequestView::Exists { path: state_path_text(shard@) }),
        ),
{
    Step::Ask(ExistsState::Probing, Request::Exists { path: state_path(shard) })
}

/// Ends the query for a shard: the shard exists if and only if the driver
/// found its state file. The query does not fail; an answer that says
/// nothing of the file counts as the file not being there.
pub fn shard_exists_resume(at: ExistsState, reply: Reply) -> (step: Step<ExistsState, bool>)
    ensures
        step.yields(|found: bool| found == (reply@ == ReplyView::Exists(true))),
{
    match reply {
        Reply::Exists(found) => Step::Done(Ok(found)),
        _ => Step::Done(Ok(false)),
    }
}

/// Where the loading of a state that is initialised on demand stands.
#[derive(Debug)]
pub enum LoadInitializedState {
    /// The state file of `shard` is being looked for.
    Probing { shard: ShardIdentifier },
    /// The shard exists and is being loaded.
    Loading(LoadState),
    /// The shard did not exist and is being initialised.
    Initializing(InitState),
}

/// A [`LoadInitializedState`] as contracts speak of it.
pub enum LoadInitializedStateView {
    Probing { shard: Seq<u8> },
    Loading(LoadState),
    Initializing(InitStateView),
}

impl View for LoadInitializedState {
    type V = LoadInitializedStateView;

    open spec fn view(&self) -> LoadInitializedStateView {
        match self {
            LoadInitializedState::Probing { shard } => LoadInitializedStateView::Probing {
                shard: shard@,
            },
            LoadInitializedState::Loading(at) => LoadInitializedStateView::Loading(*at),
            LoadInitializedState::Initializing(at) => LoadInitializedStateView::Initializing(at@),
        }
    }
}

/// Starts loading the state of `shard`, which is initialised first if it
/// does not exist: its state file is to be looked for.
pub fn load_initialized_state(shard: &ShardIdentifier) -> (step: Step<LoadInitializedState, State>)
    ensures
        step.asks(
            |at: LoadInitializedState|
                at@ == (LoadInitializedStateView::Probing { shard: shard@ }),
            (RequestView::Exists { path: state_path_text(shard@) }),
        ),
{
    Step::Ask(
        LoadInitializedState::Probing { shard: *shard },
        Request::Exists { path: state_path(shard) },
    )
}

/// Takes the loading of a state that is initialised on demand on from the
/// driver's answer. `initial` is the state of a shard that holds nothing
/// yet.
///
/// A shard that exists is loaded as [`load`] and [`load_resume`] do it. A
/// shard that does not exist is initialised as [`init_shard`] and
/// [`init_shard_resume`] do it, and the operation ends with `initial` as it
/// is. An answer that does not say whether the shard exists ends it with
/// [`StoreError::Io`].
pub fn load_initialized_state_resume(
    at: LoadInitializedState,
    reply: Reply,
    initial: State,
) -> (step: Step<LoadInitializedState, State>)
    ensures
        match (at@, reply@) {
            (LoadInitializedStateView::Probing { shard }, ReplyView::Exists(found)) => if found {
                step.asks(
                    |next: LoadInitializedState|
                        next@ == LoadInitializedStateView::Loading(LoadState::Reading),
                    (RequestView::ReadFile { path: state_path_text(shard) }),
                )
            } else {
                step.asks(
                    |next: LoadInitializedState|
                        next@ == LoadInitializedStateView::Initializing(
                            (InitStateView::CreatingDir { file: state_path_text(shard) }),
                        ),
                    (RequestView::CreateDirAll { path: shard_path_text(shard) }),
                )
            },
            (LoadInitializedStateView::Probing { .. }, _) => step.fails(StoreError::Io),
            (LoadInitializedStateView::Loading(LoadState::Reading), ReplyView::Bytes(sealed)) => if sealed.len()
                == 0 {
                step.yields(|state: State| state.value() == initial.value() && state.unchanged())
            } else {
                step.asks(
                    |next: LoadInitializedState|
                        next@ == LoadInitializedStateView::Loading(LoadState::Unsealing),
                    (RequestView::Unseal { bytes: sealed }),
                )
            },
            (LoadInitializedStateView::Loading(LoadState::Reading), _) => step.fails(
                StoreError::Io,
            ),
            (
                LoadInitializedStateView::Loading(LoadState::Unsealing),
                ReplyView::Bytes(plaintext),
            ) => match state_of_plaintext(plaintext, initial.value()) {
                Some(value) => step.yields(
                    |state: State| state.value() == value && state.unchanged(),
                ),
                None => step.fails(StoreError::Decode),
            },
            (LoadInitializedStateView::Loading(LoadState::Unsealing), _) => step.fails(
                StoreError::Crypto,
            ),
            (
                LoadInitializedStateView::Initializing(InitStateView::CreatingDir { file }),
                ReplyView::Done,
            ) => step.asks(
                |next: LoadInitializedState|
                    next@ == LoadInitializedStateView::Initializing(InitStateView::CreatingFile),
                (RequestView::CreateFile { path: file }),
            ),
            (
                LoadInitializedStateView::Initializing(InitStateView::CreatingFile),
                ReplyView::Done,
            ) => step.yields(|state: State| state == initial),
            (LoadInitializedStateView::Initializing(_), _) => step.fails(StoreError::Io),
        },
{
    match at {
        LoadInitializedState::Probing { shard } => match reply {
            Reply::Exists(found) => {
                if found {
                    match load(&shard) {
                        Step::Ask(next, request) => Step::Ask(
                            LoadInitializedState::Loading(next),
                            request,
                        ),
                        Step::Done(ended) => Step::Done(ended),
                    }
                } else {
                    match init_shard(&shard) {
                        Step::Ask(next, request) => Step::Ask(
                            LoadInitializedState::Initializing(next),
                            request,
                        ),
                        Step::Done(_) => Step::Done(Ok(initial)),
                    }
                }
            },
            _ => Step::Done(Err(StoreError::Io)),
        },
        LoadInitializedState::Loading(loading) => match load_resume(loading, reply, initial) {
            Step::Ask(next, request) => Step::Ask(LoadInitializedState::Loading(next), request),
            Step::Done(ended) => Step::Done(ended),
        },
        LoadInitializedState::Initializing(initializing) => match init_shard_resume(
            initializing,
            reply,
        ) {
            Step::Ask(next, request) => Step::Ask(
                LoadInitializedState::Initializing(next),
                request,
            ),
            Step::Done(Ok(_)) => Step::Done(Ok(initial)),
            Step::Done(Err(e)) => Step::Done(Err(e)),
        },
    }
}

/// Where the listing of the shards stands.
#[derive(Clone, Copy, Debug, PartialEq, Eq, Structural)]
pub enum ListState {
    /// The directory of the shards is being read.
    Listing,
}

/// The identifier that one entry of the shards' directory stands for, or
/// why it stands for none.
pub open spec fn shard_of_entry(entry: EntryNameView) -> Result<Seq<u8>, StoreError> {
    match entry {
        EntryNameView::Name(name) => match shard_of_name(name) {
            Some(shard) => Ok(shard),
            None => Err(StoreError::Decode),
        },
        EntryNameView::NotUnicode => Err(StoreError::Decode),
        EntryNameView::Unreadable => Err(StoreError::Io),
    }
}

/// Whether `listed` is what the entries of the shards' directory stand
/// for: the identifier of each entry, in the order of the entries, where
/// every entry stands for one, and else the failure of the first entry that
/// stands for none.
pub open spec fn lists(entries: Seq<EntryNameView>, listed: Result<Seq<Seq<u8>>, StoreError>) -> bool {
    match listed {
        Ok(shards) => {
            &&& shards.len() == entries.len()
            &&& forall|i: int|
                0 <= i < entries.len() ==> shard_of_entry(#[trigger] entries[i]) == Ok::<
                    Seq<u8>,
                    StoreError,
                >(shards[i])
        },
        Err(e) => exists|i: int|
            {
                &&& 0 <= i < entries.len()
                &&& shard_of_entry(#[trigger] entries[i]) == Err::<Seq<u8>, StoreError>(e)
                &&& forall|j: int| 0 <= j < i ==> shard_of_entry(#[trigger] entries[j]) is Ok
            },
    }
}

/// The identifiers of `shards`, one after the other.
pub open spec fn identifiers(shards: Seq<ShardIdentifier>) -> Seq<Seq<u8>> {
    shards.map_values(|shard: ShardIdentifier| shard@)
}

/// Reads the identifier that one entry of the shards' directory stands
/// for.
fn shard_from_entry(entry: &EntryName) -> (shard: Result<ShardIdentifier, StoreError>)
    ensures
        match shard {
            Ok(id) => shard_of_entry(entry@) == Ok::<Seq<u8>, StoreError>(id@),
            Err(e) => shard_of_entry(entry@) == Err::<Seq<u8>, StoreError>(e),
        },
{
    match entry {
        EntryName::Name(name) => shard_from_name(name.as_str()),
        EntryName::NotUnicode => Err(StoreError::Decode),
        EntryName::Unreadable => Err(StoreError::Io),
    }
}

/// Reads the identifiers that the entries of the shards' directory stand
/// for: all of them, or the failure of the first entry that stands for
/// none.
pub fn shards_from_entries(entries: &Vec<EntryName>) -> (shards: Result<
    Vec<ShardIdentifier>,
    StoreError,
>)
    ensures
        lists(
            entries@.map_values(|e: EntryName| e@),
            match shards {
                Ok(found) => Ok(identifiers(found@)),
                Err(e) => Err(e),
            },
        ),
{
    let ghost names = entries@.map_values(|e: EntryName| e@);
    let mut found: Vec<ShardIdentifier> = Vec::new();
    let mut i: usize = 0;
    while i < entries.len()
        invariant
            i <= entries.len(),
            names == entries@.map_values(|e: EntryName| e@),
            found@.len() == i,
            forall|j: int|
                0 <= j < i ==> shard_of_entry(#[trigger] names[j]) == Ok::<Seq<u8>, StoreError>(
                    found@[j]@,
                ),
        decreases entries.len() - i,
    {
        match shard_from_entry(&entries[i]) {
            Ok(shard) => {
                found.push(shard);
            },
            Err(e) => {
                assert(shard_of_entry(names[i as int]) == Err::<Seq<u8>, StoreError>(e));
                return Err(e);
            },
        }
        i += 1;
    }
    assert(identifiers(found@).len() == names.len());
    Ok(found)
}

/// Starts listing the shards: the directory that holds them is to be
/// read.
pub fn list_shards() -> (step: Step<ListState, Vec<ShardIdentifier>>)
    ensures
        step.asks(
            |at: ListState| at == ListState::Listing,
            (RequestView::ReadDir { path: SHARDS_PATH@ }),
        ),
{
    Step::Ask(ListState::Listing, Request::ReadDir { path: String::from_str(SHARDS_PATH) })
}

/// Ends the listing of the shards.
///
/// Where there is no directory of shards, as on a node that has stored no
/// shard yet, there are no shards: that is no failure. A directory that is
/// there and cannot be read fails the listing with [`StoreError::Io`]. A
/// directory that was read gives the shard of every entry, in the order of
/// the entries, or nothing at all: the first entry that is unreadable, whose
/// name is not Unicode or stands for no identifier fails the listing.
pub fn list_shards_resume(at: ListState, reply: Reply) -> (step: Step<
    ListState,
    Vec<ShardIdentifier>,
>)
    ensures
        match reply@ {
            ReplyView::Entries(entries) => step matches Step::Done(listed) && lists(
                entries,
                match listed {
                    Ok(found) => Ok(identifiers(found@)),
                    Err(e) => Err(e),
                },
            ),
            ReplyView::Missing => step.yields(|found: Vec<ShardIdentifier>| found@.len() == 0),
            _ => step.fails(StoreError::Io),
        },
{
    match reply {
        Reply::Entries(entries) => Step::Done(shards_from_entries(&entries)),
        Reply::Missing => Step::Done(Ok(Vec::new())),
        _ => Step::Done(Err(StoreError::Io)),
    }
}

} // verus!
