use enclave_runtime::error::StoreError;
use enclave_runtime::shard::{
    shard_from_name, shard_name, shard_path, state_path, ShardIdentifier, ENCRYPTED_STATE_FILE,
    H256, SHARDS_PATH,
};
use enclave_runtime::state::{
    init_shard, init_shard_resume, list_shards, list_shards_resume, load, load_initialized_state,
    load_initialized_state_resume, load_resume, shard_exists, shard_exists_resume, write_resume,
    InitState, ListState, LoadInitializedState, LoadState, State, StateDiffType,
    StateType, WriteState,
};
use enclave_runtime::storage::{EntryName, Reply, Request, Step};
use parity_scale_codec::Encode;
use std::collections::{BTreeMap, BTreeSet};

/// A driver that keeps its files in memory, seals by a fixed keystream and
/// hashes with a stand-in digest.
struct Disk {
    dirs: BTreeSet<String>,
    files: BTreeMap<String, Vec<u8>>,
    sealing_fails: bool,
    hashing_fails: bool,
    writing_fails: bool,
    listing_fails: bool,
    served: Vec<&'static str>,
}

fn keystream(bytes: &[u8]) -> Vec<u8> {
    bytes.iter().enumerate().map(|(i, b)| b ^ (0xa5u8.wrapping_add(i as u8))).collect()
}

/// A stand-in for the enclave's hasher: 32 bytes that depend on every byte
/// and on where it stands.
fn digest(bytes: &[u8]) -> [u8; 32] {
    let mut out = [bytes.len() as u8; 32];
    for (i, byte) in bytes.iter().enumerate() {
        let at = i % 32;
        out[at] = out[at].rotate_left(3) ^ byte.wrapping_add(i as u8);
        out[(at + 7) % 32] = out[(at + 7) % 32].wrapping_add(out[at]);
    }
    out
}

fn parent(path: &str) -> &str {
    match path.rfind('/') {
        Some(at) => &path[..at],
        None => "",
    }
}

impl Disk {
    fn new() -> Disk {
        Disk {
            dirs: BTreeSet::new(),
            files: BTreeMap::new(),
            sealing_fails: false,
            hashing_fails: false,
            writing_fails: false,
            listing_fails: false,
            served: Vec::new(),
        }
    }

    fn serve(&mut self, request: Request) -> Reply {
        match request {
            Request::Exists { path } => {
                self.served.push("exists");
                Reply::Exists(self.files.contains_key(&path) || self.dirs.contains(&path))
            },
            Request::CreateDirAll { path } => {
                self.served.push("create_dir_all");
                let mut dir = path.as_str();
                while !dir.is_empty() && dir != "." {
                    self.dirs.insert(dir.to_string());
                    dir = parent(dir);
                }
                Reply::Done
            },
            Request::CreateFile { path } => {
                self.served.push("create_file");
                if !self.dirs.contains(parent(&path)) {
                    return Reply::Failed;
                }
                self.files.insert(path, Vec::new());
                Reply::Done
            },
            Request::ReadFile { path } => {
                self.served.push("read_file");
                match self.files.get(&path) {
                    Some(bytes) => Reply::Bytes(bytes.clone()),
                    None => Reply::Failed,
                }
            },
            Request::WriteFile { path, bytes } => {
                self.served.push("write_file");
                if self.writing_fails || !self.dirs.contains(parent(&path)) {
                    return Reply::Failed;
                }
                self.files.insert(path, bytes);
                Reply::Done
            },
            Request::ReadDir { path } => {
                self.served.push("read_dir");
                if !self.dirs.contains(&path) {
                    return Reply::Missing;
                }
                if self.listing_fails {
                    return Reply::Failed;
                }
                let entries = self
                    .dirs
                    .iter()
                    .filter(|dir| parent(dir) == path)
                    .map(|dir| EntryName::Name(dir[path.len() + 1..].to_string()))
                    .collect();
                Reply::Entries(entries)
            },
            Request::Unseal { bytes } => {
                self.served.push("unseal");
                if self.sealing_fails {
                    return Reply::Failed;
                }
                Reply::Bytes(keystream(&bytes))
            },
            Request::Seal { bytes } => {
                self.served.push("seal");
                if self.sealing_fails {
                    return Reply::Failed;
                }
                Reply::Bytes(keystream(&bytes))
            },
            Request::Hash { bytes } => {
                self.served.push("hash");
                if self.hashing_fails {
                    return Reply::Failed;
                }
                Reply::Digest(digest(&bytes))
            },
        }
    }

    fn run<S, T>(
        &mut self,
        first: Step<S, T>,
        resume: impl Fn(S, Reply) -> Step<S, T>,
    ) -> Result<T, StoreError> {
        let mut step = first;
        loop {
            match step {
                Step::Ask(at, request) => {
                    let reply = self.serve(request);
                    step = resume(at, reply);
                },
                Step::Done(ended) => return ended,
            }
        }
    }

    fn has_shard(&mut self, shard: &ShardIdentifier) -> bool {
        self.run(shard_exists(shard), shard_exists_resume).unwrap()
    }

    fn init_shard(&mut self, shard: &ShardIdentifier) -> Result<(), StoreError> {
        self.run(init_shard(shard), init_shard_resume)
    }

    fn load(&mut self, shard: &ShardIdentifier) -> Result<State, StoreError> {
        self.run(load(shard), |at, reply| load_resume(at, reply, init_state()))
    }

    fn write(&mut self, state: State, shard: &ShardIdentifier) -> Result<H256, StoreError> {
        self.run(enclave_runtime::state::write(state, shard), write_resume)
    }

    fn load_initialized_state(&mut self, shard: &ShardIdentifier) -> Result<State, StoreError> {
        self.run(load_initialized_state(shard), |at, reply| {
            load_initialized_state_resume(at, reply, init_state())
        })
    }

    fn list_shards(&mut self) -> Result<Vec<ShardIdentifier>, StoreError> {
        self.run(list_shards(), list_shards_resume)
    }
}

/// The state of a shard that holds nothing yet, as these tests have it: one
/// entry, which is also recorded as a change.
fn init_state() -> State {
    let mut state = State::default();
    state.state.insert(b"genesis".to_vec(), vec![1]);
    state.state_diff.insert(b"genesis".to_vec(), Some(vec![1]));
    state
}

fn hello_world() -> State {
    let key: Vec<u8> = "hello".encode();
    let value: Vec<u8> = "world".encode();
    let mut state = State::default();
    state.state_diff.insert(key.clone(), Some(value.clone()));
    state.state.insert(key, value);
    state
}

/// The SCALE encoding of the value of `hello_world()`.
fn hello_world_encoded() -> Vec<u8> {
    let mut bytes = vec![0x04, 0x18, 0x14];
    bytes.extend_from_slice(b"hello");
    bytes.extend_from_slice(&[0x18, 0x14]);
    bytes.extend_from_slice(b"world");
    bytes
}

fn sealed_plaintext(step: Step<WriteState, H256>) -> Vec<u8> {
    match step {
        Step::Ask(WriteState::Sealing { .. }, Request::Seal { bytes }) => bytes,
        other => panic!("a write starts by sealing, not with {:?}", other),
    }
}

fn done<S: std::fmt::Debug, T: std::fmt::Debug>(step: Step<S, T>) -> Result<T, StoreError> {
    match step {
        Step::Done(ended) => ended,
        other => panic!("the operation has not ended: {:?}", other),
    }
}

const NAME_OF_94: &str = "7MNnTJmxb2vJ7WWi15fNMHYhwvmvJyY5XMegUjDKEKKT";

#[test]
fn test_sgx_state_decode_encode_works() {
    // given
    let state = hello_world();
    let shard: ShardIdentifier = [94u8; 32].into();

    // when
    let encoded_state = sealed_plaintext(enclave_runtime::state::write(state.clone(), &shard));
    let state2 =
        done(load_resume(LoadState::Unsealing, Reply::Bytes(encoded_state), init_state()))
            .unwrap();

    // then
    assert_eq!(state.state, state2.state);
}

#[test]
fn test_encrypt_decrypt_state_type_works() {
    // given
    let state = hello_world();
    let shard: ShardIdentifier = [94u8; 32].into();
    let mut disk = Disk::new();

    // when
    let plaintext = sealed_plaintext(enclave_runtime::state::write(state.clone(), &shard));
    let encrypted = match disk.serve(Request::Seal { bytes: plaintext.clone() }) {
        Reply::Bytes(bytes) => bytes,
        other => panic!("sealing gave {:?}", other),
    };
    assert_ne!(encrypted, plaintext);
    let decrypted = match disk.serve(Request::Unseal { bytes: encrypted }) {
        Reply::Bytes(bytes) => bytes,
        other => panic!("unsealing gave {:?}", other),
    };
    let decoded =
        done(load_resume(LoadState::Unsealing, Reply::Bytes(decrypted), init_state())).unwrap();

    // then
    assert_eq!(state.state, decoded.state);
}

#[test]
fn test_write_and_load_state_works() {
    // given
    let mut disk = Disk::new();
    let state = hello_world();
    let shard: ShardIdentifier = [94u8; 32].into();

    // when
    if !disk.has_shard(&shard) {
        disk.init_shard(&shard).unwrap();
    }
    let _hash = disk.write(state.clone(), &shard).unwrap();
    let result = disk.load(&shard).unwrap();

    // then
    assert_eq!(state.state, result.state);
}

#[test]
fn loaded_state_has_no_changes() {
    let mut disk = Disk::new();
    let state = hello_world();
    assert!(!state.state_diff.is_empty());
    let shard = H256([3u8; 32]);
    disk.init_shard(&shard).unwrap();
    disk.write(state.clone(), &shard).unwrap();

    let loaded = disk.load(&shard).unwrap();

    assert_eq!(loaded.state, state.state);
    assert_eq!(loaded.state_diff, StateDiffType::new());
}

#[test]
fn empty_state_file_loads_as_the_initial_state() {
    let mut disk = Disk::new();
    let shard = H256([4u8; 32]);
    disk.init_shard(&shard).unwrap();
    assert_eq!(disk.files[&state_path(&shard)], Vec::<u8>::new());
    disk.served.clear();

    let loaded = disk.load(&shard).unwrap();

    assert_eq!(loaded.state, init_state().state);
    assert_eq!(loaded.state_diff, StateDiffType::new());
    // Nothing was unsealed: there was nothing to unseal.
    assert_eq!(disk.served, vec!["read_file"]);
}

#[test]
fn plaintext_of_no_bytes_loads_as_the_initial_state() {
    let loaded =
        done(load_resume(LoadState::Unsealing, Reply::Bytes(Vec::new()), init_state())).unwrap();
    assert_eq!(loaded.state, init_state().state);
    assert_eq!(loaded.state_diff, StateDiffType::new());
}

#[test]
fn load_starts_by_reading_the_state_file() {
    let shard = H256([94u8; 32]);
    match load(&shard) {
        Step::Ask(LoadState::Reading, Request::ReadFile { path }) => {
            assert_eq!(path, format!("./shards/{}/state.bin", NAME_OF_94));
        },
        other => panic!("unexpected first step {:?}", other),
    }
}

#[test]
fn load_unseals_what_a_file_holds() {
    match load_resume(LoadState::Reading, Reply::Bytes(vec![9, 8, 7]), init_state()) {
        Step::Ask(LoadState::Unsealing, Request::Unseal { bytes }) => {
            assert_eq!(bytes, vec![9, 8, 7]);
        },
        other => panic!("unexpected step {:?}", other),
    }
}

#[test]
fn load_of_a_missing_file_is_an_io_error() {
    let mut disk = Disk::new();
    assert_eq!(disk.load(&H256([5u8; 32])), Err(StoreError::Io));
    assert_eq!(
        done(load_resume(LoadState::Reading, Reply::Failed, init_state())),
        Err(StoreError::Io)
    );
    assert_eq!(
        done(load_resume(LoadState::Reading, Reply::Done, init_state())),
        Err(StoreError::Io)
    );
    assert_eq!(
        done(load_resume(LoadState::Reading, Reply::Missing, init_state())),
        Err(StoreError::Io)
    );
}

#[test]
fn load_does_not_make_up_a_state_when_unsealing_fails() {
    let mut disk = Disk::new();
    let shard = H256([6u8; 32]);
    disk.init_shard(&shard).unwrap();
    disk.write(hello_world(), &shard).unwrap();
    disk.sealing_fails = true;
    assert_eq!(disk.load(&shard), Err(StoreError::Crypto));
    assert_eq!(
        done(load_resume(LoadState::Unsealing, Reply::Failed, init_state())),
        Err(StoreError::Crypto)
    );
}

#[test]
fn load_of_bytes_that_do_not_decode_is_a_decode_error() {
    // One entry is announced and none follows.
    assert_eq!(
        done(load_resume(LoadState::Unsealing, Reply::Bytes(vec![0x04]), init_state())),
        Err(StoreError::Decode)
    );
    // A key of six bytes is announced and three follow.
    assert_eq!(
        done(load_resume(
            LoadState::Unsealing,
            Reply::Bytes(vec![0x04, 0x18, 1, 2, 3]),
            init_state()
        )),
        Err(StoreError::Decode)
    );
}

#[test]
fn load_decodes_an_empty_map() {
    // A map without entries is one byte, which is not the same as no bytes.
    let loaded =
        done(load_resume(LoadState::Unsealing, Reply::Bytes(vec![0x00]), init_state())).unwrap();
    assert_eq!(loaded.state, StateType::new());
    assert_eq!(loaded.state_diff, StateDiffType::new());
}

#[test]
fn load_decodes_the_entries_in_the_bytes() {
    let loaded = done(load_resume(
        LoadState::Unsealing,
        Reply::Bytes(hello_world_encoded()),
        init_state(),
    ))
    .unwrap();
    assert_eq!(loaded.state, hello_world().state);
}

#[test]
fn write_seals_the_encoded_value() {
    let shard = H256([94u8; 32]);
    match enclave_runtime::state::write(hello_world(), &shard) {
        Step::Ask(WriteState::Sealing { path }, Request::Seal { bytes }) => {
            assert_eq!(path, format!("./shards/{}/state.bin", NAME_OF_94));
            assert_eq!(bytes, hello_world_encoded());
        },
        other => panic!("unexpected first step {:?}", other),
    }
}

#[test]
fn write_of_an_empty_value_seals_one_byte() {
    assert_eq!(sealed_plaintext(enclave_runtime::state::write(State::default(), &H256([0u8; 32]))), vec![0x00]);
}

#[test]
fn write_hashes_then_stores_the_ciphertext() {
    let at = WriteState::Sealing { path: "p".to_string() };
    let at = match write_resume(at, Reply::Bytes(vec![1, 2, 3])) {
        Step::Ask(at, Request::Hash { bytes }) => {
            assert_eq!(bytes, vec![1, 2, 3]);
            at
        },
        other => panic!("unexpected step {:?}", other),
    };
    let at = match write_resume(at, Reply::Digest([7u8; 32])) {
        Step::Ask(at, Request::WriteFile { path, bytes }) => {
            assert_eq!(path, "p");
            assert_eq!(bytes, vec![1, 2, 3]);
            at
        },
        other => panic!("unexpected step {:?}", other),
    };
    assert_eq!(done(write_resume(at, Reply::Done)), Ok(H256([7u8; 32])));
}

#[test]
fn write_returns_the_hash_of_what_it_stored() {
    let mut disk = Disk::new();
    let shard = H256([8u8; 32]);
    disk.init_shard(&shard).unwrap();

    let hash = disk.write(hello_world(), &shard).unwrap();

    let stored = disk.files[&state_path(&shard)].clone();
    assert_eq!(stored, keystream(&hello_world_encoded()));
    assert_eq!(hash, H256(digest(&stored)));
    assert_eq!(disk.served[2..], ["seal", "hash", "write_file"]);
}

#[test]
fn write_replaces_what_was_stored() {
    let mut disk = Disk::new();
    let shard = H256([9u8; 32]);
    disk.init_shard(&shard).unwrap();
    disk.write(hello_world(), &shard).unwrap();

    disk.write(State::default(), &shard).unwrap();

    assert_eq!(disk.files[&state_path(&shard)], keystream(&[0x00]));
    assert_eq!(disk.load(&shard).unwrap().state, StateType::new());
}

#[test]
fn hash_and_stored_bytes_do_not_depend_on_the_changes() {
    let shard = H256([10u8; 32]);
    let with_changes = hello_world();
    let mut other_changes = hello_world();
    other_changes.state_diff.clear();
    other_changes.state_diff.insert(vec![1, 2, 3], None);
    let without_changes = State { state: hello_world().state, state_diff: StateDiffType::new() };

    let mut hashes = Vec::new();
    let mut stored = Vec::new();
    for state in [with_changes, other_changes, without_changes] {
        let mut disk = Disk::new();
        disk.init_shard(&shard).unwrap();
        hashes.push(disk.write(state, &shard).unwrap());
        stored.push(disk.files[&state_path(&shard)].clone());
    }

    assert_eq!(hashes[0], hashes[1]);
    assert_eq!(hashes[0], hashes[2]);
    assert_eq!(stored[0], stored[1]);
    assert_eq!(stored[0], stored[2]);
    assert_eq!(stored[0], keystream(&hello_world_encoded()));
}

#[test]
fn write_fails_before_the_file_is_touched_when_sealing_fails() {
    let mut disk = Disk::new();
    let shard = H256([11u8; 32]);
    disk.init_shard(&shard).unwrap();
    disk.sealing_fails = true;
    assert_eq!(disk.write(hello_world(), &shard), Err(StoreError::Crypto));
    assert_eq!(disk.files[&state_path(&shard)], Vec::<u8>::new());
    assert!(!disk.served.contains(&"write_file"));
}

#[test]
fn write_fails_before_the_file_is_touched_when_hashing_fails() {
    let mut disk = Disk::new();
    let shard = H256([12u8; 32]);
    disk.init_shard(&shard).unwrap();
    disk.hashing_fails = true;
    assert_eq!(disk.write(hello_world(), &shard), Err(StoreError::Crypto));
    assert!(!disk.served.contains(&"write_file"));
}

#[test]
fn write_fails_with_an_io_error_when_the_file_cannot_be_written() {
    let mut disk = Disk::new();
    let shard = H256([13u8; 32]);
    disk.init_shard(&shard).unwrap();
    disk.writing_fails = true;
    assert_eq!(disk.write(hello_world(), &shard), Err(StoreError::Io));
    // Without the shard's directory the file cannot be written either.
    let mut bare = Disk::new();
    assert_eq!(bare.write(hello_world(), &shard), Err(StoreError::Io));
}

#[test]
fn init_shard_creates_the_directory_and_an_empty_file() {
    let shard = H256([94u8; 32]);
    let at = match init_shard(&shard) {
        Step::Ask(at, Request::CreateDirAll { path }) => {
            assert_eq!(path, format!("./shards/{}", NAME_OF_94));
            at
        },
        other => panic!("unexpected first step {:?}", other),
    };
    let at = match init_shard_resume(at, Reply::Done) {
        Step::Ask(at, Request::CreateFile { path }) => {
            assert_eq!(path, format!("./shards/{}/state.bin", NAME_OF_94));
            at
        },
        other => panic!("unexpected step {:?}", other),
    };
    assert_eq!(done(init_shard_resume(at, Reply::Done)), Ok(()));
}

#[test]
fn init_shard_twice_leaves_an_empty_file_both_times() {
    let mut disk = Disk::new();
    let shard = H256([14u8; 32]);
    assert!(!disk.has_shard(&shard));

    assert_eq!(disk.init_shard(&shard), Ok(()));
    assert!(disk.has_shard(&shard));
    assert_eq!(disk.files[&state_path(&shard)], Vec::<u8>::new());

    assert_eq!(disk.init_shard(&shard), Ok(()));
    assert!(disk.has_shard(&shard));
    assert_eq!(disk.files[&state_path(&shard)], Vec::<u8>::new());
}

#[test]
fn init_shard_empties_a_state_file_that_holds_something() {
    let mut disk = Disk::new();
    let shard = H256([15u8; 32]);
    disk.init_shard(&shard).unwrap();
    disk.write(hello_world(), &shard).unwrap();
    assert!(!disk.files[&state_path(&shard)].is_empty());

    assert_eq!(disk.init_shard(&shard), Ok(()));

    assert_eq!(disk.files[&state_path(&shard)], Vec::<u8>::new());
    assert_eq!(disk.load(&shard).unwrap().state, init_state().state);
}

#[test]
fn init_shard_fails_with_an_io_error() {
    let shard = H256([16u8; 32]);
    assert_eq!(
        done(init_shard_resume(InitState::CreatingDir { file: "f".to_string() }, Reply::Failed)),
        Err(StoreError::Io)
    );
    assert_eq!(done(init_shard_resume(InitState::CreatingFile, Reply::Failed)), Err(StoreError::Io));
    assert_eq!(
        done(init_shard_resume(InitState::CreatingFile, Reply::Exists(true))),
        Err(StoreError::Io)
    );
    let _ = shard;
}

#[test]
fn shard_exists_follows_the_state_file() {
    let shard = H256([94u8; 32]);
    match shard_exists(&shard) {
        Step::Ask(at, Request::Exists { path }) => {
            assert_eq!(path, format!("./shards/{}/state.bin", NAME_OF_94));
            assert_eq!(done(shard_exists_resume(at, Reply::Exists(true))), Ok(true));
            assert_eq!(done(shard_exists_resume(at, Reply::Exists(false))), Ok(false));
            assert_eq!(done(shard_exists_resume(at, Reply::Failed)), Ok(false));
        },
        other => panic!("unexpected first step {:?}", other),
    }
}

#[test]
fn shard_with_a_directory_but_no_state_file_does_not_exist() {
    let mut disk = Disk::new();
    let shard = H256([17u8; 32]);
    disk.serve(Request::CreateDirAll { path: shard_path(&shard) });
    assert!(!disk.has_shard(&shard));
}

#[test]
fn load_initialized_state_initialises_a_shard_that_is_not_there() {
    let mut disk = Disk::new();
    let shard = H256([18u8; 32]);

    let state = disk.load_initialized_state(&shard).unwrap();

    // The initial state comes back as it is, with the changes it records.
    assert_eq!(state, init_state());
    assert!(disk.has_shard(&shard));
    assert_eq!(disk.files[&state_path(&shard)], Vec::<u8>::new());
    assert_eq!(disk.served[..3], ["exists", "create_dir_all", "create_file"]);
}

#[test]
fn load_initialized_state_loads_a_shard_that_is_there() {
    let mut disk = Disk::new();
    let shard = H256([19u8; 32]);
    disk.init_shard(&shard).unwrap();
    disk.write(hello_world(), &shard).unwrap();
    disk.served.clear();

    let state = disk.load_initialized_state(&shard).unwrap();

    assert_eq!(state.state, hello_world().state);
    assert_eq!(state.state_diff, StateDiffType::new());
    assert_eq!(disk.served, vec!["exists", "read_file", "unseal"]);
}

#[test]
fn load_initialized_state_passes_failures_on() {
    let shard = H256([20u8; 32]);
    let probing = || LoadInitializedState::Probing { shard };
    assert_eq!(
        done(load_initialized_state_resume(probing(), Reply::Failed, init_state())),
        Err(StoreError::Io)
    );
    assert_eq!(
        done(load_initialized_state_resume(
            LoadInitializedState::Loading(LoadState::Unsealing),
            Reply::Failed,
            init_state()
        )),
        Err(StoreError::Crypto)
    );
    assert_eq!(
        done(load_initialized_state_resume(
            LoadInitializedState::Loading(LoadState::Unsealing),
            Reply::Bytes(vec![0xff]),
            init_state()
        )),
        Err(StoreError::Decode)
    );
    assert_eq!(
        done(load_initialized_state_resume(
            LoadInitializedState::Initializing(InitState::CreatingFile),
            Reply::Failed,
            init_state()
        )),
        Err(StoreError::Io)
    );
}

#[test]
fn shard_names_are_base58() {
    assert_eq!(shard_name(&H256([94u8; 32])), NAME_OF_94);
    assert_eq!(shard_name(&H256([0u8; 32])), "1".repeat(32));
    assert_eq!(shard_name(&H256([255u8; 32])), "JEKNVnkbo3jma5nREBBJCDoXFVeKkD56V3xKrvRmWxFG");
    let mut counting = [0u8; 32];
    for (i, byte) in counting.iter_mut().enumerate() {
        *byte = i as u8;
    }
    assert_eq!(shard_name(&H256(counting)), "1thX6LZfHDZZKUs92febYZhYRcXddmzfzF2NvTkPNE");
}

#[test]
fn shard_paths() {
    assert_eq!(SHARDS_PATH, "./shards");
    assert_eq!(ENCRYPTED_STATE_FILE, "state.bin");
    let shard = H256([0u8; 32]);
    assert_eq!(shard_path(&shard), "./shards/11111111111111111111111111111111");
    assert_eq!(state_path(&shard), "./shards/11111111111111111111111111111111/state.bin");
}

#[test]
fn shard_names_read_back() {
    for byte in [0u8, 1, 94, 200, 255] {
        let shard = H256([byte; 32]);
        assert_eq!(shard_from_name(&shard_name(&shard)), Ok(shard));
    }
    assert_eq!(shard_from_name(NAME_OF_94), Ok(H256([94u8; 32])));
    assert_eq!(shard_from_name(&"1".repeat(32)), Ok(H256([0u8; 32])));
}

#[test]
fn shard_name_with_more_than_32_bytes_gives_the_first_32() {
    // The base-58 text of 33 bytes of 7.
    let name = "365efUdXGhRExyDEUeKXWPg1zTZyfvuJQJDLsS7JZqzyt";
    assert_eq!(shard_from_name(name), Ok(H256([7u8; 32])));
    assert_eq!(shard_from_name(&"1".repeat(33)), Ok(H256([0u8; 32])));
}

#[test]
fn shard_name_with_fewer_than_32_bytes_is_rejected() {
    // The base-58 text of 31 bytes of 7.
    let name = "7DUeBUtEcb7nujVZRJmeBju3X1mo6PpnWNtJ9EBhdY";
    assert_eq!(shard_from_name(name), Err(StoreError::Decode));
    assert_eq!(shard_from_name(&"1".repeat(31)), Err(StoreError::Decode));
    assert_eq!(shard_from_name("ZiCa"), Err(StoreError::Decode));
    assert_eq!(shard_from_name(""), Err(StoreError::Decode));
}

#[test]
fn shard_name_that_is_not_base58_is_rejected() {
    // 0, O, I and l are no base-58 digits.
    for digit in ["0", "O", "I", "l", "-", " ", "é"] {
        let name = format!("{}{}", &NAME_OF_94[1..], digit);
        assert_eq!(shard_from_name(&name), Err(StoreError::Decode));
    }
}

#[test]
fn shard_name_beyond_the_decoder_is_rejected() {
    assert_eq!(shard_from_name(&"1".repeat(132)), Ok(H256([0u8; 32])));
    assert_eq!(shard_from_name(&"1".repeat(133)), Err(StoreError::Decode));
    assert_eq!(shard_from_name(&"1".repeat(255)), Err(StoreError::Decode));
    assert_eq!(shard_from_name(&"z".repeat(200)), Err(StoreError::Decode));
}

#[test]
fn list_shards_reads_the_shards_directory() {
    match list_shards() {
        Step::Ask(ListState::Listing, Request::ReadDir { path }) => assert_eq!(path, "./shards"),
        other => panic!("unexpected first step {:?}", other),
    }
}

#[test]
fn list_shards_without_a_shards_directory_is_empty() {
    let mut disk = Disk::new();
    assert_eq!(disk.list_shards(), Ok(vec![]));
    assert_eq!(disk.served, vec!["read_dir"]);
    assert_eq!(done(list_shards_resume(ListState::Listing, Reply::Missing)), Ok(vec![]));
}

#[test]
fn list_shards_of_a_directory_that_cannot_be_read_is_an_io_error() {
    let mut disk = Disk::new();
    disk.init_shard(&H256([1u8; 32])).unwrap();
    disk.listing_fails = true;
    assert_eq!(disk.list_shards(), Err(StoreError::Io));
    assert_eq!(done(list_shards_resume(ListState::Listing, Reply::Failed)), Err(StoreError::Io));
    assert_eq!(done(list_shards_resume(ListState::Listing, Reply::Done)), Err(StoreError::Io));
    assert_eq!(
        done(list_shards_resume(ListState::Listing, Reply::Bytes(vec![]))),
        Err(StoreError::Io)
    );
}

#[test]
fn list_shards_of_an_empty_directory_is_empty() {
    assert_eq!(done(list_shards_resume(ListState::Listing, Reply::Entries(vec![]))), Ok(vec![]));
}

#[test]
fn list_shards_gives_every_shard_in_the_order_of_the_entries() {
    let shards = vec![H256([200u8; 32]), H256([1u8; 32]), H256([94u8; 32])];
    let entries = shards.iter().map(|shard| EntryName::Name(shard_name(shard))).collect();
    assert_eq!(
        done(list_shards_resume(ListState::Listing, Reply::Entries(entries))),
        Ok(shards)
    );
}

#[test]
fn list_shards_finds_the_shards_that_were_initialised() {
    let mut disk = Disk::new();
    let first = H256([1u8; 32]);
    let second = H256([2u8; 32]);
    disk.init_shard(&first).unwrap();
    disk.init_shard(&second).unwrap();
    let mut listed = disk.list_shards().unwrap();
    listed.sort_by_key(|shard| shard.0);
    assert_eq!(listed, vec![first, second]);
}

#[test]
fn list_shards_is_all_or_nothing() {
    let good = || EntryName::Name(NAME_OF_94.to_string());
    let listing = |entries: Vec<EntryName>| {
        done(list_shards_resume(ListState::Listing, Reply::Entries(entries)))
    };
    assert_eq!(listing(vec![good(), EntryName::NotUnicode]), Err(StoreError::Decode));
    assert_eq!(listing(vec![good(), EntryName::Unreadable, good()]), Err(StoreError::Io));
    assert_eq!(
        listing(vec![good(), EntryName::Name("lost+found".to_string())]),
        Err(StoreError::Decode)
    );
    assert_eq!(listing(vec![EntryName::Name("ZiCa".to_string()), good()]), Err(StoreError::Decode));
    assert_eq!(listing(vec![EntryName::Name("1".repeat(133))]), Err(StoreError::Decode));
}

#[test]
fn list_shards_fails_as_the_first_bad_entry_does() {
    let listing = |entries: Vec<EntryName>| {
        done(list_shards_resume(ListState::Listing, Reply::Entries(entries)))
    };
    assert_eq!(listing(vec![EntryName::Unreadable, EntryName::NotUnicode]), Err(StoreError::Io));
    assert_eq!(
        listing(vec![EntryName::NotUnicode, EntryName::Unreadable]),
        Err(StoreError::Decode)
    );
}

#[test]
fn error_messages() {
    assert_eq!(StoreError::Io.message(), "storage could not be read or written");
    assert_eq!(StoreError::Crypto.message(), "sealing, unsealing or hashing failed");
    assert_eq!(StoreError::Decode.message(), "stored bytes or a shard name did not decode");
}

#[test]
fn state_from_value_has_no_changes() {
    let state = State::from_value(hello_world().state);
    assert_eq!(state.state, hello_world().state);
    assert_eq!(state.state_diff, StateDiffType::new());
    assert_eq!(State::default(), State::from_value(StateType::new()));
}
