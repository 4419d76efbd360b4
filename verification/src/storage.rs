//! The steps that the shard store leaves to its driver, and the driver's
//! answers.
//!
//! The store reads no file and holds no key. An operation of the store hands
//! out one [`Request`] at a time; the driver carries it out and returns a
//! [`Reply`], on which the operation goes on or ends.

use crate::error::StoreError;
use vstd::prelude::*;

verus! {

/// What the store asks its driver to do.
#[derive(Debug)]
pub enum Request {
    /// Say whether there is something at `path`.
    Exists { path: String },
    /// Create the directory `path` and every missing directory above it. A
    /// directory that is there already is no failure.
    CreateDirAll { path: String },
    /// Create an empty file at `path`; a file that is there already is cut
    /// to no bytes.
    CreateFile { path: String },
    /// Read the whole file at `path`.
    ReadFile { path: String },
    /// Replace what the file at `path` holds by `bytes`.
    WriteFile { path: String, bytes: Vec<u8> },
    /// List the names of the entries of the directory `path`.
    ReadDir { path: String },
    /// Fetch the sealing key and unseal `bytes` with it.
    Unseal { bytes: Vec<u8> },
    /// Fetch the sealing key and seal `bytes` with it.
    Seal { bytes: Vec<u8> },
    /// Hash `bytes`.
    Hash { bytes: Vec<u8> },
}

/// A [`Request`] as contracts speak of it.
pub enum RequestView {
    Exists { path: Seq<char> },
    CreateDirAll { path: Seq<char> },
    CreateFile { path: Seq<char> },
    ReadFile { path: Seq<char> },
    WriteFile { path: Seq<char>, bytes: Seq<u8> },
    ReadDir { path: Seq<char> },
    Unseal { bytes: Seq<u8> },
    Seal { bytes: Seq<u8> },
    Hash { bytes: Seq<u8> },
}

impl View for Request {
    type V = RequestView;

    open spec fn view(&self) -> RequestView {
        match self {
            Request::Exists { path } => RequestView::Exists { path: path@ },
            Request::CreateDirAll { path } => RequestView::CreateDirAll { path: path@ },
            Request::CreateFile { path } => RequestView::CreateFile { path: path@ },
            Request::ReadFile { path } => RequestView::ReadFile { path: path@ },
            Request::WriteFile { path, bytes } => RequestView::WriteFile {
                path: path@,
                bytes: bytes@,
            },
            Request::ReadDir { path } => RequestView::ReadDir { path: path@ },
            Request::Unseal { bytes } => RequestView::Unseal { bytes: bytes@ },
            Request::Seal { bytes } => RequestView::Seal { bytes: bytes@ },
            Request::Hash { bytes } => RequestView::Hash { bytes: bytes@ },
        }
    }
}

/// The name of one entry of a directory, as far as it could be read.
#[derive(Debug)]
pub enum EntryName {
    /// The name.
    Name(String),
    /// The name is not valid Unicode.
    NotUnicode,
    /// The entry could not be read.
    Unreadable,
}

/// An [`EntryName`] as contracts speak of it.
pub enum EntryNameView {
    Name(Seq<char>),
    NotUnicode,
    Unreadable,
}

impl View for EntryName {
    type V = EntryNameView;

    open spec fn view(&self) -> EntryNameView {
        match self {
            EntryName::Name(name) => EntryNameView::Name(name@),
            EntryName::NotUnicode => EntryNameView::NotUnicode,
            EntryName::Unreadable => EntryNameView::Unreadable,
        }
    }
}

/// What the driver answers to a [`Request`].
#[derive(Debug)]
pub enum Reply {
    /// The step was carried out: the answer to `CreateDirAll`, `CreateFile`
    /// and `WriteFile`.
    Done,
    /// The answer to `Exists`.
    Exists(bool),
    /// The bytes read, unsealed or sealed: the answer to `ReadFile`,
    /// `Unseal` and `Seal`.
    Bytes(Vec<u8>),
    /// The answer to `Hash`.
    Digest([u8; 32]),
    /// The answer to `ReadDir` for a directory that was read.
    Entries(Vec<EntryName>),
    /// The answer to `ReadDir` for a path at which there is nothing. A
    /// directory that is there and cannot be read is a failure.
    Missing,
    /// The step failed.
    Failed,
}

/// A [`Reply`] as contracts speak of it.
pub enum ReplyView {
    Done,
    Exists(bool),
    Bytes(Seq<u8>),
    Digest(Seq<u8>),
    Entries(Seq<EntryNameView>),
    Missing,
    Failed,
}

impl View for Reply {
    type V = ReplyView;

    open spec fn view(&self) -> ReplyView {
        match self {
            Reply::Done => ReplyView::Done,
            Reply::Exists(found) => ReplyView::Exists(*found),
            Reply::Bytes(bytes) => ReplyView::Bytes(bytes@),
            Reply::Digest(digest) => ReplyView::Digest(digest@),
            Reply::Entries(entries) => ReplyView::Entries(entries@.map_values(|e: EntryName| e@)),
            Reply::Missing => ReplyView::Missing,
            Reply::Failed => ReplyView::Failed,
        }
    }
}

/// Where an operation stands: it asks for a step outside and waits in state
/// `S` for the answer, or it has ended with a `T` or with a failure.
#[derive(Debug)]
pub enum Step<S, T> {
    /// The driver is to carry out the request and to resume the operation
    /// from the state with the answer.
    Ask(S, Request),
    /// The operation has ended.
    Done(Result<T, StoreError>),
}

impl<S, T> Step<S, T> {
    /// The operation asks for `request` and waits in a state that `waiting`
    /// holds of.
    pub open spec fn asks(self, waiting: spec_fn(S) -> bool, request: RequestView) -> bool {
        self matches Step::Ask(state, asked) && waiting(state) && asked@ == request
    }

    /// The operation has ended with a value that `wanted` holds of.
    pub open spec fn yields(self, wanted: spec_fn(T) -> bool) -> bool {
        self matches Step::Done(Ok(value)) && wanted(value)
    }

    /// The operation has ended with the failure `error`.
    pub open spec fn fails(self, error: StoreError) -> bool {
        self matches Step::Done(Err(e)) && e == error
    }
}

} // verus!
