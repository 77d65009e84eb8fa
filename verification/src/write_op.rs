//! State keys and write operations, as far as metering reads them.
use vstd::prelude::*;

verus! {

/// What metering reads of the identifier of one ledger storage slot: its
/// abstract size, which never changes between protocol versions, and the
/// length of its canonical encoding, which is absent where the key cannot be
/// encoded.
#[derive(Clone, Copy, Debug, PartialEq, Eq)]
pub struct StateKey {
    abstract_size: usize,
    encoded_len: Option<usize>,
}

impl StateKey {
    /// The abstract size of the key, in bytes.
    pub closed spec fn spec_size(&self) -> usize {
        self.abstract_size
    }

    /// The length of the key's canonical encoding, if it has one.
    pub closed spec fn spec_encoded_len(&self) -> Option<usize> {
        self.encoded_len
    }

    /// Whether the key has a canonical encoding.
    pub open spec fn encodable(&self) -> bool {
        self.spec_encoded_len().is_some()
    }

    pub fn new(abstract_size: usize, encoded_len: Option<usize>) -> (key: Self)
        ensures
            key.spec_size() == abstract_size,
            key.spec_encoded_len() == encoded_len,
    {
        StateKey { abstract_size, encoded_len }
    }

    #[verifier::when_used_as_spec(spec_size)]
    pub fn size(&self) -> (n: usize)
        ensures
            n == self.spec_size(),
    {
        self.abstract_size
    }

    #[verifier::when_used_as_spec(spec_encoded_len)]
    pub fn encoded_len(&self) -> (n: Option<usize>)
        ensures
            n == self.spec_encoded_len(),
    {
        self.encoded_len
    }
}

/// Bookkeeping that travels with a stored value. Metering never reads it.
#[derive(Clone, Copy, Debug, PartialEq, Eq)]
pub struct StateValueMetadata {
    pub deposit: u64,
    pub creation_time_usecs: u64,
}

/// The effect of a transaction on one state key.
#[derive(Clone, Debug, PartialEq, Eq)]
pub enum WriteOp {
    Creation(Vec<u8>),
    Modification(Vec<u8>),
    Deletion,
    CreationWithMetadata { data: Vec<u8>, metadata: StateValueMetadata },
    ModificationWithMetadata { data: Vec<u8>, metadata: StateValueMetadata },
    DeletionWithMetadata { metadata: StateValueMetadata },
}

/// The three things a write operation can do to a slot.
pub enum WriteKind {
    Creation,
    Modification,
    Deletion,
}

impl WriteOp {
    /// What the operation does, whether or not it carries metadata.
    pub open spec fn kind(&self) -> WriteKind {
        match self {
            WriteOp::Creation(_) => WriteKind::Creation,
            WriteOp::CreationWithMetadata { .. } => WriteKind::Creation,
            WriteOp::Modification(_) => WriteKind::Modification,
            WriteOp::ModificationWithMetadata { .. } => WriteKind::Modification,
            WriteOp::Deletion => WriteKind::Deletion,
            WriteOp::DeletionWithMetadata { .. } => WriteKind::Deletion,
        }
    }

    /// The bytes written; a deletion writes none.
    pub open spec fn payload(&self) -> Option<Seq<u8>> {
        match self {
            WriteOp::Creation(data) => Some(data@),
            WriteOp::CreationWithMetadata { data, .. } => Some(data@),
            WriteOp::Modification(data) => Some(data@),
            WriteOp::ModificationWithMetadata { data, .. } => Some(data@),
            WriteOp::Deletion => None,
            WriteOp::DeletionWithMetadata { .. } => None,
        }
    }

    /// The number of bytes written; zero for a deletion.
    pub open spec fn payload_len(&self) -> nat {
        match self.payload() {
            Some(data) => data.len(),
            None => 0,
        }
    }

    pub open spec fn is_deletion(&self) -> bool {
        self.kind() is Deletion
    }

    /// The bytes written, if any.
    pub fn bytes(&self) -> (r: Option<&Vec<u8>>)
        ensures
            (match r {
                Some(data) => self.payload() == Some(data@),
                None => self.is_deletion(),
            }),
    {
        match self {
            WriteOp::Creation(data) => Some(data),
            WriteOp::CreationWithMetadata { data, .. } => Some(data),
            WriteOp::Modification(data) => Some(data),
            WriteOp::ModificationWithMetadata { data, .. } => Some(data),
            WriteOp::Deletion => None,
            WriteOp::DeletionWithMetadata { .. } => None,
        }
    }
}

} // verus!
