//! The event schema consumed by callers and indexers: each agreement-side
//! entry is recorded as a versioned leaf whose node is the keccak-256 digest
//! of its canonical little-endian byte serialisation, plus the forum-style
//! capacity record that gates how many entries can still be appended.
use vstd::prelude::*;

use crate::Pubkey;
use vstd::bytes::spec_u64_to_le_bytes;
use vstd::bytes::u64_to_le_bytes;

verus! {

/// A leaf node: the 32-byte digest of a serialised leaf.
pub type Node = [u8; 32];

/// The keccak-256 digest of a byte string. The digest is a function of the
/// bytes alone, the same in every process and on every machine.
pub uninterp spec fn keccak256(bytes: Seq<u8>) -> Seq<u8>;

/// Relies on `anchor_lang::solana_program::keccak::hashv` (the Solana keccak
/// hasher): it returns the keccak-256 digest of the concatenation of its
/// input slices, a pure function of those bytes.
#[verifier::external_body]
fn keccak256_digest(bytes: &Vec<u8>) -> (r: Node)
    ensures
        r@ == keccak256(bytes@),
{
    anchor_lang::solana_program::keccak::hashv(&[bytes.as_slice()]).to_bytes()
}

/// Who may append entries.
#[derive(Clone, Debug, PartialEq, Eq)]
pub enum RestrictionType {
    NoRestriction,
    Collection { collection: Pubkey },
}

/// Capacity bookkeeping for one forum of entries.
#[derive(Clone, Debug, PartialEq, Eq)]
pub struct ForumConfig {
    pub total_capacity: u64,
    pub post_count: u64,
    pub restriction: RestrictionType,
}

impl ForumConfig {
    /// Counts one more post, saturating at the maximum rather than wrapping.
    pub fn increment_post_count(&mut self)
        ensures
            final(self).post_count == (if old(self).post_count < u64::MAX {
                old(self).post_count + 1
            } else {
                u64::MAX as int
            }),
            final(self).total_capacity == old(self).total_capacity,
            final(self).restriction == old(self).restriction,
    {
        self.post_count = self.post_count.saturating_add(1);
    }

    /// Whether `requested_capacity` more posts still fit under the total.
    pub fn contains_post_capacity(&self, requested_capacity: u64) -> (r: bool)
        ensures
            r <==> requested_capacity <= (if self.total_capacity >= self.post_count {
                self.total_capacity - self.post_count
            } else {
                0
            }),
    {
        let remaining_posts = self.total_capacity.saturating_sub(self.post_count);
        requested_capacity <= remaining_posts
    }
}

/// The payload of one entry.
#[derive(Clone, Debug, PartialEq, Eq)]
pub enum EntryData {
    TextPost { title: String, body: String },
    ImagePost { title: String, src: String },
    LinkPost { title: String, url: String },
    Comment { post: Pubkey, parent: Option<Pubkey>, body: String },
}

/// Arguments carried by an append request.
#[derive(Clone, Debug, PartialEq, Eq)]
pub struct EntryArgs {
    pub data: EntryData,
}

/// Which kind of event a record carries.
#[derive(Clone, Copy, Debug, PartialEq, Eq)]
pub enum OndaSocialEventType {
    /// Marker for empty data.
    Uninitialized,
    /// A leaf schema event.
    LeafSchemaEvent,
}

/// The schema version of a leaf.
#[derive(Clone, Copy, Debug, PartialEq, Eq)]
pub enum Version {
    V1,
}

/// The single byte that stands for `v` in a serialised leaf.
pub open spec fn version_byte(v: Version) -> u8 {
    match v {
        Version::V1 => 1,
    }
}

impl Default for Version {
    fn default() -> (r: Self)
        ensures
            r == Version::V1,
    {
        Version::V1
    }
}

impl Version {
    /// The version's byte tag.
    pub fn to_bytes(&self) -> (r: u8)
        ensures
            r == version_byte(*self),
    {
        match self {
            Version::V1 => 1,
        }
    }
}

/// The kind of an entry.
#[derive(Clone, Copy, Debug, PartialEq, Eq)]
pub enum EntryType {
    TextPost,
    ImagePost,
    LinkPost,
    Comment,
}

/// The single byte that stands for `t` in a serialised leaf.
pub open spec fn entry_type_byte(t: EntryType) -> u8 {
    match t {
        EntryType::TextPost => 0,
        EntryType::ImagePost => 1,
        EntryType::LinkPost => 2,
        EntryType::Comment => 3,
    }
}

impl EntryType {
    /// The entry type's byte tag.
    pub fn to_bytes(&self) -> (r: u8)
        ensures
            r == entry_type_byte(*self),
    {
        match self {
            EntryType::TextPost => 0,
            EntryType::ImagePost => 1,
            EntryType::LinkPost => 2,
            EntryType::Comment => 3,
        }
    }
}

/// One versioned leaf: the identity, author and content digest of an entry.
#[derive(Clone, Copy, Debug, PartialEq, Eq)]
pub enum LeafSchema {
    V1 {
        id: Pubkey,
        entry_type: EntryType,
        author: Pubkey,
        created_at: i64,
        edited_at: Option<i64>,
        nonce: u64,
        data_hash: [u8; 32],
    },
}

/// A signed timestamp is serialised as the little-endian bytes of its
/// two's-complement 64-bit image.
pub open spec fn spec_i64_to_le_bytes(x: i64) -> Seq<u8> {
    spec_u64_to_le_bytes(x as u64)
}

/// The canonical byte serialisation of a leaf, in field order: version tag,
/// id, entry-type tag, author, created-at, edited-at (zero when absent),
/// nonce, then the content digest.
pub open spec fn leaf_schema_bytes(s: LeafSchema) -> Seq<u8> {
    match s {
        LeafSchema::V1 { id, entry_type, author, created_at, edited_at, nonce, data_hash } => seq![
            version_byte(Version::V1),
        ] + id@ + seq![entry_type_byte(entry_type)] + author@ + spec_i64_to_le_bytes(created_at)
            + spec_i64_to_le_bytes(
            match edited_at {
                Some(e) => e,
                None => 0,
            },
        ) + spec_u64_to_le_bytes(nonce) + data_hash@,
    }
}

/// The all-zero byte string that fills a default leaf's fields.
pub open spec fn zero_bytes_32() -> Seq<u8> {
    Seq::new(32, |i: int| 0u8)
}

impl Default for LeafSchema {
    fn default() -> (r: Self)
        ensures
            r matches LeafSchema::V1 { id, entry_type, author, created_at, edited_at, nonce, data_hash }
                && id@ == zero_bytes_32() && entry_type == EntryType::TextPost && author@
                == zero_bytes_32() && created_at == 0 && edited_at is None && nonce == 0
                && data_hash@ == zero_bytes_32(),
    {
        let zero: [u8; 32] = [0; 32];
        proof {
            assert(zero@ =~= zero_bytes_32());
        }
        LeafSchema::V1 {
            id: zero,
            entry_type: EntryType::TextPost,
            author: zero,
            created_at: 0,
            edited_at: None,
            nonce: 0,
            data_hash: zero,
        }
    }
}

impl LeafSchema {
    /// Builds a leaf from its parts.
    pub fn new_v0(
        id: Pubkey,
        entry_type: EntryType,
        author: Pubkey,
        created_at: i64,
        edited_at: Option<i64>,
        nonce: u64,
        data_hash: [u8; 32],
    ) -> (r: Self)
        ensures
            r == (LeafSchema::V1 { id, entry_type, author, created_at, edited_at, nonce, data_hash }),
    {
        Self::V1 { id, author, created_at, edited_at, entry_type, nonce, data_hash }
    }

    /// The leaf's schema version.
    pub fn version(&self) -> (r: Version)
        ensures
            r == Version::V1,
    {
        match self {
            LeafSchema::V1 { .. } => Version::V1,
        }
    }

    /// The entry's identity.
    pub fn id(&self) -> (r: Pubkey)
        ensures
            self matches LeafSchema::V1 { id, .. } && r == id,
    {
        match self {
            LeafSchema::V1 { id, .. } => *id,
        }
    }

    /// The entry's nonce.
    pub fn nonce(&self) -> (r: u64)
        ensures
            self matches LeafSchema::V1 { nonce, .. } && r == nonce,
    {
        match self {
            LeafSchema::V1 { nonce, .. } => *nonce,
        }
    }

    /// The digest of the entry's content.
    pub fn data_hash(&self) -> (r: [u8; 32])
        ensures
            self matches LeafSchema::V1 { data_hash, .. } && r == data_hash,
    {
        match self {
            LeafSchema::V1 { data_hash, .. } => *data_hash,
        }
    }

    /// The event record for this leaf: the leaf itself plus its node digest.
    pub fn to_event(&self) -> (r: LeafSchemaEvent)
        ensures
            r.event_type == OndaSocialEventType::LeafSchemaEvent,
            r.version == Version::V1,
            r.schema == *self,
            r.leaf_hash@ == keccak256(leaf_schema_bytes(*self)),
    {
        let version = self.version();
        let node = self.to_node();
        LeafSchemaEvent::new(version, *self, node)
    }

    /// The leaf's node: the keccak-256 digest of its canonical
    /// serialisation, [`leaf_schema_bytes`].
    pub fn to_node(&self) -> (r: Node)
        ensures
            r@ == keccak256(leaf_schema_bytes(*self)),
    {
        match self {
            LeafSchema::V1 { id, entry_type, author, created_at, edited_at, nonce, data_hash } => {
                let mut bytes: Vec<u8> = Vec::new();
                bytes.push(1u8);
                push_array_32(&mut bytes, id);
                let tag = entry_type.to_bytes();
                bytes.push(tag);
                push_array_32(&mut bytes, author);
                push_u64_le(&mut bytes, #[verifier::truncate] (*created_at as u64));
                let edited = match edited_at {
                    Some(e) => *e,
                    None => 0,
                };
                push_u64_le(&mut bytes, #[verifier::truncate] (edited as u64));
                push_u64_le(&mut bytes, *nonce);
                push_array_32(&mut bytes, data_hash);
                proof {
                    assert(bytes@ =~= leaf_schema_bytes(*self));
                }
                keccak256_digest(&bytes)
            },
        }
    }
}

/// Appends all 32 bytes of `a` to `bytes`.
fn push_array_32(bytes: &mut Vec<u8>, a: &[u8; 32])
    ensures
        final(bytes)@ == old(bytes)@ + a@,
{
    let mut j: usize = 0;
    while j < 32
        invariant
            0 <= j <= 32,
            bytes@ == old(bytes)@ + a@.take(j as int),
        decreases 32 - j,
    {
        bytes.push(a[j]);
        proof {
            assert(a@.take(j as int) + seq![a@[j as int]] =~= a@.take(j + 1));
            assert(old(bytes)@ + a@.take(j as int) + seq![a@[j as int]] =~= old(bytes)@ + a@.take(
                j + 1));
        }
        j += 1;
    }
    proof {
        assert(a@.take(32) =~= a@);
    }
}

/// Appends the eight little-endian bytes of `x` to `bytes`.
fn push_u64_le(bytes: &mut Vec<u8>, x: u64)
    ensures
        final(bytes)@ == old(bytes)@ + spec_u64_to_le_bytes(x),
{
    let mut le = u64_to_le_bytes(x);
    bytes.append(&mut le);
}

/// An emitted event: a leaf together with its digest.
#[derive(Clone, Copy, Debug, PartialEq, Eq)]
pub struct LeafSchemaEvent {
    pub event_type: OndaSocialEventType,
    pub version: Version,
    pub schema: LeafSchema,
    pub leaf_hash: [u8; 32],
}

impl LeafSchemaEvent {
    /// A leaf-schema event for `schema` whose node digest is `leaf_hash`.
    pub fn new(version: Version, schema: LeafSchema, leaf_hash: [u8; 32]) -> (r: LeafSchemaEvent)
        ensures
            r.event_type == OndaSocialEventType::LeafSchemaEvent,
            r.version == version,
            r.schema == schema,
            r.leaf_hash == leaf_hash,
    {
        LeafSchemaEvent { event_type: OndaSocialEventType::LeafSchemaEvent, version, schema, leaf_hash }
    }
}

} // verus!
