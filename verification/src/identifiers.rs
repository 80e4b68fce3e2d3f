//! Partition-scoped resource identifiers and their lossless codecs.
//!
//! An invocation id pairs a 64-bit partition key with a 128-bit
//! time-sortable uuid. Its binary form is exactly the 8 big-endian
//! partition-key bytes followed by the 16 uuid bytes; its printable form is
//! `inv_1` followed by 11 base62 digits of the partition key and 22 base62
//! digits of the uuid, 38 characters in all, so that a fixed-length string
//! prefix determines the partition key.

use vstd::prelude::*;

verus! {

use crate::base62::{
    b62_decode_fixed, b62_encoding, b62_push_fixed, b62_valid, b62_value, lemma_b62_encoding_props,
    lemma_pow62_11, lemma_pow62_22,
};
use crate::be_bytes::{
    be_encoding, be_push_fixed, be_read_fixed, be_value, lemma_be_encoding_props,
    lemma_be_value_bound, lemma_pow256_16, lemma_pow256_8,
};

/// Identifies a member of a raft group.
pub type PeerId = u64;

/// Identifies a partition.
pub type PartitionId = u64;

/// Routes a keyed resource to a partition.
pub type PartitionKey = u64;

/// Index of an entry within one invocation's journal.
pub type EntryIndex = u32;

/// Incremental id defining the service revision.
pub type ServiceRevision = u32;

/// Milliseconds since the unix epoch.
pub type MillisSinceEpoch = u64;

/// Leader epoch of a partition processor.
#[derive(Debug, PartialEq, Eq, Structural, Clone, Copy, Hash, PartialOrd, Ord)]
pub struct LeaderEpoch(pub u64);

impl LeaderEpoch {
    /// The epoch a fresh partition processor starts from.
    pub fn initial() -> (r: Self)
        ensures
            r.0 == 1,
    {
        LeaderEpoch(1)
    }
}

/// The leader epoch of a given partition.
pub type PartitionLeaderEpoch = (PartitionId, LeaderEpoch);

/// Data structures that carry a partition key.
pub trait WithPartitionKey {
    /// Returns the partition key.
    fn partition_key(&self) -> PartitionKey;
}

/// Resource identifiers that record the time of their creation.
pub trait TimestampAwareId {
    /// The timestamp when this id was created.
    fn timestamp(&self) -> MillisSinceEpoch;
}

/// Serializable ids that represent resources or entities.
pub trait ResourceId {
    /// The resource type of this id.
    fn resource_type(&self) -> IdResourceType;

    /// The number of bytes of this id's binary form.
    fn size_in_bytes(&self) -> usize;
}

/// The partition key of a byte key: what `compute_partition_key` returns.
/// The result depends on the key bytes alone, so equal keys route to the
/// same partition in every process and at every time.
pub uninterp spec fn xxh3_of(key: Seq<u8>) -> u64;

/// Relies on xxhash_rust's xxh3_64: the 64-bit xxh3 digest of the bytes,
/// a pure function of its input.
#[verifier::external_body]
pub fn compute_partition_key(key: &[u8]) -> (r: PartitionKey)
    ensures
        r == xxh3_of(key@),
{
    xxhash_rust::xxh3::xxh3_64(key)
}

/// Relies on ulid::Ulid::new: a fresh 128-bit id whose top 48 bits are the
/// current time in milliseconds and whose low 80 bits are random. Nothing
/// is promised of the value.
#[verifier::external_body]
fn fresh_ulid() -> u128 {
    ulid::Ulid::new().0
}

/// The 128-bit id assembled from a 48-bit timestamp and an 80-bit random
/// part; overflow bits of either part are discarded.
pub open spec fn ulid_from_parts(timestamp_ms: u64, random: u128) -> u128 {
    (((timestamp_ms & 0xFFFF_FFFF_FFFF) as u128) << 80) | (random & 0xFFFF_FFFF_FFFF_FFFF_FFFF)
}

/// How a decode of an identifier fails.
#[derive(Debug, Clone, PartialEq, Eq)]
pub enum IdDecodeError {
    /// The input has the wrong size.
    Length,
    /// The input holds a malformed body.
    Format,
    /// The input carries the tag of another resource type.
    TypeMismatch,
    /// The input uses an unsupported encoding scheme version.
    Version,
    /// The input starts with an unknown resource-type prefix.
    UnrecognizedType(String),
}

/// The resource types with a printable identifier form.
#[derive(Debug, Clone, Copy, PartialEq, Eq, Structural)]
pub enum IdResourceType {
    Invocation,
    Deployment,
    Subscription,
}

/// Unique id of a deployment.
#[derive(Debug, PartialEq, Eq, Structural, Clone, Copy, Hash, PartialOrd, Ord)]
pub struct DeploymentId(pub u128);

impl DeploymentId {
    /// A fresh, time-ordered deployment id.
    pub fn new() -> Self {
        DeploymentId(fresh_ulid())
    }

    /// A deployment id assembled from raw parts.
    pub fn from_parts(timestamp_ms: u64, random: u128) -> (r: Self)
        ensures
            r.0 == ulid_from_parts(timestamp_ms, random),
    {
        DeploymentId(
            (((timestamp_ms & 0xFFFF_FFFF_FFFF) as u128) << 80) | (random
                & 0xFFFF_FFFF_FFFF_FFFF_FFFF),
        )
    }
}

/// Unique id of a subscription.
#[derive(Debug, PartialEq, Eq, Structural, Clone, Copy, Hash, PartialOrd, Ord)]
pub struct SubscriptionId(pub u128);

impl SubscriptionId {
    /// A fresh, time-ordered subscription id.
    pub fn new() -> Self {
        SubscriptionId(fresh_ulid())
    }

    /// A subscription id assembled from raw parts.
    pub fn from_parts(timestamp_ms: u64, random: u128) -> (r: Self)
        ensures
            r.0 == ulid_from_parts(timestamp_ms, random),
    {
        SubscriptionId(
            (((timestamp_ms & 0xFFFF_FFFF_FFFF) as u128) << 80) | (random
                & 0xFFFF_FFFF_FFFF_FFFF_FFFF),
        )
    }
}

/// Discriminator for invocation instances: 128 bits, time-sortable, with
/// a millisecond timestamp in the top 48 bits and a random tail.
#[derive(Debug, PartialEq, Eq, Structural, Clone, Copy, Hash, PartialOrd, Ord)]
pub struct InvocationUuid(pub u128);

impl InvocationUuid {
    /// A fresh, globally unique invocation uuid.
    pub fn new() -> Self {
        InvocationUuid(fresh_ulid())
    }

    /// Reads a uuid back from its 16-byte big-endian form; any other
    /// length is a `Length` error.
    pub fn from_slice(b: &[u8]) -> (r: Result<Self, IdDecodeError>)
        ensures
            b@.len() == 16 ==> r == Ok::<Self, IdDecodeError>(
                InvocationUuid(be_value(b@) as u128),
            ),
            b@.len() != 16 ==> r == Err::<Self, IdDecodeError>(IdDecodeError::Length),
    {
        if b.len() != 16 {
            return Err(IdDecodeError::Length);
        }
        let v = be_read_fixed(b, 0, 16);
        proof {
            assert(b@.subrange(0, 16) =~= b@);
        }
        Ok(InvocationUuid(v))
    }

    /// Reads a uuid from exactly 16 big-endian bytes.
    pub fn from_bytes(b: &[u8]) -> (r: Self)
        requires
            b@.len() == 16,
        ensures
            r.0 as nat == be_value(b@),
    {
        let v = be_read_fixed(b, 0, 16);
        proof {
            assert(b@.subrange(0, 16) =~= b@);
        }
        InvocationUuid(v)
    }

    /// The 16-byte big-endian form.
    pub fn to_bytes(&self) -> (r: Vec<u8>)
        ensures
            r@ == be_encoding(self.0 as nat, 16),
            r@.len() == 16,
    {
        let mut out: Vec<u8> = Vec::new();
        be_push_fixed(self.0, 16, &mut out);
        proof {
            lemma_pow256_16();
            lemma_be_encoding_props(self.0 as nat, 16);
            assert(out@ =~= be_encoding(self.0 as nat, 16));
        }
        out
    }

    /// A uuid assembled from raw parts.
    pub fn from_parts(timestamp_ms: u64, random: u128) -> (r: Self)
        ensures
            r.0 == ulid_from_parts(timestamp_ms, random),
    {
        InvocationUuid(
            (((timestamp_ms & 0xFFFF_FFFF_FFFF) as u128) << 80) | (random
                & 0xFFFF_FFFF_FFFF_FFFF_FFFF),
        )
    }

    /// A uuid with the given timestamp and a fresh random tail.
    pub fn from_timestamp(timestamp_ms: u64) -> (r: Self)
        ensures
            r.0 >> 80 == (timestamp_ms & 0xFFFF_FFFF_FFFF) as u128,
    {
        let random = fresh_ulid();
        let r = Self::from_parts(timestamp_ms, random);
        proof {
            assert(((((timestamp_ms & 0xFFFF_FFFF_FFFF) as u128) << 80) | (random
                & 0xFFFF_FFFF_FFFF_FFFF_FFFF)) >> 80 == (timestamp_ms & 0xFFFF_FFFF_FFFF) as u128)
                by (bit_vector);
        }
        r
    }

    /// The timestamp and random part this uuid was assembled from.
    pub fn as_raw_parts(&self) -> (r: (u64, u128))
        ensures
            r.0 as u128 == self.0 >> 80,
            r.1 == self.0 & 0xFFFF_FFFF_FFFF_FFFF_FFFF,
    {
        let ts = (self.0 >> 80) as u64;
        proof {
            let v = self.0;
            assert((v >> 80) < 0x1_0000_0000_0000) by (bit_vector);
        }
        (ts, self.0 & 0xFFFF_FFFF_FFFF_FFFF_FFFF)
    }

    /// The next uuid in order; the random tail must not be saturated.
    pub fn increment_random(self) -> (r: Self)
        requires
            self.0 & 0xFFFF_FFFF_FFFF_FFFF_FFFF != 0xFFFF_FFFF_FFFF_FFFF_FFFF,
        ensures
            r.0 == self.0 + 1,
    {
        proof {
            let v = self.0;
            assert(v < u128::MAX) by (bit_vector)
                requires
                    v & 0xFFFF_FFFF_FFFF_FFFF_FFFF != 0xFFFF_FFFF_FFFF_FFFF_FFFF,
            ;
        }
        InvocationUuid(self.0 + 1)
    }

    /// The same uuid one millisecond later.
    pub fn increment_timestamp(self) -> (r: Self)
        requires
            (self.0 >> 80) < 0xFFFF_FFFF_FFFF,
        ensures
            r.0 == ulid_from_parts(((self.0 >> 80) + 1) as u64, self.0
                & 0xFFFF_FFFF_FFFF_FFFF_FFFF),
    {
        let (ts, random) = self.as_raw_parts();
        proof {
            let v = self.0;
            assert((v >> 80) < 0x1_0000_0000_0000) by (bit_vector);
        }
        Self::from_parts(ts + 1, random)
    }

    /// The creation time embedded in this uuid.
    pub fn timestamp_ms(&self) -> (r: u64)
        ensures
            r as u128 == self.0 >> 80,
    {
        proof {
            let v = self.0;
            assert((v >> 80) < 0x1_0000_0000_0000) by (bit_vector);
        }
        (self.0 >> 80) as u64
    }

    /// The 22-character base62 form.
    pub fn to_string(&self) -> (r: String)
        ensures
            r@ == b62_encoding(self.0 as nat, 22),
            r@.len() == 22,
    {
        let mut out = String::new();
        b62_push_fixed(self.0, 22, &mut out);
        proof {
            lemma_pow62_22();
            lemma_b62_encoding_props(self.0 as nat, 22);
            assert(out@ =~= b62_encoding(self.0 as nat, 22));
        }
        out
    }

    /// Decodes the 22-character base62 form: any other length is a
    /// `Length` error, a non-digit or an overflowing value a `Format`
    /// error, and otherwise the uuid whose digits these are.
    pub fn from_str(s: &str) -> (r: Result<InvocationUuid, IdDecodeError>)
        ensures
            s@.len() != 22 ==> r == Err::<InvocationUuid, IdDecodeError>(IdDecodeError::Length),
            s@.len() == 22 && !(b62_valid(s@) && b62_value(s@) <= u128::MAX as nat) ==> r == Err::<
                InvocationUuid,
                IdDecodeError,
            >(IdDecodeError::Format),
            s@.len() == 22 && b62_valid(s@) && b62_value(s@) <= u128::MAX as nat ==> (r matches Ok(
                u,
            ) && u.0 as nat == b62_value(s@)),
    {
        let n = s.unicode_len();
        if n != 22 {
            return Err(IdDecodeError::Length);
        }
        proof {
            assert(s@.subrange(0, 22) =~= s@);
        }
        match b62_decode_fixed(s, 0, 22) {
            Some(x) => Ok(InvocationUuid(x)),
            None => Err(IdDecodeError::Format),
        }
    }
}

impl TimestampAwareId for InvocationUuid {
    fn timestamp(&self) -> MillisSinceEpoch {
        self.timestamp_ms()
    }
}

/// Id of a keyed service instance. Services are isolated by key: there can
/// never be two concurrent invocations for the same (service name, key).
#[derive(Debug, PartialEq, Eq, Clone, Hash)]
pub struct ServiceId {
    /// Identifies the service.
    pub service_name: String,
    /// Identifies the service instance for the given service name.
    pub key: Vec<u8>,
    /// The partition this instance is routed to: always the hash of `key`.
    pub partition_key: PartitionKey,
}

impl ServiceId {
    /// A service id for the given name and key; the partition key is
    /// derived from the key bytes and from nothing else.
    pub fn new(service_name: String, key: Vec<u8>) -> (r: Self)
        ensures
            r.service_name == service_name,
            r.key == key,
            r.partition_key == xxh3_of(key@),
    {
        let partition_key = compute_partition_key(key.as_slice());
        Self::with_partition_key(partition_key, service_name, key)
    }

    /// A service id from parts already derived: the partition key must be
    /// the hash of the key, as `new` computes it.
    pub fn with_partition_key(
        partition_key: PartitionKey,
        service_name: String,
        key: Vec<u8>,
    ) -> (r: Self)
        requires
            partition_key == xxh3_of(key@),
        ensures
            r.service_name == service_name,
            r.key == key,
            r.partition_key == partition_key,
    {
        ServiceId { service_name, key, partition_key }
    }
}

impl WithPartitionKey for ServiceId {
    fn partition_key(&self) -> PartitionKey {
        self.partition_key
    }
}

/// Unique identifier of an invocation, carrying enough routing information
/// to reach the owning partition processor.
#[derive(Debug, PartialEq, Eq, Structural, Clone, Copy, Hash)]
pub struct InvocationId {
    /// Partition key of the called service instance.
    pub partition_key: PartitionKey,
    /// Uniquely identifies this invocation instance.
    pub inner: InvocationUuid,
}

/// The fixed 24-byte binary form of an invocation id.
pub type EncodedInvocationId = Vec<u8>;

/// The 24-byte binary form: 8 big-endian partition-key bytes, then the
/// 16 uuid bytes.
pub open spec fn encoded_invocation_id(partition_key: u64, uuid: u128) -> Seq<u8> {
    be_encoding(partition_key as nat, 8) + be_encoding(uuid as nat, 16)
}

/// The 38-character printable form: `inv`, the separator, scheme version
/// `1`, 11 base62 digits of the partition key, 22 base62 digits of the
/// uuid.
pub open spec fn invocation_id_string(partition_key: u64, uuid: u128) -> Seq<char> {
    seq!['i', 'n', 'v', '_', '1'] + b62_encoding(partition_key as nat, 11) + b62_encoding(
        uuid as nat,
        22,
    )
}

/// Index of the first separator in `s` at or after `from`, or -1.
pub open spec fn find_separator(s: Seq<char>, from: int) -> int
    decreases s.len() - from,
{
    if from < 0 || from >= s.len() {
        -1
    } else if s[from] == '_' {
        from
    } else {
        find_separator(s, from + 1)
    }
}

/// The resource type written with the given prefix, if any.
pub open spec fn resource_type_of_prefix(prefix: Seq<char>) -> Option<IdResourceType> {
    if prefix == seq!['i', 'n', 'v'] {
        Some(IdResourceType::Invocation)
    } else if prefix == seq!['d', 'p'] {
        Some(IdResourceType::Deployment)
    } else if prefix == seq!['s', 'u', 'b'] {
        Some(IdResourceType::Subscription)
    } else {
        None
    }
}

/// What decoding a printable invocation id yields, for every input string.
pub enum InvocationIdParse {
    /// The string is exactly the encoding of this partition key and uuid.
    Parsed { partition_key: u64, uuid: u128 },
    /// The string is empty, lacks the version character, or has a body of
    /// the wrong size.
    BadLength,
    /// The string has no separator, or its body holds a non-digit or an
    /// out-of-range value.
    BadFormat,
    /// The scheme version is not the supported one.
    BadVersion,
    /// The prefix names a resource type other than an invocation.
    WrongType,
    /// The prefix names no known resource type.
    UnknownPrefix(Seq<char>),
}

/// The full decode of a printable invocation id, including which error is
/// returned on every rejected input.
pub open spec fn parse_invocation_id_string(s: Seq<char>) -> InvocationIdParse {
    if s.len() == 0 {
        InvocationIdParse::BadLength
    } else {
        let p = find_separator(s, 0);
        if p < 0 {
            InvocationIdParse::BadFormat
        } else {
            let prefix = s.take(p);
            if resource_type_of_prefix(prefix) is None {
                InvocationIdParse::UnknownPrefix(prefix)
            } else if p + 1 >= s.len() {
                InvocationIdParse::BadLength
            } else if s[p + 1] != '1' {
                InvocationIdParse::BadVersion
            } else if resource_type_of_prefix(prefix) != Some(IdResourceType::Invocation) {
                InvocationIdParse::WrongType
            } else if s.len() - (p + 2) != 33 {
                InvocationIdParse::BadLength
            } else {
                let pk_part = s.subrange(p + 2, p + 13);
                let uuid_part = s.subrange(p + 13, p + 35);
                if !(b62_valid(pk_part) && b62_value(pk_part) <= u64::MAX as nat) {
                    InvocationIdParse::BadFormat
                } else if !(b62_valid(uuid_part) && b62_value(uuid_part) <= u128::MAX as nat) {
                    InvocationIdParse::BadFormat
                } else {
                    InvocationIdParse::Parsed {
                        partition_key: b62_value(pk_part) as u64,
                        uuid: b62_value(uuid_part) as u128,
                    }
                }
            }
        }
    }
}

/// Whether an executable decode result reports exactly the spec-level
/// parse outcome.
pub open spec fn parse_reported(r: Result<InvocationId, IdDecodeError>, o: InvocationIdParse) -> bool {
    match o {
        InvocationIdParse::Parsed { partition_key, uuid } => {
            &&& r matches Ok(id)
            &&& id.partition_key == partition_key
            &&& id.inner.0 == uuid
        },
        InvocationIdParse::BadLength => r == Err::<InvocationId, IdDecodeError>(
            IdDecodeError::Length,
        ),
        InvocationIdParse::BadFormat => r == Err::<InvocationId, IdDecodeError>(
            IdDecodeError::Format,
        ),
        InvocationIdParse::BadVersion => r == Err::<InvocationId, IdDecodeError>(
            IdDecodeError::Version,
        ),
        InvocationIdParse::WrongType => r == Err::<InvocationId, IdDecodeError>(
            IdDecodeError::TypeMismatch,
        ),
        InvocationIdParse::UnknownPrefix(prefix) => {
            &&& r matches Err(IdDecodeError::UnrecognizedType(sp))
            &&& sp@ == prefix
        },
    }
}

impl InvocationId {
    /// An invocation id from its two components.
    pub fn new(partition_key: PartitionKey, invocation_uuid: InvocationUuid) -> (r: Self)
        ensures
            r.partition_key == partition_key,
            r.inner == invocation_uuid,
    {
        InvocationId { partition_key, inner: invocation_uuid }
    }

    /// Reads an id back from its 24-byte binary form; any other length is
    /// a `Length` error.
    pub fn from_slice(b: &[u8]) -> (r: Result<Self, IdDecodeError>)
        ensures
            b@.len() == 24 ==> ({
                &&& r matches Ok(id)
                &&& id.partition_key as nat == be_value(b@.subrange(0, 8))
                &&& id.inner.0 as nat == be_value(b@.subrange(8, 24))
            }),
            b@.len() != 24 ==> r == Err::<Self, IdDecodeError>(IdDecodeError::Length),
    {
        if b.len() != 24 {
            return Err(IdDecodeError::Length);
        }
        let pk_raw = be_read_fixed(b, 0, 8);
        let uuid = be_read_fixed(b, 8, 16);
        proof {
            lemma_be_value_bound(b@.subrange(0, 8));
            lemma_pow256_8();
        }
        Ok(InvocationId { partition_key: pk_raw as u64, inner: InvocationUuid(uuid) })
    }

    /// The uuid component.
    pub fn invocation_uuid(&self) -> (r: InvocationUuid)
        ensures
            r == self.inner,
    {
        self.inner
    }

    /// The 24-byte binary form.
    pub fn to_bytes(&self) -> (r: EncodedInvocationId)
        ensures
            r@ == encoded_invocation_id(self.partition_key, self.inner.0),
            r@.len() == 24,
    {
        encode_invocation_id(self.partition_key, self.inner.0)
    }

    /// The creation time embedded in this id.
    pub fn timestamp_ms(&self) -> (r: u64)
        ensures
            r as u128 == self.inner.0 >> 80,
    {
        self.inner.timestamp_ms()
    }

    /// The 38-character printable form. Its first 16 characters are a
    /// function of the partition key alone, so a string prefix search can
    /// scope to one partition.
    pub fn to_string(&self) -> (r: String)
        ensures
            r@ == invocation_id_string(self.partition_key, self.inner.0),
            r@.len() == 38,
    {
        let mut out = String::new();
        out.append("inv_1");
        proof {
            reveal_strlit("inv_1");
            assert("inv_1"@ =~= seq!['i', 'n', 'v', '_', '1']);
        }
        b62_push_fixed(self.partition_key as u128, 11, &mut out);
        b62_push_fixed(self.inner.0, 22, &mut out);
        proof {
            lemma_pow62_11();
            lemma_pow62_22();
            lemma_b62_encoding_props(self.partition_key as nat, 11);
            lemma_b62_encoding_props(self.inner.0 as nat, 22);
            assert(out@ =~= invocation_id_string(self.partition_key, self.inner.0));
        }
        out
    }

    /// Decodes the printable form, reporting for every input exactly the
    /// outcome that `parse_invocation_id_string` gives it.
    pub fn from_str(s: &str) -> (r: Result<Self, IdDecodeError>)
        ensures
            parse_reported(r, parse_invocation_id_string(s@)),
    {
        let n = s.unicode_len();
        if n == 0 {
            return Err(IdDecodeError::Length);
        }
        // find the separator
        let mut p: usize = 0;
        let mut found = false;
        while p < n && !found
            invariant
                0 <= p <= n,
                n == s@.len(),
                found ==> p < n && s@[p as int] == '_' && find_separator(s@, 0) == p,
                !found ==> find_separator(s@, 0) == find_separator(s@, p as int),
            decreases n - p + (if found { 0int } else { 1int }),
        {
            if s.get_char(p) == '_' {
                assert(find_separator(s@, p as int) == p);
                found = true;
            } else {
                assert(find_separator(s@, p as int) == find_separator(s@, p + 1));
                p = p + 1;
            }
        }
        if !found {
            assert(find_separator(s@, n as int) == -1);
            return Err(IdDecodeError::Format);
        }
        assert(find_separator(s@, 0) == p);
        let ghost prefix = s@.take(p as int);
        // resolve the resource-type prefix
        let rtype: Option<IdResourceType> = if p == 3 && s.get_char(0) == 'i' && s.get_char(1)
            == 'n' && s.get_char(2) == 'v' {
            proof {
                assert(prefix =~= seq!['i', 'n', 'v']);
            }
            Some(IdResourceType::Invocation)
        } else if p == 2 && s.get_char(0) == 'd' && s.get_char(1) == 'p' {
            proof {
                assert(prefix =~= seq!['d', 'p']);
            }
            Some(IdResourceType::Deployment)
        } else if p == 3 && s.get_char(0) == 's' && s.get_char(1) == 'u' && s.get_char(2) == 'b' {
            proof {
                assert(prefix =~= seq!['s', 'u', 'b']);
            }
            Some(IdResourceType::Subscription)
        } else {
            proof {
                lemma_prefix_unrecognized(prefix);
            }
            None
        };
        let rtype = match rtype {
            Some(t) => t,
            None => {
                let prefix_str = s.substring_char(0, p);
                return Err(IdDecodeError::UnrecognizedType(prefix_str.to_owned()));
            },
        };
        if p + 1 >= n {
            return Err(IdDecodeError::Length);
        }
        if s.get_char(p + 1) != '1' {
            return Err(IdDecodeError::Version);
        }
        if !matches!(rtype, IdResourceType::Invocation) {
            return Err(IdDecodeError::TypeMismatch);
        }
        if n - (p + 2) != 33 {
            return Err(IdDecodeError::Length);
        }
        let ghost pk_part = s@.subrange(p + 2, p + 13);
        let ghost uuid_part = s@.subrange(p + 13, p + 35);
        let pk_raw = match b62_decode_fixed(s, p + 2, 11) {
            Some(x) => x,
            None => {
                return Err(IdDecodeError::Format);
            },
        };
        if pk_raw > u64::MAX as u128 {
            return Err(IdDecodeError::Format);
        }
        let uuid = match b62_decode_fixed(s, p + 13, 22) {
            Some(x) => x,
            None => {
                return Err(IdDecodeError::Format);
            },
        };
        Ok(InvocationId { partition_key: pk_raw as u64, inner: InvocationUuid(uuid) })
    }
}

/// A prefix unlike every known tag names no resource type.
proof fn lemma_prefix_unrecognized(prefix: Seq<char>)
    requires
        !(prefix.len() == 3 && prefix[0] == 'i' && prefix[1] == 'n' && prefix[2] == 'v'),
        !(prefix.len() == 2 && prefix[0] == 'd' && prefix[1] == 'p'),
        !(prefix.len() == 3 && prefix[0] == 's' && prefix[1] == 'u' && prefix[2] == 'b'),
    ensures
        resource_type_of_prefix(prefix) is None,
{
    assert(prefix != seq!['i', 'n', 'v']);
    assert(prefix != seq!['d', 'p']);
    assert(prefix != seq!['s', 'u', 'b']);
}

impl TimestampAwareId for InvocationId {
    fn timestamp(&self) -> MillisSinceEpoch {
        self.inner.timestamp_ms()
    }
}

impl ResourceId for InvocationId {
    fn resource_type(&self) -> IdResourceType {
        IdResourceType::Invocation
    }

    fn size_in_bytes(&self) -> usize {
        24
    }
}

impl WithPartitionKey for InvocationId {
    fn partition_key(&self) -> PartitionKey {
        self.partition_key
    }
}

/// The 24-byte binary form of an invocation id.
fn encode_invocation_id(partition_key: PartitionKey, uuid: u128) -> (r: Vec<u8>)
    ensures
        r@ == encoded_invocation_id(partition_key, uuid),
        r@.len() == 24,
{
    let mut out: Vec<u8> = Vec::new();
    be_push_fixed(partition_key as u128, 8, &mut out);
    be_push_fixed(uuid, 16, &mut out);
    proof {
        lemma_pow256_8();
        lemma_pow256_16();
        lemma_be_encoding_props(partition_key as nat, 8);
        lemma_be_encoding_props(uuid as nat, 16);
        assert(out@ =~= encoded_invocation_id(partition_key, uuid));
    }
    out
}

/// Id of a single service invocation: the target service instance plus
/// the uuid that makes the invocation unique.
#[derive(Debug, PartialEq, Eq, Clone, Hash)]
pub struct FullInvocationId {
    /// Identifies the invoked service instance.
    pub service_id: ServiceId,
    /// Uniquely identifies this invocation instance.
    pub invocation_uuid: InvocationUuid,
}

impl FullInvocationId {
    /// A full invocation id for the given target; the partition key is
    /// derived from the key bytes.
    pub fn new(service_name: String, key: Vec<u8>, invocation_uuid: InvocationUuid) -> (r: Self)
        ensures
            r.service_id.service_name == service_name,
            r.service_id.key == key,
            r.service_id.partition_key == xxh3_of(key@),
            r.invocation_uuid == invocation_uuid,
    {
        Self::with_service_id(ServiceId::new(service_name, key), invocation_uuid)
    }

    /// A full invocation id with a fresh uuid.
    pub fn generate(service_name: String, key: Vec<u8>) -> (r: Self)
        ensures
            r.service_id.service_name == service_name,
            r.service_id.key == key,
            r.service_id.partition_key == xxh3_of(key@),
    {
        Self::with_service_id(ServiceId::new(service_name, key), InvocationUuid::new())
    }

    /// A full invocation id over an existing service id.
    pub fn with_service_id(service_id: ServiceId, invocation_uuid: InvocationUuid) -> (r: Self)
        ensures
            r.service_id == service_id,
            r.invocation_uuid == invocation_uuid,
    {
        FullInvocationId { service_id, invocation_uuid }
    }

    /// Projects to the short invocation id, dropping the service name and
    /// key irreversibly; the partition key and uuid are kept.
    pub fn to_invocation_id(&self) -> (r: InvocationId)
        ensures
            r.partition_key == self.service_id.partition_key,
            r.inner == self.invocation_uuid,
    {
        InvocationId {
            partition_key: self.service_id.partition_key,
            inner: self.invocation_uuid,
        }
    }

    /// The 24-byte binary form of the projected invocation id.
    pub fn to_invocation_id_bytes(&self) -> (r: EncodedInvocationId)
        ensures
            r@ == encoded_invocation_id(self.service_id.partition_key, self.invocation_uuid.0),
    {
        encode_invocation_id(self.service_id.partition_key, self.invocation_uuid.0)
    }

    /// The printable form of the projected invocation id.
    pub fn to_string(&self) -> (r: String)
        ensures
            r@ == invocation_id_string(self.service_id.partition_key, self.invocation_uuid.0),
    {
        self.to_invocation_id().to_string()
    }
}

impl WithPartitionKey for FullInvocationId {
    fn partition_key(&self) -> PartitionKey {
        self.service_id.partition_key
    }
}

/// Every invocation id round-trips losslessly through its 24-byte binary
/// form: the first 8 bytes read back as the partition key and the last 16
/// as the uuid.
pub proof fn lemma_invocation_id_bytes_roundtrip(partition_key: u64, uuid: u128)
    ensures
        encoded_invocation_id(partition_key, uuid).len() == 24,
        be_value(encoded_invocation_id(partition_key, uuid).subrange(0, 8)) == partition_key,
        be_value(encoded_invocation_id(partition_key, uuid).subrange(8, 24)) == uuid,
{
    lemma_pow256_8();
    lemma_pow256_16();
    lemma_be_encoding_props(partition_key as nat, 8);
    lemma_be_encoding_props(uuid as nat, 16);
    let e = encoded_invocation_id(partition_key, uuid);
    assert(e.subrange(0, 8) =~= be_encoding(partition_key as nat, 8));
    assert(e.subrange(8, 24) =~= be_encoding(uuid as nat, 16));
}

/// Every invocation id round-trips losslessly through its printable form,
/// and that form always has exactly 38 characters.
pub proof fn lemma_invocation_id_string_roundtrip(partition_key: u64, uuid: u128)
    ensures
        invocation_id_string(partition_key, uuid).len() == 38,
        parse_invocation_id_string(invocation_id_string(partition_key, uuid))
            == (InvocationIdParse::Parsed { partition_key, uuid }),
{
    lemma_pow62_11();
    lemma_pow62_22();
    lemma_b62_encoding_props(partition_key as nat, 11);
    lemma_b62_encoding_props(uuid as nat, 22);
    let a = b62_encoding(partition_key as nat, 11);
    let b = b62_encoding(uuid as nat, 22);
    let s = invocation_id_string(partition_key, uuid);
    assert(s.len() == 38);
    // the first separator stands right after the three prefix characters
    assert(s[0] == 'i' && s[1] == 'n' && s[2] == 'v' && s[3] == '_' && s[4] == '1');
    assert(s[0] != '_' && s[1] != '_' && s[2] != '_');
    assert(find_separator(s, 3) == 3);
    assert(find_separator(s, 2) == 3);
    assert(find_separator(s, 1) == 3);
    assert(find_separator(s, 0) == 3);
    assert(s.take(3) =~= seq!['i', 'n', 'v']);
    assert(resource_type_of_prefix(s.take(3)) == Some(IdResourceType::Invocation));
    assert(s.subrange(5, 16) =~= a);
    assert(s.subrange(16, 38) =~= b);
}

} // verus!
