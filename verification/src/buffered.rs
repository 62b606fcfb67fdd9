//! The buffering adapter: small inputs are kept in a fixed buffer and hashed
//! in one call; streaming state is only built once the buffer would overflow.
use crate::backend::arc_clone;
use crate::entropy::EntropyPool;
use crate::error::HashError;
use crate::primitive::{HashPrimitive, Keying};
use crate::secret::SecretRef;
use std::sync::Arc;
use vstd::prelude::*;

verus! {

/// The number of bytes a [`BufferedHasher`] keeps before it builds streaming
/// state.
pub const BUFFER_CAPACITY: usize = 512;

/// What a [`BufferedHasher`] stands for: how it is keyed, and every byte
/// written to it so far.
pub struct HasherModel {
    pub keying: Keying,
    pub absorbed: Seq<u8>,
}

impl HasherModel {
    /// A hasher that has been written nothing.
    pub open spec fn fresh(keying: Keying) -> HasherModel {
        HasherModel { keying, absorbed: Seq::empty() }
    }

    /// The hasher after one more write.
    pub open spec fn write(self, bytes: Seq<u8>) -> HasherModel {
        HasherModel { keying: self.keying, absorbed: self.absorbed + bytes }
    }

    /// The hasher after one write for each chunk, in order.
    pub open spec fn write_all(self, chunks: Seq<Seq<u8>>) -> HasherModel
        decreases chunks.len(),
    {
        if chunks.len() == 0 {
            self
        } else {
            self.write_all(chunks.drop_last()).write(chunks.last())
        }
    }

    /// Whether the hasher has left its buffer for streaming state: exactly
    /// when it has been written more than [`BUFFER_CAPACITY`] bytes.
    pub open spec fn promoted(self) -> bool {
        self.absorbed.len() > BUFFER_CAPACITY
    }

    /// The digest that `finish` returns: the one-shot digest of everything
    /// written.
    pub open spec fn digest<'a, P: HashPrimitive<'a>>(self) -> P::Digest {
        P::digest_of(self.keying, self.absorbed)
    }
}

/// The contents of each chunk of a chunked input.
pub open spec fn chunk_views(chunks: Seq<&[u8]>) -> Seq<Seq<u8>> {
    chunks.map_values(|chunk: &[u8]| chunk@)
}

/// How streaming state is to be made once it is needed.
enum InitMode<'a> {
    Default,
    Seeded(u64),
    SecretRef(SecretRef<'a>),
    SecretShared(Arc<EntropyPool>),
}

impl<'a> InitMode<'a> {
    spec fn keying(&self) -> Keying {
        match self {
            InitMode::Default => Keying::Unkeyed,
            InitMode::Seeded(seed) => Keying::Seeded(*seed),
            InitMode::SecretRef(secret) => Keying::Keyed(secret@),
            InitMode::SecretShared(pool) => Keying::Keyed(pool@),
        }
    }

    fn duplicate(&self) -> (copy: InitMode<'a>)
        ensures
            copy == *self,
    {
        match self {
            InitMode::Default => InitMode::Default,
            InitMode::Seeded(seed) => InitMode::Seeded(*seed),
            InitMode::SecretRef(secret) => InitMode::SecretRef(*secret),
            InitMode::SecretShared(pool) => InitMode::SecretShared(arc_clone(pool)),
        }
    }
}

/// The secret material that live streaming state depends on, kept for as
/// long as that state lives.
enum SecretOwnership<'a> {
    Unneeded,
    Borrowed(SecretRef<'a>),
    Shared(Arc<EntropyPool>),
}

impl<'a> SecretOwnership<'a> {
    /// Whether this is what a primitive keyed by `keying` depends on.
    spec fn serves(&self, keying: Keying) -> bool {
        match self {
            SecretOwnership::Unneeded => !(keying is Keyed),
            SecretOwnership::Borrowed(secret) => keying == Keying::Keyed(secret@),
            SecretOwnership::Shared(pool) => keying == Keying::Keyed(pool@),
        }
    }

    fn duplicate(&self) -> (copy: SecretOwnership<'a>)
        ensures
            copy == *self,
    {
        match self {
            SecretOwnership::Unneeded => SecretOwnership::Unneeded,
            SecretOwnership::Borrowed(secret) => SecretOwnership::Borrowed(*secret),
            SecretOwnership::Shared(pool) => SecretOwnership::Shared(arc_clone(pool)),
        }
    }
}

/// The two shapes of a [`BufferedHasher`].
enum Shape<'a, P> {
    Buffered { mode: InitMode<'a>, buffer: Vec<u8> },
    Streaming { primitive: P, secret: SecretOwnership<'a> },
}

/// A hasher that accumulates up to [`BUFFER_CAPACITY`] bytes and only then
/// turns to the primitive's streaming state.
///
/// Whatever the shape, `finish` returns the digest that the primitive's
/// one-shot operation gives for all bytes written, under the keying the
/// hasher was made with.
pub struct BufferedHasher<'a, P: HashPrimitive<'a>> {
    shape: Shape<'a, P>,
}

impl<'a, P: HashPrimitive<'a>> View for BufferedHasher<'a, P> {
    type V = HasherModel;

    closed spec fn view(&self) -> HasherModel {
        match self.shape {
            Shape::Buffered { mode, buffer } => HasherModel {
                keying: mode.keying(),
                absorbed: buffer@,
            },
            Shape::Streaming { primitive, secret } => HasherModel {
                keying: primitive.keying(),
                absorbed: primitive.absorbed(),
            },
        }
    }
}

impl<'a, P: HashPrimitive<'a>> BufferedHasher<'a, P> {
    /// Whether the hasher has been promoted from its buffer to streaming
    /// state.
    pub closed spec fn spec_is_streaming(&self) -> bool {
        self.shape is Streaming
    }

    /// Whether the hasher has been promoted from its buffer to streaming
    /// state.
    #[verifier::when_used_as_spec(spec_is_streaming)]
    pub fn is_streaming(&self) -> (streaming: bool)
        ensures
            streaming == self.is_streaming(),
            self.wf() ==> streaming == self@.promoted(),
    {
        match &self.shape {
            Shape::Buffered { .. } => false,
            Shape::Streaming { .. } => true,
        }
    }

    /// The validity of a hasher: it is in streaming shape exactly when it has
    /// been written more than [`BUFFER_CAPACITY`] bytes, and in that shape it
    /// holds the secret its primitive depends on. Every constructor
    /// establishes it and every method keeps it.
    pub closed spec fn wf(&self) -> bool {
        match self.shape {
            Shape::Buffered { mode, buffer } => buffer@.len() <= BUFFER_CAPACITY,
            Shape::Streaming { primitive, secret } => {
                &&& primitive.absorbed().len() > BUFFER_CAPACITY
                &&& secret.serves(primitive.keying())
            },
        }
    }

    /// A valid hasher is promoted exactly when its input has outgrown the
    /// buffer.
    pub proof fn lemma_promoted_iff_overflowed(&self)
        requires
            self.wf(),
        ensures
            self.is_streaming() == self@.promoted(),
    {
    }

    fn buffered(mode: InitMode<'a>) -> (hasher: Self)
        ensures
            hasher.wf(),
            hasher@ == HasherModel::fresh(mode.keying()),
            !hasher.is_streaming(),
    {
        BufferedHasher { shape: Shape::Buffered { mode, buffer: Vec::new() } }
    }

    /// A hasher without seed or secret.
    pub fn new() -> (hasher: Self)
        ensures
            hasher.wf(),
            !hasher.is_streaming(),
            hasher@ == HasherModel::fresh(Keying::Unkeyed),
    {
        Self::buffered(InitMode::Default)
    }

    /// A hasher under a seed.
    pub fn with_seed(seed: u64) -> (hasher: Self)
        ensures
            hasher.wf(),
            !hasher.is_streaming(),
            hasher@ == HasherModel::fresh(Keying::Seeded(seed)),
    {
        Self::buffered(InitMode::Seeded(seed))
    }

    /// A hasher under a borrowed secret, which must outlive it. A secret
    /// shorter than [`MIN_SECRET_SIZE`](crate::MIN_SECRET_SIZE) is refused
    /// here, before anything is hashed.
    pub fn with_secret(secret: &'a [u8]) -> (result: Result<Self, HashError>)
        ensures
            secret@.len() >= crate::entropy::MIN_SECRET_SIZE ==> (result matches Ok(hasher)
                && hasher.wf() && !hasher.is_streaming() && hasher@ == HasherModel::fresh(
                Keying::Keyed(secret@),
            )),
            secret@.len() < crate::entropy::MIN_SECRET_SIZE ==> (result matches Err(error)
                && error == HashError::InvalidSecretLength),
    {
        match SecretRef::new(secret) {
            Ok(checked) => Ok(Self::buffered(InitMode::SecretRef(checked))),
            Err(error) => Err(error),
        }
    }

    /// A hasher under a pool that it shares with other owners. The pool is
    /// not copied and lives as long as its last owner.
    pub fn with_secret_shared(pool: Arc<EntropyPool>) -> (hasher: Self)
        ensures
            hasher.wf(),
            !hasher.is_streaming(),
            hasher@ == HasherModel::fresh(Keying::Keyed(pool@)),
    {
        Self::buffered(InitMode::SecretShared(pool))
    }

    /// A hasher under its own copy of a pool, which need not outlive it.
    pub fn with_secret_copy(pool: &EntropyPool) -> (hasher: Self)
        ensures
            hasher.wf(),
            !hasher.is_streaming(),
            hasher@ == HasherModel::fresh(Keying::Keyed(pool@)),
    {
        Self::buffered(InitMode::SecretShared(Arc::new(pool.clone())))
    }

    /// Streaming state for `mode` that has absorbed `buffered` and then
    /// `bytes`.
    fn promote(mode: &InitMode<'a>, buffered: &[u8], bytes: &[u8]) -> (shape: Shape<'a, P>)
        ensures
            shape matches Shape::Streaming { primitive, secret } && primitive.keying()
                == mode.keying() && primitive.absorbed() == buffered@ + bytes@ && secret.serves(
                primitive.keying(),
            ),
    {
        let (mut primitive, secret) = match mode {
            InitMode::Default => (P::new(), SecretOwnership::Unneeded),
            InitMode::Seeded(seed) => (P::with_seed(*seed), SecretOwnership::Unneeded),
            InitMode::SecretRef(secret) => (
                P::with_secret(*secret),
                SecretOwnership::Borrowed(*secret),
            ),
            InitMode::SecretShared(pool) => (
                P::with_secret_copy(pool),
                SecretOwnership::Shared(arc_clone(pool)),
            ),
        };
        primitive.write(buffered);
        primitive.write(bytes);
        assert(Seq::<u8>::empty() + buffered@ + bytes@ =~= buffered@ + bytes@);
        Shape::Streaming { primitive, secret }
    }

    /// Appends `bytes` to the input. While everything written fits the
    /// buffer the bytes are only copied; the write that would overflow it
    /// promotes the hasher, once and for good.
    pub fn write(&mut self, bytes: &[u8])
        ensures
            final(self)@ == old(self)@.write(bytes@),
            old(self).is_streaming() ==> final(self).is_streaming(),
            old(self).wf() ==> final(self).wf(),
            old(self).wf() ==> final(self).is_streaming() == final(self)@.promoted(),
    {
        let promoted = match &self.shape {
            Shape::Streaming { .. } => None,
            Shape::Buffered { mode, buffer } => {
                if buffer.len() <= BUFFER_CAPACITY && bytes.len() <= BUFFER_CAPACITY
                    - buffer.len() {
                    None
                } else {
                    Some(Self::promote(mode, buffer.as_slice(), bytes))
                }
            },
        };
        match promoted {
            Some(shape) => {
                self.shape = shape;
            },
            None => match &mut self.shape {
                Shape::Streaming { primitive, .. } => primitive.write(bytes),
                Shape::Buffered { buffer, .. } => buffer.extend_from_slice(bytes),
            },
        }
        assert(self@.keying == old(self)@.keying);
        assert(self@.absorbed == old(self)@.absorbed + bytes@);
    }

    /// Appends the chunks to the input, one after the other. How the input
    /// is cut into chunks makes no difference: the hasher ends up as if the
    /// chunks had been written joined together.
    pub fn write_all(&mut self, chunks: &[&[u8]])
        ensures
            final(self)@ == old(self)@.write_all(chunk_views(chunks@)),
            final(self)@ == old(self)@.write(chunk_views(chunks@).flatten()),
            old(self).is_streaming() ==> final(self).is_streaming(),
            old(self).wf() ==> final(self).wf(),
            old(self).wf() ==> final(self).is_streaming() == final(self)@.promoted(),
    {
        let ghost start = self@;
        let ghost valid = self.wf();
        let ghost streaming = self.is_streaming();
        let ghost views = chunk_views(chunks@);
        let mut i: usize = 0;
        while i < chunks.len()
            invariant
                i <= chunks.len(),
                views == chunk_views(chunks@),
                self@ == start.write_all(views.take(i as int)),
                streaming ==> self.is_streaming(),
                valid ==> self.wf(),
            decreases chunks.len() - i,
        {
            self.write(chunks[i]);
            proof {
                assert(views.take(i + 1).drop_last() =~= views.take(i as int));
                assert(views.take(i + 1).last() == chunks[i as int]@);
            }
            i += 1;
        }
        proof {
            assert(views.take(chunks.len() as int) =~= views);
            lemma_write_all_is_one_write(start, views);
        }
    }

    /// The digest of everything written so far, under the keying the hasher
    /// was made with. The hasher is not changed and is not promoted.
    pub fn finish(&self) -> (digest: P::Digest)
        ensures
            digest == self@.digest::<P>(),
    {
        match &self.shape {
            Shape::Streaming { primitive, .. } => primitive.finish(),
            Shape::Buffered { mode, buffer } => match mode {
                InitMode::Default => P::hash(buffer.as_slice()),
                InitMode::Seeded(seed) => P::hash_with_seed(*seed, buffer.as_slice()),
                InitMode::SecretRef(secret) => P::hash_with_secret(*secret, buffer.as_slice()),
                InitMode::SecretShared(pool) => P::hash_with_secret(
                    SecretRef::of_pool(pool),
                    buffer.as_slice(),
                ),
            },
        }
    }
}

/// Writing chunk after chunk is writing their concatenation at once.
pub proof fn lemma_write_all_is_one_write(start: HasherModel, chunks: Seq<Seq<u8>>)
    ensures
        start.write_all(chunks) == start.write(chunks.flatten()),
    decreases chunks.len(),
{
    chunks.lemma_flatten_and_flatten_alt_are_equivalent();
    if chunks.len() == 0 {
        assert(start.absorbed + Seq::<u8>::empty() =~= start.absorbed);
    } else {
        let head = chunks.drop_last();
        lemma_write_all_is_one_write(start, head);
        head.lemma_flatten_and_flatten_alt_are_equivalent();
        assert(start.absorbed + head.flatten() + chunks.last() =~= start.absorbed
            + chunks.flatten());
    }
}

/// Chunking invariance: however an input is split into chunks, a new hasher
/// that is written the chunks one by one finishes with the one-shot digest
/// of the whole input under the same keying.
pub proof fn lemma_chunking_invariance<'a, P: HashPrimitive<'a>>(
    keying: Keying,
    chunks: Seq<Seq<u8>>,
)
    ensures
        HasherModel::fresh(keying).write_all(chunks).digest::<P>() == P::digest_of(
            keying,
            chunks.flatten(),
        ),
{
    lemma_write_all_is_one_write(HasherModel::fresh(keying), chunks);
    assert(Seq::<u8>::empty() + chunks.flatten() =~= chunks.flatten());
}

/// Boundary promotion: a valid hasher that was made new and then written
/// any chunks is in streaming shape exactly when the chunks hold more than
/// [`BUFFER_CAPACITY`] bytes in all. A total of exactly the capacity leaves
/// it buffered; one byte more promotes it.
pub proof fn lemma_boundary_promotion<'a, P: HashPrimitive<'a>>(
    hasher: &BufferedHasher<'a, P>,
    keying: Keying,
    chunks: Seq<Seq<u8>>,
)
    requires
        hasher.wf(),
        hasher@ == HasherModel::fresh(keying).write_all(chunks),
    ensures
        hasher.is_streaming() == (chunks.flatten().len() > BUFFER_CAPACITY),
        chunks.flatten().len() == BUFFER_CAPACITY ==> !hasher.is_streaming(),
        chunks.flatten().len() == BUFFER_CAPACITY + 1 ==> hasher.is_streaming(),
{
    hasher.lemma_promoted_iff_overflowed();
    lemma_write_all_is_one_write(HasherModel::fresh(keying), chunks);
    assert(Seq::<u8>::empty() + chunks.flatten() =~= chunks.flatten());
}

/// Single promotion: a promoted hasher stays promoted whatever is written to
/// it, so along any run of writes the change from buffered to streaming
/// happens at most once.
pub proof fn lemma_promotion_is_final(start: HasherModel, chunks: Seq<Seq<u8>>)
    requires
        start.promoted(),
    ensures
        start.write_all(chunks).promoted(),
{
    lemma_write_all_is_one_write(start, chunks);
}

/// Early finish: a hasher that has been written nothing finishes with the
/// digest of the empty input under its keying.
pub proof fn lemma_early_finish<'a, P: HashPrimitive<'a>>(keying: Keying)
    ensures
        HasherModel::fresh(keying).digest::<P>() == P::digest_of(keying, Seq::<u8>::empty()),
{
}

/// Idempotent finish: the digest is determined by what the hasher stands
/// for. Two results of `finish` on hashers that stand for the same, such as
/// one hasher asked twice with no write in between, are equal.
pub proof fn lemma_finish_is_repeatable<'a, P: HashPrimitive<'a>>(
    first: &BufferedHasher<'a, P>,
    second: &BufferedHasher<'a, P>,
    first_digest: P::Digest,
    second_digest: P::Digest,
)
    requires
        first@ == second@,
        first_digest == first@.digest::<P>(),
        second_digest == second@.digest::<P>(),
    ensures
        first_digest == second_digest,
{
}

/// Clone divergence: when a hasher and its clone are written different
/// suffixes, each finishes with the one-shot digest of the shared prefix
/// followed by its own suffix.
pub proof fn lemma_clone_divergence<'a, P: HashPrimitive<'a>>(
    hasher: HasherModel,
    copy: HasherModel,
    hasher_suffix: Seq<u8>,
    copy_suffix: Seq<u8>,
)
    requires
        copy == hasher,
    ensures
        hasher.write(hasher_suffix).digest::<P>() == P::digest_of(
            hasher.keying,
            hasher.absorbed + hasher_suffix,
        ),
        copy.write(copy_suffix).digest::<P>() == P::digest_of(
            hasher.keying,
            hasher.absorbed + copy_suffix,
        ),
{
}

impl<'a, P: HashPrimitive<'a>> Clone for BufferedHasher<'a, P> {
    /// An independent hasher in the same state. Buffered bytes are copied, a
    /// shared pool gets one more owner, and streaming state is copied as it
    /// is.
    fn clone(&self) -> (copy: Self)
        ensures
            copy@ == self@,
            copy.is_streaming() == self.is_streaming(),
            self.wf() ==> copy.wf(),
    {
        match &self.shape {
            Shape::Buffered { mode, buffer } => BufferedHasher {
                shape: Shape::Buffered { mode: mode.duplicate(), buffer: buffer.clone() },
            },
            Shape::Streaming { primitive, secret } => BufferedHasher {
                shape: Shape::Streaming { primitive: primitive.fork(), secret: secret.duplicate() },
            },
        }
    }
}

} // verus!
