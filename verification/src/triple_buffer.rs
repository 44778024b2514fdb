use std::sync::atomic::AtomicU32;
use std::sync::Arc;
use std::sync::Mutex;
use std::sync::MutexGuard;
use vstd::prelude::*;

verus! {

/// The errors that the triple buffer can report.
#[derive(Debug, Clone, Copy)]
pub enum TripleError {
    /// The mutex guarding a state could not be locked.
    PoisonError { name: &'static str },
    /// Unable to acquire the read state.
    Read,
    /// The read guard no longer holds its lock.
    ReadLock,
    /// The atomic read update was refused.
    ReadUpdate,
    /// Unable to acquire the write state.
    Write,
    /// The write guard no longer holds its lock.
    WriteLock,
    /// The atomic write update was refused.
    WriteUpdate,
}

/// The decoded form of the triple buffer's packed configuration word.
///
/// `idx1`, `idx2`, `idx3` are the state indices ordered from the most to the
/// least recently written.  `read` and `write` are the indices currently
/// locked for reading and writing; the value 3 means "no lock".
#[derive(Debug, PartialEq, Eq, Structural, Clone, Copy)]
pub struct TripleConfig {
    pub idx1: u32,
    pub idx2: u32,
    pub idx3: u32,
    pub read: u32,
    pub write: u32,
}

impl TripleConfig {
    /// Every field fits in two bits.
    pub open spec fn fields_fit(self) -> bool {
        &&& self.idx1 < 4
        &&& self.idx2 < 4
        &&& self.idx3 < 4
        &&& self.read < 4
        &&& self.write < 4
    }

    /// The configuration the triple buffer relies on: the three order indices
    /// are a permutation of the three states, each lock is a state or 3, and
    /// the reader and the writer never hold the same state.
    pub open spec fn valid(self) -> bool {
        &&& self.idx1 < 3
        &&& self.idx2 < 3
        &&& self.idx3 < 3
        &&& self.idx1 != self.idx2
        &&& self.idx1 != self.idx3
        &&& self.idx2 != self.idx3
        &&& self.read <= 3
        &&& self.write <= 3
        &&& (self.read != 3 && self.write != 3 ==> self.read != self.write)
    }

    /// The three order indices are the three states, each once.
    pub open spec fn orders_states(self) -> bool {
        &&& self.idx1 < 3
        &&& self.idx2 < 3
        &&& self.idx3 < 3
        &&& self.idx1 != self.idx2
        &&& self.idx1 != self.idx3
        &&& self.idx2 != self.idx3
    }

    /// The packed numeric value of a configuration whose fields fit in two bits.
    pub open spec fn packed(self) -> nat {
        self.idx1 as nat + 4 * self.idx2 as nat + 16 * self.idx3 as nat + 64 * self.read as nat
            + 256 * self.write as nat
    }

    /// The configuration decoded from a packed word.
    pub open spec fn unpacked(x: u32) -> TripleConfig {
        TripleConfig {
            idx1: (x % 4) as u32,
            idx2: ((x / 4) % 4) as u32,
            idx3: ((x / 16) % 4) as u32,
            read: ((x / 64) % 4) as u32,
            write: ((x / 256) % 4) as u32,
        }
    }

    /// Get the value of index 1 from a 32 bit config value
    pub fn idx1(x: u32) -> (r: u32)
        ensures
            r == x % 4,
    {
        assert((x & 3u32) >> 0u32 == x % 4) by (bit_vector);
        (x & 0b00000000_11) >> 0
    }

    /// Get the value of index 2 from a 32 bit config value
    pub fn idx2(x: u32) -> (r: u32)
        ensures
            r == (x / 4) % 4,
    {
        assert((x & 12u32) >> 2u32 == (x / 4) % 4) by (bit_vector);
        (x & 0b000000_1100) >> 2
    }

    /// Get the value of index 3 from a 32 bit config value
    pub fn idx3(x: u32) -> (r: u32)
        ensures
            r == (x / 16) % 4,
    {
        assert((x & 48u32) >> 4u32 == (x / 16) % 4) by (bit_vector);
        (x & 0b0000_110000) >> 4
    }

    /// Get the current read lock index from a 32 bit config value
    pub fn read(x: u32) -> (r: u32)
        ensures
            r == (x / 64) % 4,
    {
        assert((x & 192u32) >> 6u32 == (x / 64) % 4) by (bit_vector);
        (x & READ_MASK) >> 6
    }

    /// Get the current write lock index from a 32 bit config value
    pub fn write(x: u32) -> (r: u32)
        ensures
            r == (x / 256) % 4,
    {
        assert((x & 768u32) >> 8u32 == (x / 256) % 4) by (bit_vector);
        (x & 0b_1100000000) >> 8
    }
}

/// Appends `x` to `s` unless it is the excluded index `w`.
pub open spec fn keep_unless(s: Seq<u32>, x: u32, w: u32) -> Seq<u32> {
    if x != w {
        s.push(x)
    } else {
        s
    }
}

impl TripleConfig {
    /// The packed word of a configuration, field by field.
    pub open spec fn spec_to_word(self) -> u32 {
        (self.idx1 | (self.idx2 << 2u32) | (self.idx3 << 4u32) | (self.read << 6u32) | (self.write
            << 8u32))
    }

    /// The read lock attempt: fails when a read lock is already held,
    /// otherwise locks the most recently written state that is not being
    /// written.
    pub open spec fn spec_acquire_read(self) -> Option<TripleConfig> {
        if self.read != 3 {
            None
        } else if self.write != self.idx1 {
            Some(TripleConfig { read: self.idx1, ..self })
        } else if self.write != self.idx2 {
            Some(TripleConfig { read: self.idx2, ..self })
        } else if self.write != self.idx3 {
            Some(TripleConfig { read: self.idx3, ..self })
        } else {
            None
        }
    }

    /// The write lock attempt: fails when a write lock is already held,
    /// otherwise locks the least recently written state that is not being
    /// read.
    pub open spec fn spec_acquire_write(self) -> Option<TripleConfig> {
        if self.write != 3 {
            None
        } else if self.read != self.idx3 {
            Some(TripleConfig { write: self.idx3, ..self })
        } else if self.read != self.idx2 {
            Some(TripleConfig { write: self.idx2, ..self })
        } else if self.read != self.idx1 {
            Some(TripleConfig { write: self.idx1, ..self })
        } else {
            None
        }
    }

    /// The order indices other than `w`, from the most to the least recent.
    pub open spec fn others(self, w: u32) -> Seq<u32> {
        keep_unless(keep_unless(keep_unless(Seq::empty(), self.idx1, w), self.idx2, w), self.idx3, w)
    }

    /// Releasing the write lock on state `w`: `w` becomes the most recently
    /// written state, the other states keep their order, and the write lock
    /// is cleared.  Undefined (None) when fewer than two other states remain.
    pub open spec fn spec_clear_write(self, w: u32) -> Option<TripleConfig> {
        let rest = self.others(w);
        if rest.len() >= 2 {
            Some(TripleConfig { idx1: w, idx2: rest[0], idx3: rest[1], read: self.read, write: 3 })
        } else {
            None
        }
    }

    /// Releasing the read lock: the read field is set to 3.
    pub open spec fn spec_clear_read(self) -> TripleConfig {
        TripleConfig { read: 3, ..self }
    }

    /// The packed form of this configuration.
    pub fn to_word(self) -> (r: u32)
        ensures
            r == self.spec_to_word(),
            self.fields_fit() ==> r as nat == self.packed(),
            self.fields_fit() ==> TripleConfig::unpacked(r) == self,
    {
        let r = self.idx1 | (self.idx2 << 2u32) | (self.idx3 << 4u32) | (self.read << 6u32) | (
        self.write << 8u32);
        proof {
            lemma_pack_unpack(self);
        }
        r
    }

    /// Decode a packed configuration word.
    pub fn from_word(x: u32) -> (r: TripleConfig)
        ensures
            r == TripleConfig::unpacked(x),
            r.fields_fit(),
            r.packed() == x % 1024,
    {
        proof {
            lemma_unpack_pack(x);
        }
        TripleConfig {
            idx1: TripleConfig::idx1(x),
            idx2: TripleConfig::idx2(x),
            idx3: TripleConfig::idx3(x),
            read: TripleConfig::read(x),
            write: TripleConfig::write(x),
        }
    }

    /// The read lock attempt on a decoded configuration.
    pub fn acquire_read_step(self) -> (r: Option<TripleConfig>)
        ensures
            r == self.spec_acquire_read(),
    {
        if self.read != 3 {
            return None;
        }
        let read = if self.write != self.idx1 {
            self.idx1
        } else if self.write != self.idx2 {
            self.idx2
        } else if self.write != self.idx3 {
            self.idx3
        } else {
            return None;
        };
        Some(TripleConfig { read, ..self })
    }

    /// The write lock attempt on a decoded configuration.
    pub fn acquire_write_step(self) -> (r: Option<TripleConfig>)
        ensures
            r == self.spec_acquire_write(),
    {
        if self.write != 3 {
            return None;
        }
        let write = if self.read != self.idx3 {
            self.idx3
        } else if self.read != self.idx2 {
            self.idx2
        } else if self.read != self.idx1 {
            self.idx1
        } else {
            return None;
        };
        Some(TripleConfig { write, ..self })
    }

    /// The write release on a decoded configuration.
    pub fn clear_write_step(self, w: u32) -> (r: Option<TripleConfig>)
        ensures
            r == self.spec_clear_write(w),
    {
        let mut rest: Vec<u32> = Vec::new();
        if self.idx1 != w {
            rest.push(self.idx1);
        }
        if self.idx2 != w {
            rest.push(self.idx2);
        }
        if self.idx3 != w {
            rest.push(self.idx3);
        }
        assert(rest@ == self.others(w));
        if rest.len() >= 2 {
            Some(TripleConfig { idx1: w, idx2: rest[0], idx3: rest[1], read: self.read, write: 3 })
        } else {
            None
        }
    }

    /// The update applied to the atomic word when acquiring the read lock.
    pub fn read_update(x: u32) -> (r: Option<u32>)
        ensures
            r == TripleConfig::spec_read_update(x),
    {
        match TripleConfig::from_word(x).acquire_read_step() {
            Some(c) => Some(c.to_word()),
            None => None,
        }
    }

    /// The update applied to the atomic word when acquiring the write lock.
    pub fn write_update(x: u32) -> (r: Option<u32>)
        ensures
            r == TripleConfig::spec_write_update(x),
    {
        match TripleConfig::from_word(x).acquire_write_step() {
            Some(c) => Some(c.to_word()),
            None => None,
        }
    }

    /// The update applied to the atomic word when releasing the write lock on
    /// state `w`.
    pub fn clear_write_update(x: u32, w: u32) -> (r: Option<u32>)
        ensures
            r == TripleConfig::spec_clear_write_update(x, w),
    {
        match TripleConfig::from_word(x).clear_write_step(w) {
            Some(c) => Some(c.to_word()),
            None => None,
        }
    }

    pub open spec fn spec_read_update(x: u32) -> Option<u32> {
        match TripleConfig::unpacked(x).spec_acquire_read() {
            Some(c) => Some(c.spec_to_word()),
            None => None,
        }
    }

    pub open spec fn spec_write_update(x: u32) -> Option<u32> {
        match TripleConfig::unpacked(x).spec_acquire_write() {
            Some(c) => Some(c.spec_to_word()),
            None => None,
        }
    }

    pub open spec fn spec_clear_write_update(x: u32, w: u32) -> Option<u32> {
        match TripleConfig::unpacked(x).spec_clear_write(w) {
            Some(c) => Some(c.spec_to_word()),
            None => None,
        }
    }
}

/// Packing a configuration whose fields fit in two bits gives its numeric
/// value, and unpacking that value gives the configuration back.
pub proof fn lemma_pack_unpack(c: TripleConfig)
    ensures
        c.fields_fit() ==> c.spec_to_word() as nat == c.packed(),
        c.fields_fit() ==> TripleConfig::unpacked(c.spec_to_word()) == c,
{
    if c.fields_fit() {
        let (a, b, d, e, f) = (c.idx1, c.idx2, c.idx3, c.read, c.write);
        let w = c.spec_to_word();
        assert(w == (a | (b << 2u32) | (d << 4u32) | (e << 6u32) | (f << 8u32)));
        assert(a < 4 && b < 4 && d < 4 && e < 4 && f < 4 && w == (a | (b << 2u32) | (d << 4u32) | (
        e << 6u32) | (f << 8u32)) ==> {
            &&& w == a + 4 * b + 16 * d + 64 * e + 256 * f
            &&& w % 4 == a
            &&& (w / 4) % 4 == b
            &&& (w / 16) % 4 == d
            &&& (w / 64) % 4 == e
            &&& (w / 256) % 4 == f
        }) by (bit_vector);
    }
}

/// Unpacking a word and packing it again keeps its low ten bits.
pub proof fn lemma_unpack_pack(x: u32)
    ensures
        TripleConfig::unpacked(x).fields_fit(),
        TripleConfig::unpacked(x).packed() == x % 1024,
{
    assert(x % 4 + 4 * ((x / 4) % 4) + 16 * ((x / 16) % 4) + 64 * ((x / 64) % 4) + 256 * ((x / 256)
        % 4) == x % 1024) by (bit_vector);
}

/// The mask of the read lock field in the packed configuration word.
pub const READ_MASK: u32 = 0b00_11000000;

/// The configuration a new triple buffer starts with.
pub open spec fn spec_default_config() -> TripleConfig {
    TripleConfig { idx1: 0, idx2: 1, idx3: 2, read: 3, write: 3 }
}

impl Default for TripleConfig {
    /// No lock is held and the states are ordered 0, 1, 2.
    fn default() -> (r: TripleConfig)
        ensures
            r == spec_default_config(),
    {
        TripleConfig { idx1: 0, idx2: 1, idx3: 2, read: 3, write: 3 }
    }
}

impl From<u32> for TripleConfig {
    /// Decompose a packed word into its component indices.
    fn from(x: u32) -> (r: TripleConfig) {
        TripleConfig::from_word(x)
    }
}

impl vstd::std_specs::convert::FromSpecImpl<u32> for TripleConfig {
    open spec fn obeys_from_spec() -> bool {
        true
    }

    open spec fn from_spec(x: u32) -> TripleConfig {
        TripleConfig::unpacked(x)
    }
}

impl From<TripleConfig> for u32 {
    /// Combine the parts of a configuration into a single word.
    fn from(c: TripleConfig) -> (r: u32) {
        c.to_word()
    }
}

impl vstd::std_specs::convert::FromSpecImpl<TripleConfig> for u32 {
    open spec fn obeys_from_spec() -> bool {
        true
    }

    open spec fn from_spec(c: TripleConfig) -> u32 {
        c.spec_to_word()
    }
}

/// The default configuration is valid and its packed word is not zero.
pub proof fn lemma_default_config()
    ensures
        spec_default_config().valid(),
        spec_default_config().spec_to_word() == 996,
        TripleConfig::unpacked(spec_default_config().spec_to_word()) == spec_default_config(),
{
    lemma_pack_unpack(spec_default_config());
}

/// Acquiring the read lock on a valid configuration succeeds exactly when no
/// read lock is held; it locks the most recently written state that the
/// writer does not hold, changes nothing else, and keeps the configuration
/// valid, so the reader and the writer never share a state.
pub proof fn lemma_acquire_read(c: TripleConfig)
    requires
        c.valid(),
    ensures
        c.spec_acquire_read() is Some <==> c.read == 3,
        c.spec_acquire_read() matches Some(n) ==> {
            &&& n.valid()
            &&& n == TripleConfig { read: n.read, ..c }
            &&& n.read < 3
            &&& n.read != c.write
            &&& (n.read == c.idx1 || (c.idx1 == c.write && n.read == c.idx2))
        },
{
}

/// Acquiring the write lock on a valid configuration succeeds exactly when no
/// write lock is held; it locks the least recently written state that the
/// reader does not hold, changes nothing else, and keeps the configuration
/// valid.
pub proof fn lemma_acquire_write(c: TripleConfig)
    requires
        c.valid(),
    ensures
        c.spec_acquire_write() is Some <==> c.write == 3,
        c.spec_acquire_write() matches Some(n) ==> {
            &&& n.valid()
            &&& n == TripleConfig { write: n.write, ..c }
            &&& n.write < 3
            &&& n.write != c.read
            &&& (n.write == c.idx3 || (c.idx3 == c.read && n.write == c.idx2))
        },
{
}

/// Releasing the write lock on any state `w` of a configuration whose order
/// indices are a permutation of the three states makes `w` the most
/// recently written state, keeps the order of the two other states and the
/// read lock, clears the write lock, and keeps the order a permutation; a
/// configuration whose read field is a state or 3 ends valid.
pub proof fn lemma_clear_write(c: TripleConfig, w: u32)
    requires
        c.orders_states(),
        w < 3,
    ensures
        c.spec_clear_write(w) matches Some(n) && {
            &&& n.orders_states()
            &&& n.idx1 == w
            &&& n.read == c.read
            &&& n.write == 3
            &&& (c.idx1 == w ==> n.idx2 == c.idx2 && n.idx3 == c.idx3)
            &&& (c.idx2 == w ==> n.idx2 == c.idx1 && n.idx3 == c.idx3)
            &&& (c.idx3 == w ==> n.idx2 == c.idx1 && n.idx3 == c.idx2)
            &&& (c.read <= 3 ==> n.valid())
        },
{
}

/// The write-release update of a packed word whose order indices are a
/// permutation of the three states succeeds for any state `w`, and the new
/// word holds the configuration that `lemma_clear_write` describes.
pub proof fn lemma_clear_write_update(x: u32, w: u32)
    requires
        TripleConfig::unpacked(x).orders_states(),
        w < 3,
    ensures
        TripleConfig::spec_clear_write_update(x, w) matches Some(y) && TripleConfig::unpacked(
            x,
        ).spec_clear_write(w) matches Some(n) && TripleConfig::unpacked(y) == n
            && TripleConfig::unpacked(y).valid(),
{
    let c = TripleConfig::unpacked(x);
    lemma_clear_write(c, w);
    let n = c.spec_clear_write(w).unwrap();
    lemma_pack_unpack(n);
}

/// Setting the read field of a packed word to 3 (what releasing the read lock
/// does) clears the read lock, changes no other field, and keeps a valid
/// configuration valid.
pub proof fn lemma_clear_read(x: u32)
    ensures
        TripleConfig::unpacked(x | READ_MASK) == TripleConfig::unpacked(x).spec_clear_read(),
        TripleConfig::unpacked(x).valid() ==> TripleConfig::unpacked(x | READ_MASK).valid(),
{
    assert((x | 192u32) % 4 == x % 4 && ((x | 192u32) / 4) % 4 == (x / 4) % 4 && ((x | 192u32) / 16)
        % 4 == (x / 16) % 4 && ((x | 192u32) / 64) % 4 == 3 && ((x | 192u32) / 256) % 4 == (x / 256)
        % 4) by (bit_vector);
}

/// The read update of a packed word whose configuration is valid grants a
/// state that the writer does not hold, and the new word is valid.
pub proof fn lemma_read_update(x: u32)
    requires
        TripleConfig::unpacked(x).valid(),
    ensures
        TripleConfig::spec_read_update(x) matches Some(y) ==> {
            &&& TripleConfig::unpacked(y).valid()
            &&& TripleConfig::unpacked(y).read != TripleConfig::unpacked(x).write
            &&& TripleConfig::unpacked(y).read < 3
        },
{
    let c = TripleConfig::unpacked(x);
    lemma_acquire_read(c);
    if let Some(n) = c.spec_acquire_read() {
        lemma_pack_unpack(n);
    }
}

/// The write update of a packed word whose configuration is valid grants a
/// state that the reader does not hold, and the new word is valid.
pub proof fn lemma_write_update(x: u32)
    requires
        TripleConfig::unpacked(x).valid(),
    ensures
        TripleConfig::spec_write_update(x) matches Some(y) ==> {
            &&& TripleConfig::unpacked(y).valid()
            &&& TripleConfig::unpacked(y).write != TripleConfig::unpacked(x).read
            &&& TripleConfig::unpacked(y).write < 3
        },
{
    let c = TripleConfig::unpacked(x);
    lemma_acquire_write(c);
    if let Some(n) = c.spec_acquire_write() {
        lemma_pack_unpack(n);
    }
}

} // verus!

verus! {

#[verifier::external_type_specification]
#[verifier::external_body]
#[verifier::reject_recursive_types(T)]
pub struct ExMutex<T: ?Sized>(Mutex<T>);

#[verifier::external_type_specification]
#[verifier::external_body]
#[verifier::reject_recursive_types(T)]
pub struct ExMutexGuard<'a, T: ?Sized + 'a>(MutexGuard<'a, T>);

/// `Mutex::new` builds an unlocked mutex holding the value; nothing is
/// stated of its contents, which only the guard can reach.
pub assume_specification<T>[ Mutex::<T>::new ](t: T) -> Mutex<T>;

/// Calls `Mutex::try_lock` and keeps the guard when the lock was taken.
/// Whether the lock is free depends on the other threads, so nothing is
/// stated of the outcome.
#[verifier::external_body]
fn try_lock_state<'a, T>(m: &'a Mutex<T>) -> Option<MutexGuard<'a, T>> {
    m.try_lock().ok()
}

/// Dereferences a `MutexGuard` (`Deref::deref`); the guarded value is not
/// modelled.
#[verifier::external_body]
fn guard_state<'a, 'b, T>(g: &'b MutexGuard<'a, T>) -> &'b T {
    &**g
}

/// Mutably dereferences a `MutexGuard` (`DerefMut::deref_mut`); the guarded
/// value is not modelled.
#[verifier::external_body]
fn guard_state_mut<'a, 'b, T>(g: &'b mut MutexGuard<'a, T>) -> &'b mut T {
    &mut **g
}

/// Calls `AtomicU32::fetch_update` with the read-lock update.  As its
/// documentation says, the result is `Ok(previous)` for the word that the
/// update turned into a new one, and `Err(current)` for a word on which the
/// update declined.  Which word that is depends on the other thread.
#[verifier::external_body]
fn atomic_read_update(config: &AtomicU32) -> (r: Result<u32, u32>)
    ensures
        r matches Ok(prev) ==> TripleConfig::spec_read_update(prev) is Some,
        r matches Err(cur) ==> TripleConfig::spec_read_update(cur) is None,
{
    config.fetch_update(
        std::sync::atomic::Ordering::SeqCst,
        std::sync::atomic::Ordering::SeqCst,
        |x| TripleConfig::read_update(x),
    )
}

/// Calls `AtomicU32::fetch_update` with the write-lock update; see
/// `atomic_read_update` for what the result means.
#[verifier::external_body]
fn atomic_write_update(config: &AtomicU32) -> (r: Result<u32, u32>)
    ensures
        r matches Ok(prev) ==> TripleConfig::spec_write_update(prev) is Some,
        r matches Err(cur) ==> TripleConfig::spec_write_update(cur) is None,
{
    config.fetch_update(
        std::sync::atomic::Ordering::SeqCst,
        std::sync::atomic::Ordering::SeqCst,
        |x| TripleConfig::write_update(x),
    )
}

/// Calls `AtomicU32::fetch_update` with the write-release update for state
/// `w`; see `atomic_read_update` for what the result means.
#[verifier::external_body]
fn atomic_clear_write_update(config: &AtomicU32, w: u32) -> (r: Result<u32, u32>)
    ensures
        r matches Ok(prev) ==> TripleConfig::spec_clear_write_update(prev, w) is Some,
        r matches Err(cur) ==> TripleConfig::spec_clear_write_update(cur, w) is None,
    opens_invariants none
    no_unwind
{
    config.fetch_update(
        std::sync::atomic::Ordering::SeqCst,
        std::sync::atomic::Ordering::SeqCst,
        |x| TripleConfig::clear_write_update(x, w),
    )
}

/// Calls `AtomicU32::fetch_or` with the read mask, which sets the read field
/// to 3.
#[verifier::external_body]
fn atomic_clear_read(config: &AtomicU32)
    opens_invariants none
    no_unwind
{
    config.fetch_or(READ_MASK, std::sync::atomic::Ordering::SeqCst);
}

/// Drops the `MutexGuard` held in `slot` (its `Drop` unlocks the mutex) and
/// leaves `None` there.
#[verifier::external_body]
fn unlock_guard<'a, T>(slot: &mut Option<MutexGuard<'a, T>>)
    ensures
        *final(slot) is None,
    opens_invariants none
    no_unwind
{
    drop(slot.take());
}

/// The read lock on state `i` is what the read update grants on word `prev`.
pub open spec fn read_granted(prev: u32, i: usize) -> bool {
    TripleConfig::unpacked(prev).spec_acquire_read() matches Some(c) && c.read == i
}

/// The write lock on state `i` is what the write update grants on word `prev`.
pub open spec fn write_granted(prev: u32, i: usize) -> bool {
    TripleConfig::unpacked(prev).spec_acquire_write() matches Some(c) && c.write == i
}

impl TripleConfig {
    /// Atomically try to get the read lock.  On success the index is the
    /// state the read update chose on the word it changed; on a word whose
    /// order fields are not states that index can be 3.
    pub fn acquire_read(config: &AtomicU32) -> (r: Result<usize, TripleError>)
        ensures
            r matches Ok(i) ==> i <= 3 && exists|prev: u32| read_granted(prev, i),
            r matches Err(e) ==> e is ReadUpdate,
    {
        match atomic_read_update(config) {
            Ok(prev) => {
                let c = TripleConfig::from_word(prev).acquire_read_step().unwrap();
                let i = c.read as usize;
                assert(read_granted(prev, i));
                Ok(i)
            },
            Err(_) => Err(TripleError::ReadUpdate),
        }
    }

    /// Atomically try to get the write lock.  On success the index is the
    /// state the write update chose on the word it changed; on a word whose
    /// order fields are not states that index can be 3.
    pub fn aquire_write(config: &AtomicU32) -> (r: Result<usize, TripleError>)
        ensures
            r matches Ok(i) ==> i <= 3 && exists|prev: u32| write_granted(prev, i),
            r matches Err(e) ==> e is WriteUpdate,
    {
        match atomic_write_update(config) {
            Ok(prev) => {
                let c = TripleConfig::from_word(prev).acquire_write_step().unwrap();
                let i = c.write as usize;
                assert(write_granted(prev, i));
                Ok(i)
            },
            Err(_) => Err(TripleError::WriteUpdate),
        }
    }

    /// Remove the read lock: the word's read field is set to 3, as
    /// `lemma_clear_read` shows of the mask.  The atomic word is shared and
    /// not modelled, so no clause states it.
    pub fn clear_read(config: &AtomicU32)
        opens_invariants none
        no_unwind
    {
        atomic_clear_read(config);
    }

    /// Remove the write lock held on state `write_buffer_idx`, making that
    /// state the most recently written one.  The update declines only on a
    /// word with fewer than two states other than `write_buffer_idx`, which
    /// a valid configuration never is; the word is then left as it was.
    pub fn clear_write(config: &AtomicU32, write_buffer_idx: usize)
        requires
            write_buffer_idx < 3,
        opens_invariants none
        no_unwind
    {
        let _ = atomic_clear_write_update(config, write_buffer_idx as u32);
    }
}

/// A triple buffer: one thread reads the most recently written state while
/// another writes the oldest one.  Three states stop either side from
/// blocking the other.
#[verifier::reject_recursive_types(T)]
pub struct TripleBuffer<T: Send> {
    states: [Mutex<T>; 3],
    config: AtomicU32,
}

/// The handle that can only read from a triple buffer.
#[verifier::reject_recursive_types(T)]
pub struct TripleBufferReader<T: Send> {
    inner: Arc<TripleBuffer<T>>,
}

/// The handle that can only write to a triple buffer.
#[verifier::reject_recursive_types(T)]
pub struct TripleBufferWriter<T: Send> {
    inner: Arc<TripleBuffer<T>>,
}

impl<T: Send> TripleBuffer<T> {
    /// Construct a new triple buffer using the default values of the
    /// contained type.
    pub fn new() -> (r: (TripleBufferReader<T>, TripleBufferWriter<T>)) where T: Default
        ensures
            r.0.buffer() == r.1.buffer(),
    {
        Self::from_states(T::default(), T::default(), T::default())
    }

    /// Construct a new triple buffer whose states are all clones of `data`.
    pub fn new_clone(data: &T) -> (r: (TripleBufferReader<T>, TripleBufferWriter<T>)) where T: Clone
        ensures
            r.0.buffer() == r.1.buffer(),
    {
        Self::from_states(data.clone(), data.clone(), data.clone())
    }

    /// Construct a new triple buffer whose states are all copies of `data`.
    pub fn new_copy(data: T) -> (r: (TripleBufferReader<T>, TripleBufferWriter<T>)) where T: Copy
        ensures
            r.0.buffer() == r.1.buffer(),
    {
        Self::from_states(data, data, data)
    }

    /// Construct a new triple buffer from three initial states, with no lock
    /// held; the reader and the writer share the same buffer.
    pub fn from_states(s1: T, s2: T, s3: T) -> (r: (TripleBufferReader<T>, TripleBufferWriter<T>))
        ensures
            r.0.buffer() == r.1.buffer(),
    {
        let word: u32 = TripleConfig::default().to_word();
        let state = TripleBuffer {
            states: [Mutex::new(s1), Mutex::new(s2), Mutex::new(s3)],
            config: AtomicU32::new(word),
        };
        let state = Arc::new(state);
        let read = TripleBufferReader { inner: Arc::clone(&state) };
        let write = TripleBufferWriter { inner: state };
        (read, write)
    }
}

/// A read lock on one state of a triple buffer.
#[verifier::reject_recursive_types(T)]
pub struct TripleBufferReadGuard<'a, T: Send> {
    source: &'a TripleBuffer<T>,
    inner: Option<MutexGuard<'a, T>>,
}

/// A write lock on one state of a triple buffer.
#[verifier::reject_recursive_types(T)]
pub struct TripleBufferWriteGuard<'a, T: Send> {
    source: &'a TripleBuffer<T>,
    write_buffer_idx: usize,
    inner: Option<MutexGuard<'a, T>>,
}

impl<T: Send> TripleBufferReader<T> {
    /// The triple buffer this handle reads from.
    pub closed spec fn buffer(&self) -> TripleBuffer<T> {
        *self.inner
    }

    /// Try to lock the most recently written state for reading.  Fails if a
    /// read lock is still held (`ReadUpdate`), if the lock word names no
    /// state (`Read`; the word the buffer keeps always does), or if the
    /// state's mutex cannot be taken (`PoisonError`); which of these happens
    /// rests on the shared lock word and mutexes.  On success
    /// the guard holds the lock of a state of this buffer.
    pub fn get_read<'a>(&'a self) -> (r: Result<TripleBufferReadGuard<'a, T>, TripleError>)
        ensures
            r matches Ok(g) ==> g.holds_state() && g.source() == self.buffer(),
            r matches Err(e) ==> e is ReadUpdate || e is Read || e is PoisonError,
    {
        let read = match TripleConfig::acquire_read(&self.inner.config) {
            Ok(i) => i,
            Err(e) => return Err(e),
        };
        if read >= 3 {
            return Err(TripleError::Read);
        }
        match try_lock_state(&self.inner.states[read]) {
            Some(state) => Ok(TripleBufferReadGuard { source: &self.inner, inner: Some(state) }),
            None => Err(TripleError::PoisonError { name: "GetReadLock" }),
        }
    }
}

impl<T: Send> TripleBufferWriter<T> {
    /// The triple buffer this handle writes to.
    pub closed spec fn buffer(&self) -> TripleBuffer<T> {
        *self.inner
    }

    /// Try to lock the oldest state for writing.  Fails if a write lock is
    /// still held (`WriteUpdate`), if the lock word names no state (`Write`;
    /// the word the buffer keeps always does), or if the state's mutex
    /// cannot be taken (`PoisonError`); which of these happens rests on the
    /// shared lock word and mutexes.  On success the guard
    /// holds the lock of the state of this buffer that the write update
    /// granted.
    pub fn get_write<'a>(&'a self) -> (r: Result<TripleBufferWriteGuard<'a, T>, TripleError>)
        ensures
            r matches Ok(g) ==> g.holds_state() && g.index() < 3 && g.source() == self.buffer()
                && exists|prev: u32| write_granted(prev, g.index()),
            r matches Err(e) ==> e is WriteUpdate || e is Write || e is PoisonError,
    {
        let write = match TripleConfig::aquire_write(&self.inner.config) {
            Ok(w) => w,
            Err(e) => return Err(e),
        };
        if write >= 3 {
            return Err(TripleError::Write);
        }
        match try_lock_state(&self.inner.states[write]) {
            Some(state) => Ok(
                TripleBufferWriteGuard {
                    source: &self.inner,
                    write_buffer_idx: write,
                    inner: Some(state),
                },
            ),
            None => Err(TripleError::PoisonError { name: "GetWriteLock" }),
        }
    }
}

impl<'a, T: Send> TripleBufferReadGuard<'a, T> {
    /// The guard still holds its state's lock.
    pub closed spec fn holds_state(&self) -> bool {
        self.inner is Some
    }

    /// The triple buffer whose state this guard locks.
    pub closed spec fn source(&self) -> TripleBuffer<T> {
        *self.source
    }

    /// The locked state; fails only once the lock has been given back.
    pub fn state(&self) -> (r: Result<&T, TripleError>)
        ensures
            r is Ok <==> self.holds_state(),
            r matches Err(e) ==> e is ReadLock,
    {
        match &self.inner {
            Some(g) => Ok(guard_state(g)),
            None => Err(TripleError::ReadLock),
        }
    }
}

impl<'a, T: Send> TripleBufferWriteGuard<'a, T> {
    /// The guard still holds its state's lock.
    pub closed spec fn holds_state(&self) -> bool {
        self.inner is Some
    }

    /// The index of the state this guard writes.
    pub closed spec fn index(&self) -> usize {
        self.write_buffer_idx
    }

    /// The triple buffer whose state this guard locks.
    pub closed spec fn source(&self) -> TripleBuffer<T> {
        *self.source
    }

    /// The locked state; fails only once the lock has been given back.
    pub fn state(&self) -> (r: Result<&T, TripleError>)
        ensures
            r is Ok <==> self.holds_state(),
            r matches Err(e) ==> e is WriteLock,
    {
        match &self.inner {
            Some(g) => Ok(guard_state(g)),
            None => Err(TripleError::WriteLock),
        }
    }

    /// The locked state, mutably; fails only once the lock has been given
    /// back.
    pub fn state_mut(&mut self) -> (r: Result<&mut T, TripleError>)
        ensures
            r is Ok <==> old(self).holds_state(),
            r matches Err(e) ==> e is WriteLock,
            final(self).holds_state() == old(self).holds_state(),
            final(self).index() == old(self).index(),
            final(self).source() == old(self).source(),
    {
        match &mut self.inner {
            Some(g) => Ok(guard_state_mut(g)),
            None => Err(TripleError::WriteLock),
        }
    }
}

impl<'a, T: Send> Drop for TripleBufferReadGuard<'a, T> {
    /// Unlock the state, then give the read lock back to the triple buffer.
    fn drop(&mut self)
        opens_invariants none
        no_unwind
    {
        unlock_guard(&mut self.inner);
        TripleConfig::clear_read(&self.source.config);
    }
}

impl<'a, T: Send> Drop for TripleBufferWriteGuard<'a, T> {
    /// Unlock the state, then make it the most recently written one and give
    /// the write lock back.
    fn drop(&mut self)
        opens_invariants none
        no_unwind
    {
        unlock_guard(&mut self.inner);
        if self.write_buffer_idx < 3 {
            TripleConfig::clear_write(&self.source.config, self.write_buffer_idx);
        }
    }
}

} // verus!
