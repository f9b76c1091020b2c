use core::cmp::Ordering;
use tinyvec::TinyVec;
use vstd::prelude::*;
use vstd::std_specs::cmp::PartialOrdSpecImpl;
use vstd::std_specs::convert::FromSpecImpl;

verus! {

/// Unsigned integer type used throughout replay files.
pub type UnsignedInteger = u64;

/// Signed integer type used throughout replay files.
pub type SignedInteger = i64;

/// A timestamp (or a duration) in milliseconds.
#[derive(Copy, Clone, Debug, PartialEq, Eq, Structural, Ord)]
pub struct TimestampMillis(pub UnsignedInteger);

impl PartialOrd for TimestampMillis {
    fn partial_cmp(&self, other: &Self) -> (r: Option<Ordering>) {
        Some(self.0.cmp(&other.0))
    }
}

impl PartialOrdSpecImpl for TimestampMillis {
    open spec fn obeys_partial_cmp_spec() -> bool {
        true
    }

    open spec fn partial_cmp_spec(&self, other: &Self) -> Option<Ordering> {
        if self.0 < other.0 {
            Some(Ordering::Less)
        } else if self.0 == other.0 {
            Some(Ordering::Equal)
        } else {
            Some(Ordering::Greater)
        }
    }
}

impl From<u64> for TimestampMillis {
    fn from(value: u64) -> (r: Self) {
        TimestampMillis(value)
    }
}

impl FromSpecImpl<u64> for TimestampMillis {
    open spec fn obeys_from_spec() -> bool {
        true
    }

    open spec fn from_spec(v: u64) -> Self {
        TimestampMillis(v)
    }
}

impl Default for TimestampMillis {
    fn default() -> (r: Self)
        ensures
            r.0 == 0,
    {
        TimestampMillis(0)
    }
}


/// A small byte buffer as stored in replay packets: a `TinyVec` that keeps up
/// to 16 bytes inline and moves to the heap beyond that.
#[verifier::external_body]
#[derive(Debug, PartialEq)]
pub struct ByteVec {
    inner: TinyVec<[u8; 16]>,
}

impl Clone for ByteVec {
    /// `TinyVec::clone`: a buffer holding the same bytes.
    #[verifier::external_body]
    fn clone(&self) -> (r: ByteVec)
        ensures
            byte_vec_contents(r) == byte_vec_contents(*self),
    {
        ByteVec { inner: self.inner.clone() }
    }
}

impl Default for ByteVec {
    /// An empty buffer.
    fn default() -> (r: ByteVec)
        ensures
            r@ == Seq::<u8>::empty(),
    {
        ByteVec::new()
    }
}

/// Input data as stored in replay packets.
pub type InputBuffer = ByteVec;

/// The bytes that a [`ByteVec`] holds, in order.
pub uninterp spec fn byte_vec_contents(v: ByteVec) -> Seq<u8>;

impl View for ByteVec {
    type V = Seq<u8>;

    open spec fn view(&self) -> Seq<u8> {
        byte_vec_contents(*self)
    }
}

impl ByteVec {
    /// `TinyVec::new`: an empty buffer.
    #[verifier::external_body]
    pub fn new() -> (r: ByteVec)
        ensures
            byte_vec_contents(r) == Seq::<u8>::empty(),
    {
        ByteVec { inner: TinyVec::new() }
    }

    /// `TinyVec::Heap`: a buffer holding exactly the bytes of `v`.
    #[verifier::external_body]
    pub fn from_vec(v: Vec<u8>) -> (r: ByteVec)
        ensures
            byte_vec_contents(r) == v@,
    {
        ByteVec { inner: TinyVec::Heap(v) }
    }

    /// `TinyVec::from(&[u8])`: a buffer holding a copy of `s`.
    #[verifier::external_body]
    pub fn from_slice(s: &[u8]) -> (r: ByteVec)
        ensures
            byte_vec_contents(r) == s@,
    {
        ByteVec { inner: TinyVec::from(s) }
    }

    /// `TinyVec::as_slice`: the slice holds exactly the buffer's bytes.
    #[verifier::external_body]
    pub fn as_slice(&self) -> (s: &[u8])
        ensures
            s@ == byte_vec_contents(*self),
    {
        self.inner.as_slice()
    }
}

/// Speed value that uses a fixed point number.
///
/// A valid speed is never zero (see [`Speed::is_valid`]).
#[derive(Copy, Clone, Debug, PartialEq, Eq, Structural)]
pub struct Speed {
    /// A fixed point number that, when divided by 256, yields the speed multiplier.
    pub speed_over_256: u16,
}

impl Speed {
    /// A speed of zero is never produced.
    pub open spec fn is_valid(&self) -> bool {
        self.speed_over_256 != 0
    }

    /// The speed whose fixed point value is `speed_over_256`; a zero speed
    /// becomes the smallest one (1/256).
    pub fn from_speed_over_256(speed_over_256: u16) -> (r: Speed)
        ensures
            r.is_valid(),
            r.speed_over_256 == (if speed_over_256 == 0 { 1 } else { speed_over_256 }),
    {
        Speed { speed_over_256: if speed_over_256 == 0 { 1 } else { speed_over_256 } }
    }
}

impl Default for Speed {
    /// The normal speed (a multiplier of 1.0).
    fn default() -> (r: Self)
        ensures
            r.speed_over_256 == 256,
    {
        Speed { speed_over_256: 256 }
    }
}

/// Hash of a ROM or BIOS as recorded in replay headers.
pub type ReplayHeaderBlake3Hash = [u8; 32];

/// Console that a replay was recorded on.
#[derive(Copy, Clone, Debug, PartialEq, Eq, Structural)]
pub enum ReplayConsoleType {
    GameBoy,
    SuperGameBoy2,
    GameBoyColor,
    GameBoyAdvance,
    NintendoDS,
}

/// Describes an individual packet.
#[derive(Clone, Debug, PartialEq)]
pub enum Packet {
    /// Do nothing
    NoOp,
    /// Run emulator for one frame; `timestamp_delta` is the time passed since the last frame.
    NextFrame { timestamp_delta: TimestampMillis },
    /// Write RAM to the given address (interpreted by the emulator).
    WriteMemory { address: UnsignedInteger, data: ByteVec },
    /// Set the current input.
    ChangeInput { data: InputBuffer },
    /// Set the current speed.
    ChangeSpeed { speed: Speed },
    /// Hard reset the console.
    ResetConsole,
    /// Load a save state.
    LoadSaveState { state: ByteVec },
    /// Describes a named point in the replay.
    Bookmark { metadata: BookmarkMetadata },
    /// Adds a keyframe so the replay can be scanned faster.
    Keyframe { metadata: KeyframeMetadata, state: ByteVec },
    /// Adds a diffed keyframe so the replay can be scanned faster.
    DeltaKeyframe { metadata: KeyframeMetadata, diff: Vec<UnsignedInteger> },
    /// Describes a compressed blob of memory.
    CompressedBlob {
        keyframes: Vec<KeyframeMetadata>,
        bookmarks: Vec<BookmarkMetadata>,
        compressed_data: ByteVec,
        uncompressed_size: UnsignedInteger,
        timestamp_start: TimestampMillis,
        timestamp_end: TimestampMillis,
        elapsed_frames_start: UnsignedInteger,
        elapsed_frames_end: UnsignedInteger,
    },
    /// Modifies a counter
    IncrementCounter { name: String, delta: SignedInteger },
}

impl Packet {
    /// Every speed that the packet holds is valid (never zero).
    pub open spec fn speeds_valid(&self) -> bool {
        match *self {
            Packet::ChangeSpeed { speed } => speed.is_valid(),
            Packet::Keyframe { metadata, .. } => metadata.speed.is_valid(),
            Packet::DeltaKeyframe { metadata, .. } => metadata.speed.is_valid(),
            _ => true,
        }
    }
}

/// Payload for keyframes, not including save state data
#[derive(Clone, Debug, PartialEq, Default)]
pub struct KeyframeMetadata {
    /// Current input
    pub input: InputBuffer,
    /// Current speed
    pub speed: Speed,
    /// Number of elapsed frames
    pub elapsed_frames: UnsignedInteger,
    /// Total elapsed milliseconds
    pub elapsed_millis: TimestampMillis,
    /// Counters thus far
    pub counters: Vec<Counter>,
}

/// Payload for bookmarks
#[derive(Clone, Debug, PartialEq, Default)]
pub struct BookmarkMetadata {
    /// Name of the bookmark
    pub name: String,
    /// Number of elapsed frames
    pub elapsed_frames: UnsignedInteger,
    /// Total elapsed milliseconds
    pub elapsed_millis: TimestampMillis,
}

/// Counter data
#[derive(Clone, Debug, PartialEq, Default)]
pub struct Counter {
    /// Name of the counter.
    pub name: String,
    /// Value of the counter
    pub value: SignedInteger,
}

} // verus!
