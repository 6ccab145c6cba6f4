//! Key-matrix state and the decisions of the scanning task.
//!
//! The matrix is scanned column by column: a column line is driven high, the
//! eight row lines are sampled, and the samples land in a 64-bit state
//! array. The GPIO work stays outside; the state update, change detection
//! and press/release event derivation are decided (and verified) here.

use vstd::prelude::*;

verus! {

/// 64 key states packed into 8 bytes, bit `i % 8` of byte `i / 8`.
pub struct BitArray {
    bytes: [u8; 8],
}

impl View for BitArray {
    type V = Seq<bool>;

    closed spec fn view(&self) -> Seq<bool> {
        Seq::new(64, |i: int| (self.bytes@[i / 8] >> ((i % 8) as u8)) & 1 == 1)
    }
}

impl BitArray {
    /// All 64 bits cleared.
    pub fn new() -> (r: BitArray)
        ensures
            r@ == Seq::new(64, |i: int| false),
    {
        let r = BitArray { bytes: [0u8; 8] };
        proof {
            assert forall|i: int| 0 <= i < 64 implies r@[i] == false by {
                let k = (i % 8) as u8;
                assert((0u8 >> k) & 1 != 1) by (bit_vector);
            }
            assert(r@ =~= Seq::new(64, |i: int| false));
        }
        r
    }

    /// Reads bit `idx`.
    pub fn get(&self, idx: usize) -> (r: bool)
        requires
            idx < 64,
        ensures
            r == self@[idx as int],
    {
        let k: u8 = (idx % 8) as u8;
        let b = self.bytes[idx / 8];
        proof {
            let bb = self.bytes@[idx as int / 8];
            assert((bb & (1u8 << k) != 0) == ((bb >> k) & 1 == 1)) by (bit_vector);
        }
        b & (1u8 << k) != 0
    }

    /// Writes bit `idx`.
    pub fn set(&mut self, idx: usize, state: bool)
        requires
            idx < 64,
        ensures
            final(self)@ == old(self)@.update(idx as int, state),
    {
        let k: u8 = (idx % 8) as u8;
        let b = self.bytes[idx / 8];
        let nb = if state {
            b | (1u8 << k)
        } else {
            b & !(1u8 << k)
        };
        self.bytes[idx / 8] = nb;
        proof {
            let ob = old(self).bytes@[idx as int / 8];
            assert(((if state {
                ob | (1u8 << k)
            } else {
                ob & !(1u8 << k)
            }) >> k) & 1 == (if state {
                1u8
            } else {
                0u8
            })) by (bit_vector)
                requires
                    k < 8,
            ;
            assert forall|j: u8| j < 8 && j != k implies ((if state {
                ob | (1u8 << k)
            } else {
                ob & !(1u8 << k)
            }) >> j) & 1 == (ob >> j) & 1 by {
                assert(j < 8 && j != k ==> ((if state {
                    ob | (1u8 << k)
                } else {
                    ob & !(1u8 << k)
                }) >> j) & 1 == (ob >> j) & 1) by (bit_vector);
            }
            assert forall|i: int| 0 <= i < 64 implies self@[i] == old(self)@.update(
                idx as int,
                state,
            )[i] by {
                if i / 8 == idx as int / 8 && i != idx as int {
                    assert(i % 8 != idx as int % 8);
                    assert(((i % 8) as u8) != k);
                    assert(((i % 8) as u8) < 8);
                }
            }
            assert(self@ =~= old(self)@.update(idx as int, state));
        }
    }
}

impl Default for BitArray {
    /// All 64 bits cleared.
    fn default() -> (r: BitArray)
        ensures
            r@ == Seq::new(64, |i: int| false),
    {
        BitArray::new()
    }
}

/// Position of row `r`, column `c` in the state array.
pub fn idx_of(r: usize, c: usize) -> (idx: usize)
    requires
        r < 8,
        c < 8,
    ensures
        idx == c * 8 + r,
        idx < 64,
{
    c * 8 + r
}

/// One key of the controller surface. `NoKey` marks an unwired matrix
/// position.
#[derive(Clone, Copy, PartialEq, Eq, Debug)]
pub enum Key {
    NoKey,
    Channel0,
    Channel1,
    Channel2,
    Channel3,
    Channel4,
    Channel5,
    Channel6,
    Channel7,
    Channel8,
    Channel9,
    Seq0,
    Seq1,
    Seq2,
    Seq3,
    Seq4,
    Seq5,
    Seq6,
    Seq7,
    Seq8,
    Seq9,
    Seq10,
    Seq11,
    Seq12,
    Seq13,
    Seq14,
    Seq15,
    BlueEncClick,
    GreenEncClick,
    YellowEncClick,
    RedEncClick,
    Shift,
    Sends,
    Plus,
    Mixer,
    Minus,
    Fx1,
    Fx2,
    Master,
    Play,
    Record,
    Arp,
    Slots,
    Twist1,
    Twist2,
    Looper,
    External,
    Sampler,
    Envelope,
    Voices,
    Settings,
    Sequencer,
    Synth,
    UnassignedA,
    UnassignedB,
    UnassignedC,
    UnassignedD,
    UnassignedE,
    UnassignedF,
}

/// Row `r` of the wiring table: which key sits at each column of that row.
pub open spec fn key_table_row(r: int) -> Seq<Key> {
    if r == 0 {
        seq![
            Key::Seq0,
            Key::Channel2,
            Key::Channel5,
            Key::Channel8,
            Key::Twist1,
            Key::Sends,
            Key::BlueEncClick,
            Key::Sampler,
        ]
    } else if r == 1 {
        seq![
            Key::Channel0,
            Key::Channel3,
            Key::Channel6,
            Key::Channel9,
            Key::Fx2,
            Key::Fx1,
            Key::YellowEncClick,
            Key::Looper,
        ]
    } else if r == 2 {
        seq![
            Key::Channel1,
            Key::Channel4,
            Key::Channel7,
            Key::Seq15,
            Key::Mixer,
            Key::UnassignedC,
            Key::NoKey,
            Key::Sequencer,
        ]
    } else if r == 3 {
        seq![
            Key::Seq1,
            Key::Seq6,
            Key::Seq11,
            Key::UnassignedD,
            Key::Play,
            Key::Envelope,
            Key::RedEncClick,
            Key::Synth,
        ]
    } else if r == 4 {
        seq![
            Key::Seq2,
            Key::Seq7,
            Key::Seq12,
            Key::UnassignedE,
            Key::Twist2,
            Key::UnassignedA,
            Key::NoKey,
            Key::NoKey,
        ]
    } else if r == 5 {
        seq![
            Key::Seq3,
            Key::Seq8,
            Key::Seq13,
            Key::Slots,
            Key::Minus,
            Key::External,
            Key::NoKey,
            Key::Arp,
        ]
    } else if r == 6 {
        seq![
            Key::Seq4,
            Key::Seq9,
            Key::Seq14,
            Key::UnassignedF,
            Key::Record,
            Key::UnassignedB,
            Key::GreenEncClick,
            Key::Settings,
        ]
    } else {
        seq![
            Key::Seq5,
            Key::Seq10,
            Key::NoKey,
            Key::Shift,
            Key::Plus,
            Key::Voices,
            Key::NoKey,
            Key::Master,
        ]
    }
}

/// Builds the wiring table, row by row as physically wired.
pub fn make_key_table() -> (table: [[Key; 8]; 8])
    ensures
        forall|r: int, c: int|
            0 <= r < 8 && 0 <= c < 8 ==> table@[r]@[c] == key_table_row(r)[c],
{
    let table: [[Key; 8]; 8] = [
        [
            Key::Seq0,
            Key::Channel2,
            Key::Channel5,
            Key::Channel8,
            Key::Twist1,
            Key::Sends,
            Key::BlueEncClick,
            Key::Sampler,
        ],
        [
            Key::Channel0,
            Key::Channel3,
            Key::Channel6,
            Key::Channel9,
            Key::Fx2,
            Key::Fx1,
            Key::YellowEncClick,
            Key::Looper,
        ],
        [
            Key::Channel1,
            Key::Channel4,
            Key::Channel7,
            Key::Seq15,
            Key::Mixer,
            Key::UnassignedC,
            Key::NoKey,
            Key::Sequencer,
        ],
        [
            Key::Seq1,
            Key::Seq6,
            Key::Seq11,
            Key::UnassignedD,
            Key::Play,
            Key::Envelope,
            Key::RedEncClick,
            Key::Synth,
        ],
        [
            Key::Seq2,
            Key::Seq7,
            Key::Seq12,
            Key::UnassignedE,
            Key::Twist2,
            Key::UnassignedA,
            Key::NoKey,
            Key::NoKey,
        ],
        [
            Key::Seq3,
            Key::Seq8,
            Key::Seq13,
            Key::Slots,
            Key::Minus,
            Key::External,
            Key::NoKey,
            Key::Arp,
        ],
        [
            Key::Seq4,
            Key::Seq9,
            Key::Seq14,
            Key::UnassignedF,
            Key::Record,
            Key::UnassignedB,
            Key::GreenEncClick,
            Key::Settings,
        ],
        [
            Key::Seq5,
            Key::Seq10,
            Key::NoKey,
            Key::Shift,
            Key::Plus,
            Key::Voices,
            Key::NoKey,
            Key::Master,
        ],
    ];
    table
}

/// The readings of one full scan (indexed `[column][row]`) flattened into
/// state-array order: bit `c * 8 + r` holds the reading of row `r` taken
/// while column `c` was driven.
pub open spec fn flat_readings(readings: Seq<[bool; 8]>) -> Seq<bool> {
    Seq::new(64, |i: int| readings[i / 8]@[i % 8])
}

/// Applies one full scan to the state array and reports whether any key
/// state changed.
pub fn apply_scan(states: &mut BitArray, readings: &[[bool; 8]; 8]) -> (changed: bool)
    ensures
        final(states)@ == flat_readings(readings@),
        changed == (final(states)@ != old(states)@),
{
    let mut changed = false;
    let mut k: usize = 0;
    while k < 64
        invariant
            k <= 64,
            forall|i: int| 0 <= i < k ==> states@[i] == flat_readings(readings@)[i],
            forall|i: int| k <= i < 64 ==> states@[i] == old(states)@[i],
            changed == exists|i: int|
                0 <= i < k && old(states)@[i] != flat_readings(readings@)[i],
        decreases 64 - k,
    {
        let c = k / 8;
        let r = k % 8;
        let cur = readings[c][r];
        if states.get(k) != cur {
            changed = true;
            proof {
                assert(old(states)@[k as int] != flat_readings(readings@)[k as int]);
            }
        }
        states.set(k, cur);
        k += 1;
    }
    proof {
        assert(states@ =~= flat_readings(readings@));
        if changed {
            let i = choose|i: int|
                0 <= i < 64 && old(states)@[i] != flat_readings(readings@)[i];
            assert(states@[i] != old(states)@[i]);
        } else {
            assert(old(states)@ =~= flat_readings(readings@));
        }
    }
    changed
}

/// The press/release events between two scans, visiting the matrix row by
/// row: for each wired key whose state bit changed, the key and its new
/// state, in visiting order.
pub open spec fn spec_key_events(
    table: Seq<[Key; 8]>,
    before: Seq<bool>,
    after: Seq<bool>,
    n: int,
) -> Seq<(Key, bool)>
    decreases n,
{
    if n <= 0 {
        Seq::empty()
    } else {
        let i = n - 1;
        let r = i / 8;
        let c = i % 8;
        let idx = c * 8 + r;
        let prefix = spec_key_events(table, before, after, i);
        if table[r]@[c] != Key::NoKey && before[idx] != after[idx] {
            prefix.push((table[r]@[c], after[idx]))
        } else {
            prefix
        }
    }
}

/// Derives the press/release events between two scans of the matrix.
pub fn key_events(table: &[[Key; 8]; 8], before: &BitArray, after: &BitArray) -> (events: Vec<
    (Key, bool),
>)
    ensures
        events@ == spec_key_events(table@, before@, after@, 64),
{
    let mut events: Vec<(Key, bool)> = Vec::new();
    let mut k: usize = 0;
    while k < 64
        invariant
            k <= 64,
            events@ == spec_key_events(table@, before@, after@, k as int),
        decreases 64 - k,
    {
        let r = k / 8;
        let c = k % 8;
        let key = table[r][c];
        let wired = match key {
            Key::NoKey => false,
            _ => true,
        };
        let idx = idx_of(r, c);
        if wired {
            let b = before.get(idx);
            let a = after.get(idx);
            if b != a {
                events.push((key, a));
            }
        }
        k += 1;
    }
    events
}

} // verus!
