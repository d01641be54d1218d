//! The fixed 28-byte little-endian input snapshot written into a
//! cartridge's memory once per tick.
use vstd::prelude::*;
use crate::host::HostCallError;
use crate::input::{Buttons, InputState, MouseButtons, UserInput};

verus! {

/// Size in bytes of one input snapshot.
pub const SNAPSHOT_LEN: usize = 28;

/// Byte code of a button state.
pub open spec fn state_byte(s: InputState) -> u8 {
    match s {
        InputState::Released => 0,
        InputState::JustPressed => 1,
        InputState::Pressed => 2,
        InputState::JustReleased => 3,
    }
}

/// The four little-endian bytes of a signed 32-bit integer.
pub open spec fn le_bytes(v: i32) -> Seq<u8> {
    let u = v as u32;
    seq![
        (u % 256) as u8,
        ((u / 256) % 256) as u8,
        ((u / 65536) % 256) as u8,
        (u / 16777216) as u8,
    ]
}

/// The snapshot of an input: ten pad states, two mouse states, the wheel
/// delta and the cursor position.
pub open spec fn snapshot_bytes(u: UserInput) -> Seq<u8> {
    u.buttons.states().map_values(|s: InputState| state_byte(s)) + seq![
        state_byte(u.mouse.left),
        state_byte(u.mouse.right),
    ] + le_bytes(u.wheel[0]) + le_bytes(u.wheel[1]) + le_bytes(u.cursor[0]) + le_bytes(
        u.cursor[1],
    )
}

/// Bytes that some input encodes to: the right length, and a valid state
/// code in each of the twelve state bytes.
pub open spec fn is_snapshot(b: Seq<u8>) -> bool {
    &&& b.len() == SNAPSHOT_LEN
    &&& forall|i: int| 0 <= i < 12 ==> b[i] <= 3
}

impl InputState {
    /// The state's byte code.
    pub fn to_byte(self) -> (r: u8)
        ensures
            r == state_byte(self),
    {
        match self {
            InputState::Released => 0,
            InputState::JustPressed => 1,
            InputState::Pressed => 2,
            InputState::JustReleased => 3,
        }
    }

    /// The state with a byte code; none for a byte above 3.
    pub fn from_byte(b: u8) -> (r: Option<InputState>)
        ensures
            r is Some <==> b <= 3,
            r matches Some(s) ==> state_byte(s) == b,
    {
        match b {
            0 => Some(InputState::Released),
            1 => Some(InputState::JustPressed),
            2 => Some(InputState::Pressed),
            3 => Some(InputState::JustReleased),
            _ => None,
        }
    }
}

proof fn lemma_le_bytes_of_u32(v: i32, u: u32)
    requires
        u == v as u32,
    ensures
        le_bytes(v) == seq![
            (u & 0xff) as u8,
            ((u >> 8u32) & 0xff) as u8,
            ((u >> 16u32) & 0xff) as u8,
            (u >> 24u32) as u8,
        ],
{
    assert(u & 0xff == u % 256) by (bit_vector);
    assert((u >> 8u32) & 0xff == (u / 256) % 256) by (bit_vector);
    assert((u >> 16u32) & 0xff == (u / 65536) % 256) by (bit_vector);
    assert(u >> 24u32 == u / 16777216) by (bit_vector);
}

fn write_i32(out: &mut [u8; 28], at: usize, v: i32)
    requires
        at + 4 <= 28,
    ensures
        final(out)@ == old(out)@.subrange(0, at as int) + le_bytes(v) + old(out)@.subrange(
            at + 4,
            28,
        ),
{
    let u = v as u32;
    proof {
        lemma_le_bytes_of_u32(v, u);
    }
    out[at] = (u & 0xff) as u8;
    out[at + 1] = ((u >> 8u32) & 0xff) as u8;
    out[at + 2] = ((u >> 16u32) & 0xff) as u8;
    out[at + 3] = (u >> 24u32) as u8;
    assert(final(out)@ =~= old(out)@.subrange(0, at as int) + le_bytes(v) + old(out)@.subrange(
        at + 4,
        28,
    ));
}

/// The integer whose little-endian bytes are `b[at..at + 4]`.
fn read_i32(b: &[u8], at: usize) -> (r: i32)
    requires
        at + 4 <= b@.len(),
    ensures
        le_bytes(r) == b@.subrange(at as int, at + 4),
{
    let b0 = b[at] as u32;
    let b1 = b[at + 1] as u32;
    let b2 = b[at + 2] as u32;
    let b3 = b[at + 3] as u32;
    let u: u32 = b0 | (b1 << 8u32) | (b2 << 16u32) | (b3 << 24u32);
    let r = u as i32;
    proof {
        assert(r as u32 == u) by (bit_vector)
            requires
                r == u as i32,
        ;
        lemma_le_bytes_of_u32(r, u);
        assert((u & 0xff) as u8 == b0 as u8) by (bit_vector)
            requires
                u == b0 | (b1 << 8u32) | (b2 << 16u32) | (b3 << 24u32),
                b0 < 256,
                b1 < 256,
                b2 < 256,
                b3 < 256,
        ;
        assert(((u >> 8u32) & 0xff) as u8 == b1 as u8) by (bit_vector)
            requires
                u == b0 | (b1 << 8u32) | (b2 << 16u32) | (b3 << 24u32),
                b0 < 256,
                b1 < 256,
                b2 < 256,
                b3 < 256,
        ;
        assert(((u >> 16u32) & 0xff) as u8 == b2 as u8) by (bit_vector)
            requires
                u == b0 | (b1 << 8u32) | (b2 << 16u32) | (b3 << 24u32),
                b0 < 256,
                b1 < 256,
                b2 < 256,
                b3 < 256,
        ;
        assert((u >> 24u32) as u8 == b3 as u8) by (bit_vector)
            requires
                u == b0 | (b1 << 8u32) | (b2 << 16u32) | (b3 << 24u32),
                b0 < 256,
                b1 < 256,
                b2 < 256,
                b3 < 256,
        ;
        assert(le_bytes(r) =~= b@.subrange(at as int, at + 4));
    }
    r
}

proof fn lemma_state_byte_injective(s: InputState, t: InputState)
    requires
        state_byte(s) == state_byte(t),
    ensures
        s == t,
{
}

proof fn lemma_le_bytes_injective(v: i32, w: i32)
    requires
        le_bytes(v) == le_bytes(w),
    ensures
        v == w,
{
    let a = v as u32;
    let b = w as u32;
    lemma_le_bytes_of_u32(v, a);
    lemma_le_bytes_of_u32(w, b);
    assert(le_bytes(v)[0] == le_bytes(w)[0]);
    assert(le_bytes(v)[1] == le_bytes(w)[1]);
    assert(le_bytes(v)[2] == le_bytes(w)[2]);
    assert(le_bytes(v)[3] == le_bytes(w)[3]);
    assert(a == b) by (bit_vector)
        requires
            (a & 0xff) as u8 == (b & 0xff) as u8,
            ((a >> 8u32) & 0xff) as u8 == ((b >> 8u32) & 0xff) as u8,
            ((a >> 16u32) & 0xff) as u8 == ((b >> 16u32) & 0xff) as u8,
            (a >> 24u32) as u8 == (b >> 24u32) as u8,
    ;
    assert(v == w) by (bit_vector)
        requires
            v as u32 == w as u32,
    ;
}

/// Encoding round trip: the snapshot of any input is well formed, and the
/// only input with that snapshot is the input itself, so decoding the
/// snapshot gives back every field exactly.
pub proof fn lemma_snapshot_round_trip(u: UserInput, v: UserInput)
    ensures
        is_snapshot(snapshot_bytes(u)),
        snapshot_bytes(v) == snapshot_bytes(u) ==> v == u,
{
    let b = snapshot_bytes(u);
    assert(b.len() == 28);
    assert forall|i: int| 0 <= i < 12 implies b[i] <= 3 by {
        if i < 10 {
            assert(b[i] == state_byte(u.buttons.states()[i]));
        }
    }
    if snapshot_bytes(v) == b {
        let c = snapshot_bytes(v);
        assert forall|i: int| 0 <= i < 10 implies v.buttons.states()[i] == u.buttons.states()[i] by {
            assert(c[i] == b[i]);
            lemma_state_byte_injective(v.buttons.states()[i], u.buttons.states()[i]);
        }
        assert(c[10] == b[10]);
        assert(c[11] == b[11]);
        lemma_state_byte_injective(v.mouse.left, u.mouse.left);
        lemma_state_byte_injective(v.mouse.right, u.mouse.right);
        assert(c.subrange(12, 16) =~= le_bytes(v.wheel[0]));
        assert(b.subrange(12, 16) =~= le_bytes(u.wheel[0]));
        assert(c.subrange(16, 20) =~= le_bytes(v.wheel[1]));
        assert(b.subrange(16, 20) =~= le_bytes(u.wheel[1]));
        assert(c.subrange(20, 24) =~= le_bytes(v.cursor[0]));
        assert(b.subrange(20, 24) =~= le_bytes(u.cursor[0]));
        assert(c.subrange(24, 28) =~= le_bytes(v.cursor[1]));
        assert(b.subrange(24, 28) =~= le_bytes(u.cursor[1]));
        lemma_le_bytes_injective(v.wheel[0], u.wheel[0]);
        lemma_le_bytes_injective(v.wheel[1], u.wheel[1]);
        lemma_le_bytes_injective(v.cursor[0], u.cursor[0]);
        lemma_le_bytes_injective(v.cursor[1], u.cursor[1]);
        assert(v.wheel =~= u.wheel);
        assert(v.cursor =~= u.cursor);
        assert(v.buttons.states()[0] == u.buttons.states()[0]);
        assert(v.buttons.states()[1] == u.buttons.states()[1]);
        assert(v.buttons.states()[2] == u.buttons.states()[2]);
        assert(v.buttons.states()[3] == u.buttons.states()[3]);
        assert(v.buttons.states()[4] == u.buttons.states()[4]);
        assert(v.buttons.states()[5] == u.buttons.states()[5]);
        assert(v.buttons.states()[6] == u.buttons.states()[6]);
        assert(v.buttons.states()[7] == u.buttons.states()[7]);
        assert(v.buttons.states()[8] == u.buttons.states()[8]);
        assert(v.buttons.states()[9] == u.buttons.states()[9]);
    }
}

impl UserInput {
    /// The input's 28-byte snapshot.
    pub fn to_snapshot(&self) -> (r: [u8; 28])
        ensures
            r@ == snapshot_bytes(*self),
    {
        let mut out: [u8; 28] = [
            self.buttons.up.to_byte(),
            self.buttons.down.to_byte(),
            self.buttons.left.to_byte(),
            self.buttons.right.to_byte(),
            self.buttons.a.to_byte(),
            self.buttons.b.to_byte(),
            self.buttons.x.to_byte(),
            self.buttons.y.to_byte(),
            self.buttons.start.to_byte(),
            self.buttons.select.to_byte(),
            self.mouse.left.to_byte(),
            self.mouse.right.to_byte(),
            0, 0, 0, 0, 0, 0, 0, 0, 0, 0, 0, 0, 0, 0, 0, 0,
        ];
        write_i32(&mut out, 12, self.wheel[0]);
        write_i32(&mut out, 16, self.wheel[1]);
        write_i32(&mut out, 20, self.cursor[0]);
        write_i32(&mut out, 24, self.cursor[1]);
        assert(out@ =~= snapshot_bytes(*self));
        out
    }

    /// The input a snapshot encodes; none where the bytes are not a
    /// snapshot.
    pub fn from_snapshot(b: &[u8]) -> (r: Option<UserInput>)
        ensures
            r is Some <==> is_snapshot(b@),
            r matches Some(v) ==> snapshot_bytes(v) == b@,
    {
        if b.len() != SNAPSHOT_LEN {
            return None;
        }
        let mut states: Vec<InputState> = Vec::new();
        let mut i: usize = 0;
        while i < 12
            invariant
                b@.len() == 28,
                0 <= i <= 12,
                states@.len() == i,
                forall|j: int| 0 <= j < i ==> b@[j] <= 3 && state_byte(states@[j]) == b@[j],
            decreases 12 - i,
        {
            match InputState::from_byte(b[i]) {
                Some(s) => states.push(s),
                None => return None,
            }
            i += 1;
        }
        let v = UserInput {
            buttons: Buttons {
                up: states[0],
                down: states[1],
                left: states[2],
                right: states[3],
                a: states[4],
                b: states[5],
                x: states[6],
                y: states[7],
                start: states[8],
                select: states[9],
            },
            mouse: MouseButtons { left: states[10], right: states[11] },
            wheel: [read_i32(b, 12), read_i32(b, 16)],
            cursor: [read_i32(b, 20), read_i32(b, 24)],
        };
        assert(snapshot_bytes(v) =~= b@);
        Some(v)
    }

    /// Writes the input's snapshot into a cartridge's memory at byte offset
    /// `ptr`. A snapshot that would not lie wholly inside the memory is not
    /// written.
    pub fn write_snapshot(&self, mem: &mut [u8], ptr: i32) -> (r: Result<(), HostCallError>)
        ensures
            r is Ok <==> 0 <= ptr && ptr as int + SNAPSHOT_LEN as int <= old(mem)@.len(),
            r is Err ==> r == Err::<(), _>(HostCallError::OutOfBounds) && final(mem)@ == old(
                mem,
            )@,
            r is Ok ==> final(mem)@ == old(mem)@.subrange(0, ptr as int) + snapshot_bytes(*self)
                + old(mem)@.subrange(ptr as int + SNAPSHOT_LEN as int, old(mem)@.len() as int),
    {
        if ptr < 0 || ptr as usize > mem.len() || mem.len() - (ptr as usize) < SNAPSHOT_LEN {
            return Err(HostCallError::OutOfBounds);
        }
        let p = ptr as usize;
        let bytes = self.to_snapshot();
        let ghost m0 = mem@;
        assert(m0.len() == mem.len());
        let mut k: usize = 0;
        while k < SNAPSHOT_LEN
            invariant
                p + SNAPSHOT_LEN <= m0.len() <= usize::MAX,
                mem@.len() == m0.len(),
                k <= SNAPSHOT_LEN,
                bytes@ == snapshot_bytes(*self),
                mem@ == m0.subrange(0, p as int) + bytes@.subrange(0, k as int) + m0.subrange(
                    p + k,
                    m0.len() as int,
                ),
            decreases SNAPSHOT_LEN - k,
        {
            mem[p + k] = bytes[k];
            k += 1;
            assert(mem@ =~= m0.subrange(0, p as int) + bytes@.subrange(0, k as int) + m0.subrange(
                p + k,
                m0.len() as int,
            ));
        }
        assert(bytes@.subrange(0, 28) =~= bytes@);
        Ok(())
    }
}

} // verus!
