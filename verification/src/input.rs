use vstd::prelude::*;

verus! {

/// A physical input: a keyboard key code, a controller button or a mouse button.
#[derive(Debug, Clone, Copy, PartialEq, Eq, Structural, Hash)]
pub enum RawInput {
    Key(u32),
    ControllerButton(u8),
    Mouse(u8),
}

impl Default for RawInput {
    /// The "no input" value: a key code that no keyboard produces.
    fn default() -> (r: Self)
        ensures
            r == RawInput::Key(0xffff_ffffu32),
    {
        RawInput::Key(0xffff_ffffu32)
    }
}

/// How many held inputs a `ModInput` records beside its main input.
pub const MAX_MODIFIERS: usize = 4;

/// Marks an unused modifier slot.
pub const NO_MODIFIER: u32 = 0xffff_ffffu32;

/// An input together with the other inputs that were held when it happened.
#[derive(Debug, Clone, Copy, PartialEq, Eq, Hash)]
pub struct ModInput {
    pub main: RawInput,
    pub modifiers: [u32; MAX_MODIFIERS],
}

/// Whether input number `t` is marked as held in a bitmask of 64-bit words
/// (bit `t % 64` of word `t / 64`).
pub open spec fn bit_set(words: Seq<u64>, t: nat) -> bool {
    (words[(t / 64) as int] >> ((t % 64) as u64)) & 1u64 == 1u64
}

/// The held inputs below `t`, other than `main`, in increasing order.
pub open spec fn held_below(words: Seq<u64>, main: nat, t: nat) -> Seq<nat>
    decreases t,
{
    if t == 0 {
        Seq::empty()
    } else {
        let prev = held_below(words, main, (t - 1) as nat);
        if bit_set(words, (t - 1) as nat) && (t - 1) as nat != main {
            prev.push((t - 1) as nat)
        } else {
            prev
        }
    }
}

/// All held inputs of the bitmask other than `main`, in increasing order.
pub open spec fn held_inputs(words: Seq<u64>, main: nat) -> Seq<nat> {
    held_below(words, main, 64 * words.len())
}

/// The number that identifies the main input among held inputs.
pub open spec fn main_number(main: RawInput) -> nat {
    match main {
        RawInput::ControllerButton(b) => b as nat,
        RawInput::Key(k) => k as nat,
        RawInput::Mouse(m) => m as nat,
    }
}

/// The modifier slots that `ModInput::new` fills: the first four held
/// inputs other than the main one, then `NO_MODIFIER`.
pub open spec fn modifier_slot(held: Seq<nat>, k: int) -> u32 {
    if k < held.len() {
        held[k] as u32
    } else {
        NO_MODIFIER
    }
}

/// The scan that gathers modifiers stops looking at the rest of a word once it
/// has four of them, but goes on to later words with a stale counter; a held
/// input found there would be written past the last slot. This names the inputs
/// on which that happens: some held input in a word after the one that holds the
/// fourth modifier, at a place where the stale counter differs from `main`.
pub open spec fn modifier_scan_overflows(words: Seq<u64>, main: nat) -> bool {
    let held = held_inputs(words, main);
    held.len() >= 4 && {
        let fourth = held[3];
        exists|t: nat|
            #![trigger bit_set(words, t)]
            64 * (fourth / 64 + 1) <= t < 64 * words.len() && bit_set(words, t) && t + (fourth % 64)
                != main + 64
    }
}

proof fn lemma_held_below_prefix(words: Seq<u64>, main: nat, s: nat, t: nat)
    requires
        s <= t,
    ensures
        held_below(words, main, s).len() <= held_below(words, main, t).len(),
        forall|k: int|
            0 <= k < held_below(words, main, s).len() ==> #[trigger] held_below(words, main, t)[k]
                == held_below(words, main, s)[k],
    decreases t - s,
{
    if s < t {
        lemma_held_below_prefix(words, main, s, (t - 1) as nat);
    }
}

proof fn lemma_held_below_bounded(words: Seq<u64>, main: nat, t: nat)
    ensures
        forall|k: int|
            0 <= k < held_below(words, main, t).len() ==> #[trigger] held_below(words, main, t)[k]
                < t,
    decreases t,
{
    if t > 0 {
        lemma_held_below_bounded(words, main, (t - 1) as nat);
        let prev = held_below(words, main, (t - 1) as nat);
        assert forall|k: int| 0 <= k < held_below(words, main, t).len() implies #[trigger] held_below(
            words,
            main,
            t,
        )[k] < t by {
            if k < prev.len() {
                assert(held_below(words, main, t)[k] == prev[k]);
            }
        }
    }
}

proof fn lemma_shift_step(x: u64, j: u64)
    requires
        j < 64,
    ensures
        (x >> j) >> 1u64 == x >> ((j + 1) as u64),
{
    assert((x >> j) >> 1u64 == x >> ((j + 1) as u64)) by (bit_vector)
        requires
            j < 64,
    ;
}

impl ModInput {
    /// Records `main` together with the inputs that `bitmask` marks as held
    /// (at most four, lowest numbers first, `main` itself left out).
    pub fn new<const N: usize>(main: RawInput, bitmask: &[u64; N]) -> (r: Self)
        requires
            !(main is Mouse),
            64 * N <= u32::MAX,
            !modifier_scan_overflows(bitmask@, main_number(main)),
        ensures
            r.main == main,
            forall|k: int|
                0 <= k < MAX_MODIFIERS ==> r.modifiers[k] == modifier_slot(
                    held_inputs(bitmask@, main_number(main)),
                    k,
                ),
    {
        let main_num: u32 = match main {
            RawInput::ControllerButton(button) => button as u32,
            RawInput::Key(key) => key,
            RawInput::Mouse(button) => button as u32,
        };
        let ghost words = bitmask@;
        let ghost mn = main_number(main);
        let mut modifiers = [NO_MODIFIER; MAX_MODIFIERS];
        let mut count: usize = 0;
        let mut w: usize = 0;
        while w < N && count < MAX_MODIFIERS
            invariant
                w <= N,
                64 * N <= u32::MAX,
                words == bitmask@,
                words.len() == N,
                mn == main_num,
                count <= MAX_MODIFIERS,
                count < MAX_MODIFIERS ==> count == held_below(words, mn, 64 * w as nat).len(),
                count == MAX_MODIFIERS ==> held_below(words, mn, 64 * w as nat).len() >= 4,
                forall|k: int|
                    0 <= k < count ==> modifiers[k] == held_below(words, mn, 64 * w as nat)[k],
                forall|k: int| count <= k < MAX_MODIFIERS ==> modifiers[k] == NO_MODIFIER,
            decreases N - w,
        {
            let word = bitmask[w];
            let mut sub = word;
            assert(word >> 0u64 == word) by (bit_vector);
            let mut j: u32 = 0;
            while j < 64 && count < MAX_MODIFIERS
                invariant
                    w < N,
                    j <= 64,
                    64 * N <= u32::MAX,
                    words == bitmask@,
                    words.len() == N,
                    word == words[w as int],
                    sub == word >> (j as u64),
                    mn == main_num,
                    count <= MAX_MODIFIERS,
                    count < MAX_MODIFIERS ==> count == held_below(
                        words,
                        mn,
                        (64 * w + j) as nat,
                    ).len(),
                    count == MAX_MODIFIERS ==> held_below(words, mn, (64 * w + j) as nat).len()
                        >= 4,
                    forall|k: int|
                        0 <= k < count ==> modifiers[k] == held_below(
                            words,
                            mn,
                            (64 * w + j) as nat,
                        )[k],
                    forall|k: int| count <= k < MAX_MODIFIERS ==> modifiers[k] == NO_MODIFIER,
                decreases 64 - j,
            {
                let i: u32 = (w as u32) * 64 + j;
                let ghost t: nat = (64 * w + j) as nat;
                assert(t / 64 == w && t % 64 == j) by (nonlinear_arith)
                    requires
                        t == 64 * w + j,
                        j < 64,
                ;
                assert(bit_set(words, t) == (sub & 1u64 == 1u64));
                proof {
                    lemma_held_below_bounded(words, mn, t);
                }
                if i != main_num && (sub & 1) == 1 {
                    modifiers[count] = i;
                    count = count + 1;
                }
                proof {
                    lemma_shift_step(word, j as u64);
                }
                sub = sub >> 1;
                j = j + 1;
            }
            proof {
                if count < MAX_MODIFIERS {
                    assert(j == 64);
                }
                assert(64 * w + j <= 64 * (w + 1));
                lemma_held_below_prefix(words, mn, (64 * w + j) as nat, (64 * (w + 1)) as nat);
                if count < MAX_MODIFIERS {
                    assert((64 * w + j) as nat == (64 * (w + 1)) as nat);
                }
            }
            w = w + 1;
        }
        proof {
            let total = held_inputs(words, mn);
            assert(64 * w <= 64 * N);
            lemma_held_below_prefix(words, mn, (64 * w) as nat, (64 * N) as nat);
            if count < MAX_MODIFIERS {
                assert(w == N);
            }
            lemma_held_below_bounded(words, mn, (64 * N) as nat);
            assert forall|k: int| 0 <= k < MAX_MODIFIERS implies modifiers[k] == modifier_slot(
                total,
                k,
            ) by {
                if k < count {
                    assert(total[k] == held_below(words, mn, (64 * w) as nat)[k]);
                }
            }
        }
        ModInput { main, modifiers }
    }

    /// An input with no modifiers.
    pub fn from(main: RawInput) -> (r: Self)
        ensures
            r.main == main,
            forall|k: int| 0 <= k < MAX_MODIFIERS ==> r.modifiers[k] == NO_MODIFIER,
    {
        ModInput { main, modifiers: [NO_MODIFIER; MAX_MODIFIERS] }
    }

    /// A key press with no modifiers.
    pub fn from_key(key: u32) -> (r: Self)
        ensures
            r.main == RawInput::Key(key),
            forall|k: int| 0 <= k < MAX_MODIFIERS ==> r.modifiers[k] == NO_MODIFIER,
    {
        Self::from(RawInput::Key(key))
    }

    /// A key press with Ctrl (key code 17) held.
    pub fn from_key_ctrl(key: u32) -> (r: Self)
        ensures
            r.main == RawInput::Key(key),
            r.modifiers@ == seq![17u32, NO_MODIFIER, NO_MODIFIER, NO_MODIFIER],
    {
        let mut this = Self::from_key(key);
        this.modifiers[0] = 17;
        assert(this.modifiers@ =~= seq![17u32, NO_MODIFIER, NO_MODIFIER, NO_MODIFIER]);
        this
    }

    /// A key press with Shift (16) and Ctrl (17) held.
    pub fn from_key_ctrl_shift(key: u32) -> (r: Self)
        ensures
            r.main == RawInput::Key(key),
            r.modifiers@ == seq![16u32, 17u32, NO_MODIFIER, NO_MODIFIER],
    {
        let mut this = Self::from_key(key);
        this.modifiers[0] = 16;
        this.modifiers[1] = 17;
        assert(this.modifiers@ =~= seq![16u32, 17u32, NO_MODIFIER, NO_MODIFIER]);
        this
    }
}

impl Default for ModInput {
    /// The "no input" value with all modifier slots zero.
    fn default() -> (r: Self)
        ensures
            r.main == RawInput::Key(0xffff_ffffu32),
            r.modifiers@ == seq![0u32, 0u32, 0u32, 0u32],
    {
        let r = ModInput { main: RawInput::default(), modifiers: [0u32; MAX_MODIFIERS] };
        assert(r.modifiers@ =~= seq![0u32, 0u32, 0u32, 0u32]);
        r
    }
}


/// The key code that the host reports for the left and right variants of
/// Shift (160, 161), Ctrl (162, 163) and Alt (164, 165) is folded into the
/// plain code of that key (16, 17, 18); other codes pass through.
pub fn normalize_key(code: u32) -> (r: u32)
    ensures
        r == (if code == 160 || code == 161 {
            16
        } else if code == 162 || code == 163 {
            17
        } else if code == 164 || code == 165 {
            18
        } else {
            code
        }),
{
    match code {
        160 => 16,
        161 => 16,
        162 => 17,
        163 => 17,
        164 => 18,
        165 => 18,
        x => x,
    }
}

/// The bitmask after input `index` has been marked held (`down`) or released.
pub open spec fn with_held(words: Seq<u64>, index: nat, down: bool) -> Seq<u64> {
    let w = (index / 64) as int;
    let b = 1u64 << ((index % 64) as u64);
    words.update(w, if down { words[w] | b } else { words[w] & !b })
}

/// Marks input `index` as held or released in the bitmask.
pub fn set_held<const N: usize>(mask: &mut [u64; N], index: u32, down: bool)
    requires
        (index as nat) < 64 * N,
    ensures
        final(mask)@ == with_held(old(mask)@, index as nat, down),
        bit_set(final(mask)@, index as nat) == down,
        forall|t: nat|
            t < 64 * N && t != index ==> bit_set(final(mask)@, t) == bit_set(old(mask)@, t),
{
    let ind = (index / 64) as usize;
    let sh = (index % 64) as u64;
    let bit: u64 = 1u64 << sh;
    let old_word = mask[ind];
    let new_word = if down { old_word | bit } else { old_word & !bit };
    mask[ind] = new_word;
    proof {
        let ws = mask@;
        assert(ws =~= with_held(old(mask)@, index as nat, down));
        assert((new_word >> sh) & 1u64 == (if down { 1u64 } else { 0u64 })) by (bit_vector)
            requires
                sh < 64,
                bit == 1u64 << sh,
                new_word == (if down { old_word | bit } else { old_word & !bit }),
        ;
        assert forall|t: nat| t < 64 * N && t != index implies bit_set(ws, t) == bit_set(
            old(mask)@,
            t,
        ) by {
            if t / 64 == index / 64 {
                let st = (t % 64) as u64;
                assert(st != sh);
                assert((new_word >> st) & 1u64 == (old_word >> st) & 1u64) by (bit_vector)
                    requires
                        sh < 64,
                        st < 64,
                        st != sh,
                        bit == 1u64 << sh,
                        new_word == (if down { old_word | bit } else { old_word & !bit }),
                ;
            }
        }
    }
}

/// Records a key going down or up; key codes from 512 on are not tracked.
pub fn record_key(keys: &mut [u64; 8], key: u32, down: bool)
    ensures
        key < 512 ==> final(keys)@ == with_held(old(keys)@, key as nat, down),
        key >= 512 ==> final(keys)@ == old(keys)@,
{
    if key < 512 {
        set_held(keys, key, down);
    }
}

/// Records a controller button going down or up.
pub fn record_button(buttons: &mut [u64; 4], button: u8, down: bool)
    ensures
        final(buttons)@ == with_held(old(buttons)@, button as nat, down),
{
    set_held(buttons, button as u32, down);
}

/// The key code that `normalize_key` gives.
pub open spec fn spec_normalize_key(code: u32) -> u32 {
    if code == 160 || code == 161 {
        16
    } else if code == 162 || code == 163 {
        17
    } else if code == 164 || code == 165 {
        18
    } else {
        code
    }
}

/// Handles a key going down or up, as the host reports its code: the code is
/// normalized, the input is recorded with the keys held before this event
/// (the key itself left out), and then the key's bit is set or cleared (codes
/// from 512 on are not tracked). Returns the recorded input.
pub fn key_event(keys: &mut [u64; 8], code: u32, down: bool) -> (r: ModInput)
    requires
        !modifier_scan_overflows(old(keys)@, spec_normalize_key(code) as nat),
    ensures
        r.main == RawInput::Key(spec_normalize_key(code)),
        forall|k: int|
            0 <= k < MAX_MODIFIERS ==> r.modifiers[k] == modifier_slot(
                held_inputs(old(keys)@, spec_normalize_key(code) as nat),
                k,
            ),
        spec_normalize_key(code) < 512 ==> final(keys)@ == with_held(old(keys)@, spec_normalize_key(code) as nat, down),
        spec_normalize_key(code) >= 512 ==> final(keys)@ == old(keys)@,
{
    let key = normalize_key(code);
    let r = ModInput::new(RawInput::Key(key), keys);
    record_key(keys, key, down);
    r
}

/// Handles a controller button going down or up: the input is recorded with
/// the buttons held before this event (the button itself left out), and then
/// the button's bit is set or cleared. Returns the recorded input.
pub fn button_event(buttons: &mut [u64; 4], button: u8, down: bool) -> (r: ModInput)
    requires
        !modifier_scan_overflows(old(buttons)@, button as nat),
    ensures
        r.main == RawInput::ControllerButton(button),
        forall|k: int|
            0 <= k < MAX_MODIFIERS ==> r.modifiers[k] == modifier_slot(held_inputs(old(buttons)@, button as nat), k),
        final(buttons)@ == with_held(old(buttons)@, button as nat, down),
{
    let r = ModInput::new(RawInput::ControllerButton(button), buttons);
    record_button(buttons, button, down);
    r
}

/// Pressing an input that is not held and then releasing it leaves the bitmask
/// as it was.
pub proof fn law_press_release_restores(words: Seq<u64>, index: nat)
    requires
        index < 64 * words.len(),
        !bit_set(words, index),
    ensures
        with_held(with_held(words, index, true), index, false) == words,
{
    let w = (index / 64) as int;
    let sh = (index % 64) as u64;
    let x = words[w];
    assert(index / 64 < words.len()) by (nonlinear_arith)
        requires
            index < 64 * words.len(),
    ;
    assert(((x | (1u64 << sh)) & !(1u64 << sh)) == x) by (bit_vector)
        requires
            sh < 64,
            (x >> sh) & 1u64 != 1u64,
    ;
    assert(with_held(with_held(words, index, true), index, false) =~= words);
}

/// Releasing an input leaves it not held, whatever it was before.
pub proof fn law_release_clears(words: Seq<u64>, index: nat)
    requires
        index < 64 * words.len(),
    ensures
        !bit_set(with_held(words, index, false), index),
{
    let w = (index / 64) as int;
    let sh = (index % 64) as u64;
    let x = words[w];
    assert(index / 64 < words.len()) by (nonlinear_arith)
        requires
            index < 64 * words.len(),
    ;
    assert(((x & !(1u64 << sh)) >> sh) & 1u64 == 0u64) by (bit_vector)
        requires
            sh < 64,
    ;
}

proof fn lemma_nothing_held_below(words: Seq<u64>, main: nat, t: nat)
    requires
        t <= 64 * words.len(),
        forall|i: int| 0 <= i < words.len() ==> words[i] == 0u64,
    ensures
        held_below(words, main, t) == Seq::<nat>::empty(),
    decreases t,
{
    if t > 0 {
        lemma_nothing_held_below(words, main, (t - 1) as nat);
        let u = (t - 1) as nat;
        assert(u / 64 < words.len()) by (nonlinear_arith)
            requires
                u < 64 * words.len(),
        ;
        let j = (u % 64) as u64;
        assert((0u64 >> j) & 1u64 == 0u64) by (bit_vector);
        assert(!bit_set(words, u));
    }
}

/// An input recorded with no held inputs is the input alone: with every bit of
/// the mask clear, `ModInput::new` gathers no modifier and fills every slot as
/// `ModInput::from` does, and its scan never overflows.
pub proof fn law_nothing_held_is_from(words: Seq<u64>, main: nat)
    requires
        forall|i: int| 0 <= i < words.len() ==> words[i] == 0u64,
    ensures
        held_inputs(words, main) == Seq::<nat>::empty(),
        forall|k: int| 0 <= k < MAX_MODIFIERS ==> modifier_slot(held_inputs(words, main), k) == NO_MODIFIER,
        !modifier_scan_overflows(words, main),
{
    lemma_nothing_held_below(words, main, 64 * words.len());
}

/// The modifiers held in one mask word with bits 16 and 17 as `shift` and
/// `ctrl` say, below `t`.
pub open spec fn shift_ctrl_below(shift: bool, ctrl: bool, t: nat) -> Seq<nat> {
    let s: Seq<nat> = if shift && t > 16 {
        seq![16nat]
    } else {
        Seq::empty()
    };
    if ctrl && t > 17 {
        s.push(17nat)
    } else {
        s
    }
}

/// The mask word with Shift (16) and Ctrl (17) held as the flags say.
pub open spec fn shift_ctrl_word(shift: bool, ctrl: bool) -> u64 {
    (if shift {
        1u64 << 16u64
    } else {
        0u64
    }) | (if ctrl {
        1u64 << 17u64
    } else {
        0u64
    })
}

proof fn lemma_shift_ctrl_below(shift: bool, ctrl: bool, main: nat, t: nat)
    requires
        t <= 64,
        shift ==> main != 16,
        ctrl ==> main != 17,
    ensures
        held_below(seq![shift_ctrl_word(shift, ctrl)], main, t) == shift_ctrl_below(shift, ctrl, t),
    decreases t,
{
    if t > 0 {
        let u = (t - 1) as nat;
        lemma_shift_ctrl_below(shift, ctrl, main, u);
        let w = shift_ctrl_word(shift, ctrl);
        let j = u as u64;
        assert(u / 64 == 0 && u % 64 == u);
        assert(((w >> j) & 1u64 == 1u64) == ((shift && j == 16) || (ctrl && j == 17))) by (bit_vector)
            requires
                j < 64,
                w == (if shift {
                    1u64 << 16u64
                } else {
                    0u64
                }) | (if ctrl {
                    1u64 << 17u64
                } else {
                    0u64
                }),
        ;
        assert(bit_set(seq![w], u) == ((shift && u == 16) || (ctrl && u == 17)));
        assert(held_below(seq![w], main, t) =~= shift_ctrl_below(shift, ctrl, t));
    }
}

/// A key recorded while only Ctrl (17) is held has the modifiers that
/// `ModInput::from_key_ctrl` gives it, and the scan never overflows.
pub proof fn law_ctrl_held_is_from_key_ctrl(key: u32)
    requires
        key != 17,
    ensures
        held_inputs(seq![1u64 << 17u64], key as nat) == seq![17nat],
        modifier_slot(held_inputs(seq![1u64 << 17u64], key as nat), 0) == 17u32,
        forall|k: int| 1 <= k < MAX_MODIFIERS ==> modifier_slot(held_inputs(seq![1u64 << 17u64], key as nat), k) == NO_MODIFIER,
        !modifier_scan_overflows(seq![1u64 << 17u64], key as nat),
{
    assert(shift_ctrl_word(false, true) == 1u64 << 17u64) by (bit_vector);
    lemma_shift_ctrl_below(false, true, key as nat, 64);
    assert(shift_ctrl_below(false, true, 64) =~= seq![17nat]);
}

/// A key recorded while only Shift (16) and Ctrl (17) are held has the
/// modifiers that `ModInput::from_key_ctrl_shift` gives it, and the scan never
/// overflows.
pub proof fn law_ctrl_shift_held_is_from_key_ctrl_shift(key: u32)
    requires
        key != 16,
        key != 17,
    ensures
        held_inputs(seq![(1u64 << 16u64) | (1u64 << 17u64)], key as nat) == seq![16nat, 17nat],
        modifier_slot(held_inputs(seq![(1u64 << 16u64) | (1u64 << 17u64)], key as nat), 0) == 16u32,
        modifier_slot(held_inputs(seq![(1u64 << 16u64) | (1u64 << 17u64)], key as nat), 1) == 17u32,
        forall|k: int|
            2 <= k < MAX_MODIFIERS ==> modifier_slot(held_inputs(seq![(1u64 << 16u64) | (1u64 << 17u64)], key as nat), k)
                == NO_MODIFIER,
        !modifier_scan_overflows(seq![(1u64 << 16u64) | (1u64 << 17u64)], key as nat),
{
    assert(shift_ctrl_word(true, true) == (1u64 << 16u64) | (1u64 << 17u64)) by (bit_vector);
    lemma_shift_ctrl_below(true, true, key as nat, 64);
    assert(shift_ctrl_below(true, true, 64) =~= seq![16nat, 17nat]);
}

} // verus!
