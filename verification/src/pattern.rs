use vstd::prelude::*;

use crate::actions::{Action, ProgStep};

verus! {

/// One visual pattern step: run `a`, latch the register to the outputs,
/// then pause `t` milliseconds.
pub open spec fn latched(a: Action, t: u64) -> Seq<ProgStep> {
    seq![ProgStep::Act(a), ProgStep::Act(Action::Latch), ProgStep::Sleep(t)]
}

/// `n` consecutive latched steps of the same action.
pub open spec fn repeat_latched(a: Action, t: u64, n: nat) -> Seq<ProgStep>
    decreases n,
{
    if n == 0 {
        Seq::empty()
    } else {
        repeat_latched(a, t, (n - 1) as nat) + latched(a, t)
    }
}

pub proof fn lemma_repeat_latched_len(a: Action, t: u64, n: nat)
    ensures
        repeat_latched(a, t, n).len() == 3 * n,
    decreases n,
{
    if n > 0 {
        lemma_repeat_latched_len(a, t, (n - 1) as nat);
    }
}

pub proof fn lemma_repeat_latched_index(a: Action, t: u64, n: nat, k: int)
    requires
        0 <= k < n,
    ensures
        repeat_latched(a, t, n).subrange(3 * k, 3 * k + 3) == latched(a, t),
    decreases n,
{
    lemma_repeat_latched_len(a, t, n);
    lemma_repeat_latched_len(a, t, (n - 1) as nat);
    if k == n - 1 {
        assert(repeat_latched(a, t, n).subrange(3 * k, 3 * k + 3) =~= latched(a, t));
    } else {
        lemma_repeat_latched_index(a, t, (n - 1) as nat, k);
        assert(repeat_latched(a, t, n).subrange(3 * k, 3 * k + 3) =~= repeat_latched(
            a,
            t,
            (n - 1) as nat,
        ).subrange(3 * k, 3 * k + 3));
    }
}

/// Append `n` latched steps of `a` with delay `t` to a fresh run.
fn latched_run(a: Action, t: u64, n: u32) -> (run: Vec<ProgStep>)
    ensures
        run@ == repeat_latched(a, t, n as nat),
{
    let mut run: Vec<ProgStep> = Vec::new();
    let mut j: u32 = 0;
    while j < n
        invariant
            j <= n,
            run@ == repeat_latched(a, t, j as nat),
        decreases n - j,
    {
        run.push(ProgStep::Act(a));
        run.push(ProgStep::Act(Action::Latch));
        run.push(ProgStep::Sleep(t));
        proof {
            assert(run@ =~= repeat_latched(a, t, (j + 1) as nat));
        }
        j = j + 1;
    }
    run
}

/// The sweep pattern: eight latched shift-ones, then eight latched
/// shift-zeros.
pub open spec fn sweep_spec(t: u64) -> Seq<ProgStep> {
    repeat_latched(Action::Serialize1, t, 8) + repeat_latched(Action::Serialize0, t, 8)
}

/// The action of sweep step `k`: ones first, zeros second.
pub open spec fn sweep_action(k: int) -> Action {
    if k < 8 {
        Action::Serialize1
    } else {
        Action::Serialize0
    }
}

/// Law: the sweep emits exactly sixteen latched pairs — eight shift-one
/// then eight shift-zero — each followed by a latch and a wait of `t`.
pub proof fn lemma_sweep_shape(t: u64)
    ensures
        sweep_spec(t).len() == 48,
        forall|k: int|
            0 <= k < 16 ==> #[trigger] sweep_spec(t).subrange(3 * k, 3 * k + 3) == latched(
                sweep_action(k),
                t,
            ),
{
    lemma_repeat_latched_len(Action::Serialize1, t, 8);
    lemma_repeat_latched_len(Action::Serialize0, t, 8);
    assert forall|k: int| 0 <= k < 16 implies #[trigger] sweep_spec(t).subrange(
        3 * k,
        3 * k + 3,
    ) == latched(sweep_action(k), t) by {
        if k < 8 {
            lemma_repeat_latched_index(Action::Serialize1, t, 8, k);
            assert(sweep_spec(t).subrange(3 * k, 3 * k + 3) =~= repeat_latched(
                Action::Serialize1,
                t,
                8,
            ).subrange(3 * k, 3 * k + 3));
        } else {
            lemma_repeat_latched_index(Action::Serialize0, t, 8, k - 8);
            assert(sweep_spec(t).subrange(3 * k, 3 * k + 3) =~= repeat_latched(
                Action::Serialize0,
                t,
                8,
            ).subrange(3 * (k - 8), 3 * (k - 8) + 3));
        }
    }
}

/// Sweep generator: walk the register full of ones, then drain it with
/// zeros, one latched step of delay `t` at a time.
pub fn auto_mode_pattern_1(t: u64) -> (prog: Vec<ProgStep>)
    ensures
        prog@ == sweep_spec(t),
{
    let mut prog = latched_run(Action::Serialize1, t, 8);
    let mut tail = latched_run(Action::Serialize0, t, 8);
    prog.append(&mut tail);
    prog
}

/// The action at alternate step `k`: shift-one on even steps, shift-zero
/// on odd ones.
pub open spec fn alternate_action(k: int) -> Action {
    if k % 2 == 0 {
        Action::Serialize1
    } else {
        Action::Serialize0
    }
}

/// The first `n` steps of the alternating pattern.
pub open spec fn alternate_spec(t: u64, n: nat) -> Seq<ProgStep>
    decreases n,
{
    if n == 0 {
        Seq::empty()
    } else {
        alternate_spec(t, (n - 1) as nat) + latched(alternate_action(n - 1), t)
    }
}

pub proof fn lemma_alternate_len(t: u64, n: nat)
    ensures
        alternate_spec(t, n).len() == 3 * n,
    decreases n,
{
    if n > 0 {
        lemma_alternate_len(t, (n - 1) as nat);
    }
}

pub proof fn lemma_alternate_index(t: u64, n: nat, k: int)
    requires
        0 <= k < n,
    ensures
        alternate_spec(t, n).subrange(3 * k, 3 * k + 3) == latched(alternate_action(k), t),
    decreases n,
{
    lemma_alternate_len(t, n);
    lemma_alternate_len(t, (n - 1) as nat);
    if k == n - 1 {
        assert(alternate_spec(t, n).subrange(3 * k, 3 * k + 3) =~= latched(
            alternate_action(k),
            t,
        ));
    } else {
        lemma_alternate_index(t, (n - 1) as nat, k);
        assert(alternate_spec(t, n).subrange(3 * k, 3 * k + 3) =~= alternate_spec(
            t,
            (n - 1) as nat,
        ).subrange(3 * k, 3 * k + 3));
    }
}

/// Law: the alternating pattern emits exactly sixteen latched pairs whose
/// action alternates shift-one on even indices and shift-zero on odd
/// ones, each followed by a wait of `t`.
pub proof fn lemma_alternate_shape(t: u64)
    ensures
        alternate_spec(t, 16).len() == 48,
        forall|k: int|
            0 <= k < 16 ==> #[trigger] alternate_spec(t, 16).subrange(3 * k, 3 * k + 3) == latched(
                alternate_action(k),
                t,
            ),
{
    lemma_alternate_len(t, 16);
    assert forall|k: int| 0 <= k < 16 implies #[trigger] alternate_spec(t, 16).subrange(
        3 * k,
        3 * k + 3,
    ) == latched(alternate_action(k), t) by {
        lemma_alternate_index(t, 16, k);
    }
}

/// Alternating generator: sixteen latched steps whose bit follows the
/// parity of the step index.
pub fn auto_mode_pattern_2(t: u64) -> (prog: Vec<ProgStep>)
    ensures
        prog@ == alternate_spec(t, 16),
{
    let mut prog: Vec<ProgStep> = Vec::new();
    let mut i: u32 = 0;
    while i < 16
        invariant
            i <= 16,
            prog@ == alternate_spec(t, i as nat),
        decreases 16 - i,
    {
        if i % 2 == 0 {
            prog.push(ProgStep::Act(Action::Serialize1));
        } else {
            prog.push(ProgStep::Act(Action::Serialize0));
        }
        prog.push(ProgStep::Act(Action::Latch));
        prog.push(ProgStep::Sleep(t));
        proof {
            assert(prog@ =~= alternate_spec(t, (i + 1) as nat));
        }
        i = i + 1;
    }
    prog
}

/// One repetition of the random pattern: `c_on + 1` latched ones,
/// `c_off + 1` latched zeros, then `c_on + 1` latched ones again.  The
/// extra step over the drawn count comes from the inclusive loop bounds
/// of the observed device behaviour and is kept deliberately.
pub open spec fn run_block_spec(t: u64, c_on: nat, c_off: nat) -> Seq<ProgStep> {
    repeat_latched(Action::Serialize1, t, c_on + 1) + repeat_latched(
        Action::Serialize0,
        t,
        c_off + 1,
    ) + repeat_latched(Action::Serialize1, t, c_on + 1)
}

/// The first `n` repetitions of the random pattern.
pub open spec fn run_blocks_spec(t: u64, c_on: nat, c_off: nat, n: nat) -> Seq<ProgStep>
    decreases n,
{
    if n == 0 {
        Seq::empty()
    } else {
        run_blocks_spec(t, c_on, c_off, (n - 1) as nat) + run_block_spec(t, c_on, c_off)
    }
}

/// The whole random pattern for counts `c_on` and `c_off`: four
/// repetitions, then eight latched zeros that flush the register.
pub open spec fn random_run_spec(t: u64, c_on: nat, c_off: nat) -> Seq<ProgStep> {
    run_blocks_spec(t, c_on, c_off, 4) + repeat_latched(Action::Serialize0, t, 8)
}

/// The run-length count a raw random draw maps to: `r % 4 + 1`, in 1..=4.
pub open spec fn draw_count(r: u32) -> nat {
    (r % 4 + 1) as nat
}

/// Law: the length of the random pattern is determined by the two counts
/// alone: four repetitions of `2 * (c_on + 1) + (c_off + 1)` latched
/// steps plus the eight-step flush, three program steps per latched step.
pub proof fn lemma_random_run_len(t: u64, c_on: nat, c_off: nat)
    ensures
        random_run_spec(t, c_on, c_off).len() == 12 * (2 * (c_on + 1) + (c_off + 1)) + 24,
{
    lemma_repeat_latched_len(Action::Serialize1, t, c_on + 1);
    lemma_repeat_latched_len(Action::Serialize0, t, c_off + 1);
    lemma_repeat_latched_len(Action::Serialize0, t, 8);
    assert(run_blocks_spec(t, c_on, c_off, 0).len() == 0);
    assert(run_blocks_spec(t, c_on, c_off, 1).len() == 3 * (2 * (c_on + 1) + (c_off + 1)));
    assert(run_blocks_spec(t, c_on, c_off, 2).len() == 6 * (2 * (c_on + 1) + (c_off + 1)));
    assert(run_blocks_spec(t, c_on, c_off, 3).len() == 9 * (2 * (c_on + 1) + (c_off + 1)));
    assert(run_blocks_spec(t, c_on, c_off, 4).len() == 12 * (2 * (c_on + 1) + (c_off + 1)));
}

/// Pseudo-random generator: the two raw draws `r_on` and `r_off` fix the
/// run lengths, and the emitted program is then fully determined.
pub fn auto_mode_random(t: u64, r_on: u32, r_off: u32) -> (prog: Vec<ProgStep>)
    ensures
        prog@ == random_run_spec(t, draw_count(r_on), draw_count(r_off)),
{
    let count_on: u32 = r_on % 4 + 1;
    let count_off: u32 = r_off % 4 + 1;
    let mut prog: Vec<ProgStep> = Vec::new();
    let mut c: u32 = 0;
    while c < 4
        invariant
            c <= 4,
            count_on == r_on % 4 + 1,
            count_off == r_off % 4 + 1,
            prog@ == run_blocks_spec(t, draw_count(r_on), draw_count(r_off), c as nat),
        decreases 4 - c,
    {
        let mut part = latched_run(Action::Serialize1, t, count_on + 1);
        prog.append(&mut part);
        let mut part = latched_run(Action::Serialize0, t, count_off + 1);
        prog.append(&mut part);
        let mut part = latched_run(Action::Serialize1, t, count_on + 1);
        prog.append(&mut part);
        proof {
            assert(prog@ =~= run_blocks_spec(
                t,
                draw_count(r_on),
                draw_count(r_off),
                (c + 1) as nat,
            ));
        }
        c = c + 1;
    }
    let mut flush = latched_run(Action::Serialize0, t, 8);
    prog.append(&mut flush);
    prog
}

/// The full auto-mode script over 24 raw random draws, consumed in order:
/// a clear, three rounds of sweep at 100 ms plus random at 44 ms, three
/// rounds of alternate at 90 ms plus random at 33 ms, then three rounds
/// of sweep at 50 ms, random at 44 ms, alternate at 50 ms and random at
/// 44 ms.
pub open spec fn auto_spec(d: Seq<u32>) -> Seq<ProgStep> {
    seq![ProgStep::Act(Action::Clear)] + sweep_spec(100) + random_run_spec(
        44,
        draw_count(d[0]),
        draw_count(d[1]),
    ) + sweep_spec(100) + random_run_spec(44, draw_count(d[2]), draw_count(d[3])) + sweep_spec(100)
        + random_run_spec(44, draw_count(d[4]), draw_count(d[5])) + alternate_spec(90, 16)
        + random_run_spec(33, draw_count(d[6]), draw_count(d[7])) + alternate_spec(90, 16)
        + random_run_spec(33, draw_count(d[8]), draw_count(d[9])) + alternate_spec(90, 16)
        + random_run_spec(33, draw_count(d[10]), draw_count(d[11])) + sweep_spec(50)
        + random_run_spec(44, draw_count(d[12]), draw_count(d[13])) + alternate_spec(50, 16)
        + random_run_spec(44, draw_count(d[14]), draw_count(d[15])) + sweep_spec(50)
        + random_run_spec(44, draw_count(d[16]), draw_count(d[17])) + alternate_spec(50, 16)
        + random_run_spec(44, draw_count(d[18]), draw_count(d[19])) + sweep_spec(50)
        + random_run_spec(44, draw_count(d[20]), draw_count(d[21])) + alternate_spec(50, 16)
        + random_run_spec(44, draw_count(d[22]), draw_count(d[23]))
}

/// Law: the auto script always begins with a clear, before any pattern
/// generator output.
pub proof fn lemma_auto_starts_with_clear(d: Seq<u32>)
    ensures
        auto_spec(d).len() >= 1,
        auto_spec(d)[0] == ProgStep::Act(Action::Clear),
{
}

/// Auto-mode generator: the fixed demonstration script, with the 24 raw
/// random draws it consumes supplied up front.
pub fn auto_mode(draws: &Vec<u32>) -> (prog: Vec<ProgStep>)
    requires
        draws@.len() == 24,
    ensures
        prog@ == auto_spec(draws@),
{
    let mut prog: Vec<ProgStep> = Vec::new();
    prog.push(ProgStep::Act(Action::Clear));
    proof {
        assert(prog@ =~= seq![ProgStep::Act(Action::Clear)]);
    }
    let mut part = auto_mode_pattern_1(100);
    prog.append(&mut part);
    let mut part = auto_mode_random(44, draws[0], draws[1]);
    prog.append(&mut part);
    let mut part = auto_mode_pattern_1(100);
    prog.append(&mut part);
    let mut part = auto_mode_random(44, draws[2], draws[3]);
    prog.append(&mut part);
    let mut part = auto_mode_pattern_1(100);
    prog.append(&mut part);
    let mut part = auto_mode_random(44, draws[4], draws[5]);
    prog.append(&mut part);
    let mut part = auto_mode_pattern_2(90);
    prog.append(&mut part);
    let mut part = auto_mode_random(33, draws[6], draws[7]);
    prog.append(&mut part);
    let mut part = auto_mode_pattern_2(90);
    prog.append(&mut part);
    let mut part = auto_mode_random(33, draws[8], draws[9]);
    prog.append(&mut part);
    let mut part = auto_mode_pattern_2(90);
    prog.append(&mut part);
    let mut part = auto_mode_random(33, draws[10], draws[11]);
    prog.append(&mut part);
    let mut part = auto_mode_pattern_1(50);
    prog.append(&mut part);
    let mut part = auto_mode_random(44, draws[12], draws[13]);
    prog.append(&mut part);
    let mut part = auto_mode_pattern_2(50);
    prog.append(&mut part);
    let mut part = auto_mode_random(44, draws[14], draws[15]);
    prog.append(&mut part);
    let mut part = auto_mode_pattern_1(50);
    prog.append(&mut part);
    let mut part = auto_mode_random(44, draws[16], draws[17]);
    prog.append(&mut part);
    let mut part = auto_mode_pattern_2(50);
    prog.append(&mut part);
    let mut part = auto_mode_random(44, draws[18], draws[19]);
    prog.append(&mut part);
    let mut part = auto_mode_pattern_1(50);
    prog.append(&mut part);
    let mut part = auto_mode_random(44, draws[20], draws[21]);
    prog.append(&mut part);
    let mut part = auto_mode_pattern_2(50);
    prog.append(&mut part);
    let mut part = auto_mode_random(44, draws[22], draws[23]);
    prog.append(&mut part);
    prog
}

} // verus!
