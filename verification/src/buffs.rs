//! The buffs line of the unit panel: what each active effect does, in words.

use vstd::prelude::*;
use crate::decimal::{decimal, push_decimal};

verus! {

/// Poison that deals `stacks` damage on a tick, then one less on each later tick.
#[derive(Debug, Clone, Copy, PartialEq, Eq, Structural)]
pub struct PoisonData {
    pub stacks: u32,
}

/// An effect that builds up in stacks towards a maximum; each stack adds five
/// percent.
#[derive(Debug, Clone, Copy, PartialEq, Eq, Structural)]
pub struct StackData {
    pub current_stacks: u32,
    pub max_stacks: u32,
}

/// The effects a unit can carry.
#[derive(Debug, Clone, Copy, PartialEq, Eq, Structural)]
pub enum BuffEffect {
    Poison(PoisonData),
    Block(StackData),
    Stun(StackData),
    AttackSpeed(StackData),
    Invincible,
}

/// 1 + 2 + ... + n: the damage poison of `n` stacks deals before it wears off.
pub open spec fn poison_total(n: nat) -> nat
    decreases n,
{
    if n == 0 { 0 } else { n + poison_total((n - 1) as nat) }
}

/// Poison of `n` stacks deals n + (n-1) + ... + 1 = n(n+1)/2 damage in all.
pub proof fn poison_total_closed_form(n: nat)
    ensures
        poison_total(n) == n * (n + 1) / 2,
    decreases n,
{
    if n > 0 {
        let m = (n - 1) as nat;
        poison_total_closed_form(m);
        assert(n * (n + 1) == m * (m + 1) + 2 * n) by (nonlinear_arith)
            requires
                m + 1 == n,
        ;
        assert((m * (m + 1) + 2 * n) / 2 == m * (m + 1) / 2 + n) by (nonlinear_arith);
        assert(poison_total(n) == n + poison_total(m));
        assert(n * (n + 1) / 2 == (m * (m + 1) + 2 * n) / 2);
    } else {
        assert(n * (n + 1) == 0) by (nonlinear_arith)
            requires
                n == 0,
        ;
    }
}

/// Five percent a stack, in whole percent.
pub open spec fn stack_percent(stacks: u32) -> nat {
    (stacks * 5) as nat
}

/// Values whose texts the engine's float formatting renders exactly: the
/// poison total fits in 32 bits, and every percentage is a whole number a
/// 32-bit float holds exactly. The percentages are computed in 32-bit floats,
/// which hold every whole number up to 2^24 but not all above it; so five
/// percent a stack is exact for at most 2^24 / 5 stacks, and this is the bound
/// stated here. Above it the float rounds and the text differs from
/// `5 * stacks`; such counts are left out of the contracts, not refused.
pub open spec fn buff_in_range(b: BuffEffect) -> bool {
    match b {
        BuffEffect::Poison(d) => d.stacks * (d.stacks + 1) <= u32::MAX,
        BuffEffect::Block(d) => d.current_stacks * 5 <= 0x100_0000,
        BuffEffect::Stun(d) => d.current_stacks * 5 <= 0x100_0000,
        BuffEffect::AttackSpeed(d) => d.current_stacks * 5 <= 0x100_0000,
        BuffEffect::Invincible => true,
    }
}

/// Whether an effect's values lie in the range whose texts are exact.
pub fn buff_in_range_exec(b: BuffEffect) -> (r: bool)
    ensures
        r == buff_in_range(b),
{
    match b {
        BuffEffect::Poison(d) => {
            let n = d.stacks as u64;
            assert(n * (n + 1) <= u64::MAX) by (nonlinear_arith)
                requires
                    n <= u32::MAX,
            ;
            n * (n + 1) <= u32::MAX as u64
        },
        BuffEffect::Block(d) => (d.current_stacks as u64) * 5 <= 0x100_0000,
        BuffEffect::Stun(d) => (d.current_stacks as u64) * 5 <= 0x100_0000,
        BuffEffect::AttackSpeed(d) => (d.current_stacks as u64) * 5 <= 0x100_0000,
        BuffEffect::Invincible => true,
    }
}

/// The text for one effect.
pub open spec fn buff_text(b: BuffEffect) -> Seq<char> {
    match b {
        BuffEffect::Poison(d) => "Poison x"@ + decimal(d.stacks as nat) + " ("@
            + decimal(poison_total(d.stacks as nat)) + " total dmg, "@ + decimal(d.stacks as nat)
            + "\u{2192}1/sec)"@,
        BuffEffect::Block(d) => "Block "@ + decimal(d.current_stacks as nat) + "/"@ + decimal(
            d.max_stacks as nat,
        ) + " ("@ + decimal(stack_percent(d.current_stacks)) + "% chance)"@,
        BuffEffect::Stun(d) => "Stun "@ + decimal(d.current_stacks as nat) + "/"@ + decimal(
            d.max_stacks as nat,
        ) + " ("@ + decimal(stack_percent(d.current_stacks)) + "% chance)"@,
        BuffEffect::AttackSpeed(d) => "AtkSpd "@ + decimal(d.current_stacks as nat) + "/"@
            + decimal(d.max_stacks as nat) + " ("@ + decimal(stack_percent(d.current_stacks))
            + "% faster)"@,
        BuffEffect::Invincible => "Invincible"@,
    }
}

/// Every stacking effect counts five percent a stack: the Stun, Block and
/// AtkSpd texts show `5 * current_stacks` after the stacks, and Stun and
/// Block read alike but for their names.
pub proof fn stacks_count_five_percent(d: StackData)
    ensures
        buff_text(BuffEffect::Stun(d)) == "Stun "@ + decimal(d.current_stacks as nat) + "/"@
            + decimal(d.max_stacks as nat) + " ("@ + decimal((5 * d.current_stacks) as nat)
            + "% chance)"@,
        buff_text(BuffEffect::Block(d)) == "Block "@ + decimal(d.current_stacks as nat) + "/"@
            + decimal(d.max_stacks as nat) + " ("@ + decimal((5 * d.current_stacks) as nat)
            + "% chance)"@,
        buff_text(BuffEffect::AttackSpeed(d)) == "AtkSpd "@ + decimal(d.current_stacks as nat)
            + "/"@ + decimal(d.max_stacks as nat) + " ("@ + decimal((5 * d.current_stacks) as nat)
            + "% faster)"@,
        buff_text(BuffEffect::Stun(d)).skip(5) == buff_text(BuffEffect::Block(d)).skip(6),
{
    reveal_strlit("Stun ");
    reveal_strlit("Block ");
    let rest = decimal(d.current_stacks as nat) + "/"@ + decimal(d.max_stacks as nat) + " ("@
        + decimal((5 * d.current_stacks) as nat) + "% chance)"@;
    assert(buff_text(BuffEffect::Stun(d)) =~= "Stun "@ + rest);
    assert(buff_text(BuffEffect::Block(d)) =~= "Block "@ + rest);
    assert(("Stun "@ + rest).skip(5) =~= rest);
    assert(("Block "@ + rest).skip(6) =~= rest);
}

/// The effects' texts joined by " | ".
pub open spec fn joined_buffs(s: Seq<BuffEffect>) -> Seq<char>
    decreases s.len(),
{
    if s.len() == 0 {
        Seq::empty()
    } else if s.len() == 1 {
        buff_text(s[0])
    } else {
        joined_buffs(s.drop_last()) + " | "@ + buff_text(s.last())
    }
}

/// The buffs line: empty without effects, else "Buffs: " and the effects.
pub open spec fn buffs_line(s: Seq<BuffEffect>) -> Seq<char> {
    if s.len() == 0 { Seq::empty() } else { "Buffs: "@ + joined_buffs(s) }
}

fn push_stacks(s: &mut String, name: &str, d: StackData, tail: &str)
    requires
        d.current_stacks * 5 <= 0x100_0000,
    ensures
        final(s)@ == old(s)@ + name@ + decimal(d.current_stacks as nat) + "/"@ + decimal(
            d.max_stacks as nat,
        ) + " ("@ + decimal(stack_percent(d.current_stacks)) + tail@,
{
    s.append(name);
    push_decimal(s, d.current_stacks as u64);
    s.append("/");
    push_decimal(s, d.max_stacks as u64);
    s.append(" (");
    push_decimal(s, (d.current_stacks * 5) as u64);
    s.append(tail);
    proof {
        assert(final(s)@ =~= old(s)@ + name@ + decimal(d.current_stacks as nat) + "/"@ + decimal(
            d.max_stacks as nat,
        ) + " ("@ + decimal(stack_percent(d.current_stacks)) + tail@);
    }
}

/// Appends the text of one effect.
pub fn push_buff(s: &mut String, b: BuffEffect)
    requires
        buff_in_range(b),
    ensures
        final(s)@ == old(s)@ + buff_text(b),
{
    match b {
        BuffEffect::Poison(d) => {
            assert(d.stacks < 0x10000) by (nonlinear_arith)
                requires
                    d.stacks * (d.stacks + 1) <= u32::MAX,
            ;
            let total = d.stacks * (d.stacks + 1) / 2;
            proof {
                poison_total_closed_form(d.stacks as nat);
            }
            s.append("Poison x");
            push_decimal(s, d.stacks as u64);
            s.append(" (");
            push_decimal(s, total as u64);
            s.append(" total dmg, ");
            push_decimal(s, d.stacks as u64);
            s.append("\u{2192}1/sec)");
            proof {
                assert(final(s)@ =~= old(s)@ + buff_text(b));
            }
        },
        BuffEffect::Block(d) => push_stacks(s, "Block ", d, "% chance)"),
        BuffEffect::Stun(d) => push_stacks(s, "Stun ", d, "% chance)"),
        BuffEffect::AttackSpeed(d) => push_stacks(s, "AtkSpd ", d, "% faster)"),
        BuffEffect::Invincible => s.append("Invincible"),
    }
}

/// The buffs line of a unit's panel.
pub fn format_buffs(buffs: &Vec<BuffEffect>) -> (s: String)
    requires
        forall|i: int| 0 <= i < buffs@.len() ==> buff_in_range(#[trigger] buffs@[i]),
    ensures
        s@ == buffs_line(buffs@),
{
    let mut s = String::new();
    if buffs.len() == 0 {
        return s;
    }
    s.append("Buffs: ");
    let mut i: usize = 0;
    while i < buffs.len()
        invariant
            i <= buffs@.len(),
            buffs@.len() > 0,
            forall|k: int| 0 <= k < buffs@.len() ==> buff_in_range(#[trigger] buffs@[k]),
            s@ == "Buffs: "@ + joined_buffs(buffs@.take(i as int)),
        decreases buffs.len() - i,
    {
        let ghost before = s@;
        if i > 0 {
            s.append(" | ");
        }
        push_buff(&mut s, buffs[i]);
        proof {
            let t = buffs@.take(i as int + 1);
            assert(t.drop_last() =~= buffs@.take(i as int));
            assert(t.last() == buffs@[i as int]);
            if i == 0 {
                assert(joined_buffs(buffs@.take(0)) =~= Seq::<char>::empty());
            }
            assert(s@ =~= "Buffs: "@ + joined_buffs(t));
        }
        i = i + 1;
    }
    proof {
        assert(buffs@.take(buffs@.len() as int) =~= buffs@);
    }
    s
}

} // verus!
