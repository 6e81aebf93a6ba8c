//! Spotting the game's integrity-check thread: it starts with a `jmp` into the
//! protected `.UBX0` section.

use vstd::prelude::*;
use vstd::string::StringExecFns;
use crate::framework::hook::{installs_anywhere, uninstalls_anywhere, Hook, Trampoline};
use crate::framework::memory::le_i32_value;
use crate::framework::platform::{own_threads, Thread};
use crate::framework::utils::{
    eq_lowercase, i8_value, lemma_jmp_call_any_case, lowercase_is, spells_jmp, twos_complement32, Inst,
};

pub use crate::framework::platform::find_section_address_range;

verus! {

/// The value of `x` as a 64-bit two's-complement number.
pub open spec fn as_i64(x: usize) -> int {
    if x <= i64::MAX {
        x as int
    } else {
        x - 0x1_0000_0000_0000_0000
    }
}

/// The target of a `jmp rel32` or `jmp rel8` at `address` of bytes `b`, computed
/// on 64-bit signed addresses: `None` for other instructions, or if the target
/// leaves the 64-bit signed range or is not an address.
pub open spec fn jump_target(address: usize, b: Seq<u8>) -> Option<usize> {
    let next = as_i64(address) + b.len();
    let d = if b.len() == 5 && b[0] == 0xE9 {
        Some(le_i32_value(b.subrange(1, 5)))
    } else if b.len() == 2 && b[0] == 0xEB {
        Some(i8_value(b[1]))
    } else {
        None
    };
    match d {
        Some(d) => {
            let t = next + d;
            if i64::MIN <= t <= i64::MAX && 0 <= t <= usize::MAX {
                Some(t as usize)
            } else {
                None
            }
        },
        None => None,
    }
}

/// The jump target of a `jmp` instruction (see `jump_target`).
pub fn jump_target_address(inst: &Inst) -> (r: Option<usize>)
    requires
        as_i64(inst.address) + inst.bytes@.len() <= i64::MAX,
    ensures
        r == jump_target(inst.address, inst.bytes@),
{
    let a: i128 = if inst.address as u128 <= 0x7FFF_FFFF_FFFF_FFFF {
        inst.address as i128
    } else {
        inst.address as i128 - 0x1_0000_0000_0000_0000
    };
    let next_address: i64 = (a + inst.bytes.len() as i128) as i64;
    let b = &inst.bytes;
    let displacement: i64 = if b.len() == 5 && b[0] == 0xE9 {
        let u: i64 = b[1] as i64 + 256 * b[2] as i64 + 65536 * b[3] as i64 + 16777216 * b[4] as i64;
        proof {
            assert(b@.subrange(1, 5) =~= seq![b[1], b[2], b[3], b[4]]);
            crate::framework::memory::lemma_le_value4(b@.subrange(1, 5));
        }
        if u >= 0x8000_0000 {
            u - 0x1_0000_0000
        } else {
            u
        }
    } else if b.len() == 2 && b[0] == 0xEB {
        let d = b[1];
        if d >= 0x80 {
            d as i64 - 0x100
        } else {
            d as i64
        }
    } else {
        return None;
    };
    let target = match next_address.checked_add(displacement) {
        Some(t) => t,
        None => return None,
    };
    if target < 0 || target as u128 > usize::MAX as u128 {
        return None;
    }
    Some(target as usize)
}

/// The verdict on a thread whose first instruction is `inst`, given the bounds of
/// the protected section (both inclusive): `false` unless it is a `jmp`; for a
/// `jmp`, whether its target lies within the bounds, or `None` if it has none.
pub open spec fn thread_verdict(section: (usize, usize), inst: Inst) -> Option<bool> {
    if !lowercase_is(inst.mnemonic@, "jmp"@) {
        Some(false)
    } else {
        match jump_target(inst.address, inst.bytes@) {
            Some(t) => Some(section.0 <= t <= section.1),
            None => None,
        }
    }
}

/// A jump at an address in the lower half of the address space lands at its
/// end plus its signed displacement: for `jmp rel32` (`E9` and four bytes) the
/// two's-complement value of the four bytes, for `jmp rel8` (`EB` and one byte)
/// that of the byte; there is a target when that sum is a non-negative 64-bit
/// value and an address. Other instructions have none.
pub proof fn lemma_jump_target_signed(address: usize, b: Seq<u8>)
    requires
        address <= i64::MAX,
    ensures
        ({
            let t = address + 5 + twos_complement32(b[1], b[2], b[3], b[4]);
            b.len() == 5 && b[0] == 0xE9 ==> jump_target(address, b) == (if 0 <= t <= i64::MAX
                && t <= usize::MAX {
                Some(t as usize)
            } else {
                None
            })
        }),
        ({
            let t = address + 2 + (if b[1] < 0x80 {
                b[1] as int
            } else {
                b[1] - 0x100
            });
            b.len() == 2 && b[0] == 0xEB ==> jump_target(address, b) == (if 0 <= t <= i64::MAX
                && t <= usize::MAX {
                Some(t as usize)
            } else {
                None
            })
        }),
        !(b.len() == 5 && b[0] == 0xE9) && !(b.len() == 2 && b[0] == 0xEB) ==> jump_target(
            address,
            b,
        ) is None,
{
    if b.len() == 5 {
        crate::framework::memory::lemma_le_value4(b.subrange(1, 5));
    }
}

/// A thread whose first instruction is a `jmp` (in any case) with a 32-bit
/// displacement, at an address in the lower half of the address space, is the
/// integrity thread exactly when the jump's target, its end plus the signed
/// displacement, lies within the bounds of the protected section.
pub proof fn lemma_jmp_into_section(section: (usize, usize), inst: Inst)
    requires
        inst.address <= i64::MAX,
    ensures
        ({
            let b = inst.bytes@;
            let t = inst.address + 5 + twos_complement32(b[1], b[2], b[3], b[4]);
            spells_jmp(inst.mnemonic@) && b.len() == 5 && b[0] == 0xE9 && 0 <= t <= i64::MAX && t
                <= usize::MAX ==> thread_verdict(section, inst) == Some(section.0 <= t <= section.1)
        }),
        inst.mnemonic@.len() != 3 ==> thread_verdict(section, inst) == Some(false),
{
    lemma_jmp_call_any_case(inst.mnemonic@);
    lemma_jump_target_signed(inst.address, inst.bytes@);
}

/// Whether the thread whose first instruction is `inst` (`None` if it could not
/// be decoded) is the integrity thread, given the bounds of the protected section
/// (`None` if it was not found); `None` when that cannot be told.
pub fn analyze_thread_start(section: Option<(usize, usize)>, inst: Option<Inst>) -> (r: Option<bool>)
    requires
        inst matches Some(i) ==> as_i64(i.address) + i.bytes@.len() <= i64::MAX,
    ensures
        r == match (section, inst) {
            (Some(s), Some(i)) => thread_verdict(s, i),
            _ => None,
        },
{
    let section_range = match section {
        Some(s) => s,
        None => return None,
    };
    let inst = match inst {
        Some(i) => i,
        None => return None,
    };
    if !eq_lowercase(inst.mnemonic.as_str(), "jmp") {
        return Some(false);
    }
    let target_addr = match jump_target_address(&inst) {
        Some(t) => t,
        None => return None,
    };
    Some(target_addr >= section_range.0 && target_addr <= section_range.1)
}

/// Checks every thread of process `process_id` among `threads`, in order, with
/// `check_thread`, which terminates the thread if it is the integrity thread and
/// tells whether it did; gives each checked thread with its outcome.
pub fn terminate_integrity_checks<C>(process_id: u32, threads: &[Thread], check_thread: &C) -> (r: Vec<
    (u32, Result<bool, String>),
>) where C: Fn(u32) -> Result<bool, String>
    requires
        forall|tid: u32| #[trigger] check_thread.requires((tid,)),
    ensures
        r@.len() == own_threads(threads@, process_id).len(),
        forall|k: int|
            0 <= k < r@.len() ==> #[trigger] r@[k].0 == own_threads(threads@, process_id)[k]
                && check_thread.ensures((r@[k].0,), r@[k].1),
{
    let mut checked: Vec<(u32, Result<bool, String>)> = Vec::new();
    let n = threads.len();
    let mut i: usize = 0;
    while i < n
        invariant
            n == threads@.len(),
            i <= n,
            forall|tid: u32| #[trigger] check_thread.requires((tid,)),
            checked@.len() == own_threads(threads@.subrange(0, i as int), process_id).len(),
            forall|k: int|
                0 <= k < checked@.len() ==> #[trigger] checked@[k].0 == own_threads(
                    threads@.subrange(0, i as int),
                    process_id,
                )[k] && check_thread.ensures((checked@[k].0,), checked@[k].1),
        decreases n - i,
    {
        let ghost prefix = threads@.subrange(0, i as int);
        let ghost next = threads@.subrange(0, i + 1);
        assert(next.drop_last() =~= prefix);
        if threads[i].owner_pid == process_id {
            let tid = threads[i].tid;
            let outcome = check_thread(tid);
            checked.push((tid, outcome));
        }
        i += 1;
    }
    assert(threads@.subrange(0, n as int) =~= threads@);
    checked
}

/// The hook on `CreateThread` that keeps new integrity threads from starting.
pub struct IntegrityHook {
    hook: Hook,
}

impl IntegrityHook {
    /// The hook.
    pub closed spec fn hook(&self) -> Hook {
        self.hook
    }

    /// The hook on the `CreateThread` function at `create_thread_address`, not
    /// installed.
    pub fn new(create_thread_address: usize) -> (r: Self)
        ensures
            r.hook().target() == create_thread_address,
            r.hook().installed() is None,
    {
        IntegrityHook { hook: Hook::new(create_thread_address) }
    }

    /// The trampoline of the installed hook, which runs the original
    /// `CreateThread`.
    pub fn trampoline(&self) -> (r: Option<Trampoline>)
        ensures
            r == self.hook().installed(),
    {
        self.hook.trampoline()
    }

    /// Installs the hook with `install`, also when it is installed already;
    /// fails with `failed to hook CreateThread` if `install` does, leaving the
    /// hook as it was.
    pub fn apply<I: Fn(usize) -> Option<Trampoline>>(&mut self, install: &I) -> (r: Result<(), String>)
        requires
            installs_anywhere(install),
        ensures
            final(self).hook().target() == old(self).hook().target(),
            r is Ok ==> exists|t: Trampoline|
                install.ensures((old(self).hook().target(),), Some(t))
                    && final(self).hook().installed() == Some(t),
            r is Err ==> install.ensures((old(self).hook().target(),), None::<Trampoline>)
                && final(self).hook().installed() == old(self).hook().installed()
                && r->Err_0@ == "failed to hook CreateThread"@,
    {
        if self.hook.install(install) {
            Ok(())
        } else {
            Err(String::from_str("failed to hook CreateThread"))
        }
    }

    /// Removes the hook with `uninstall`, if it is installed, and forgets it;
    /// what `uninstall` answers is not checked.
    pub fn cleanup<U: Fn(usize, Trampoline) -> Option<()>>(&mut self, uninstall: &U) -> (r: Result<
        (),
        String,
    >)
        requires
            uninstalls_anywhere(uninstall),
        ensures
            r is Ok,
            final(self).hook().target() == old(self).hook().target(),
            final(self).hook().installed() is None,
            old(self).hook().installed() matches Some(t) ==> exists|answer: Option<()>|
                uninstall.ensures((old(self).hook().target(), t), answer),
    {
        let _ = self.hook.uninstall(uninstall);
        Ok(())
    }
}

} // verus!
