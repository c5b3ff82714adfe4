use vstd::prelude::*;

verus! {

/// Auxiliary-vector terminator type.
pub const AT_NULL: u32 = 0;

/// Address of the loaded image's program-header table.
pub const AT_PHDR: u32 = 3;

/// Base load address of the interpreter (zero for a non-relocated image).
pub const AT_BASE: u32 = 7;

/// Entry point of the loaded image.
pub const AT_ENTRY: u32 = 9;

/// Pointer to the executable's filename string.
pub const AT_EXECFN: u32 = 31;

/// One auxiliary-vector entry of a 32-bit process: a `(type, value)` pair.
/// The vector is terminated by an entry whose type is `AT_NULL`.
#[derive(Clone, Copy, PartialEq, Eq, Structural, Debug)]
pub struct Elf32AuxV {
    /// The entry's type tag (`AT_PHDR`, `AT_ENTRY`, ...).
    pub a_type: u32,
    /// The entry's value; its meaning depends on the type tag.
    pub a_val: u32,
}

/// The value an auxiliary-vector entry of type `t` and value `v` holds
/// after patching: the program-header address for `AT_PHDR`, zero for
/// `AT_BASE` (only non-relocated images are supported), the new entry
/// point for `AT_ENTRY`, zero for `AT_EXECFN` (the original filename
/// reference is no longer valid), and `v` unchanged for every other type.
pub open spec fn spec_patched_val(t: u32, v: u32, phdr_addr: u32, entry_point: u32) -> u32 {
    if t == AT_PHDR {
        phdr_addr
    } else if t == AT_BASE {
        0u32
    } else if t == AT_ENTRY {
        entry_point
    } else if t == AT_EXECFN {
        0u32
    } else {
        v
    }
}

/// Index of the first `AT_NULL` entry of `s`, or `s.len()` if there is none.
pub open spec fn spec_null_pos(s: Seq<Elf32AuxV>) -> int
    decreases s.len(),
{
    if s.len() == 0 {
        0
    } else if s[0].a_type == AT_NULL {
        0
    } else {
        1 + spec_null_pos(s.subrange(1, s.len() as int))
    }
}

/// `spec_null_pos` is exactly the first index whose entry is the
/// terminator: every entry before it is a non-terminator, and the entry at
/// it (when it lies inside `s`) is the terminator.
pub proof fn lemma_null_pos(s: Seq<Elf32AuxV>)
    ensures
        0 <= spec_null_pos(s) <= s.len(),
        forall|i: int| 0 <= i < spec_null_pos(s) ==> (#[trigger] s[i]).a_type != AT_NULL,
        spec_null_pos(s) < s.len() ==> s[spec_null_pos(s)].a_type == AT_NULL,
    decreases s.len(),
{
    if s.len() > 0 && s[0].a_type != AT_NULL {
        let t = s.subrange(1, s.len() as int);
        lemma_null_pos(t);
        assert forall|i: int| 0 <= i < spec_null_pos(s) implies (#[trigger] s[i]).a_type
            != AT_NULL by {
            if i > 0 {
                assert(t[i - 1] == s[i]);
            }
        }
        if spec_null_pos(s) < s.len() {
            assert(t[spec_null_pos(s) - 1] == s[spec_null_pos(s)]);
        }
    }
}

/// A sequence whose entries up to `k` are non-terminators, and whose entry
/// at `k` (when inside `s`) is the terminator, has its first terminator
/// exactly at `k`.
proof fn lemma_null_pos_is(s: Seq<Elf32AuxV>, k: int)
    requires
        0 <= k <= s.len(),
        forall|i: int| 0 <= i < k ==> (#[trigger] s[i]).a_type != AT_NULL,
        k < s.len() ==> s[k].a_type == AT_NULL,
    ensures
        spec_null_pos(s) == k,
    decreases s.len(),
{
    if k > 0 {
        let t = s.subrange(1, s.len() as int);
        assert forall|i: int| 0 <= i < k - 1 implies (#[trigger] t[i]).a_type != AT_NULL by {
            assert(t[i] == s[i + 1]);
        }
        lemma_null_pos_is(t, k - 1);
    }
}

/// The entry `e` rewritten for the freshly loaded image, per
/// `spec_patched_val`. The type tag is never changed.
fn patch_entry(e: Elf32AuxV, phdr_addr: u32, entry_point: u32) -> (r: Elf32AuxV)
    ensures
        r.a_type == e.a_type,
        r.a_val == spec_patched_val(e.a_type, e.a_val, phdr_addr, entry_point),
{
    let a_val = if e.a_type == AT_PHDR {
        phdr_addr
    } else if e.a_type == AT_BASE {
        0
    } else if e.a_type == AT_ENTRY {
        entry_point
    } else if e.a_type == AT_EXECFN {
        0
    } else {
        e.a_val
    };
    Elf32AuxV { a_type: e.a_type, a_val }
}

/// Rewrites the auxiliary vector in place so that it describes the freshly
/// loaded image: every entry before the first `AT_NULL` terminator has its
/// value replaced per `spec_patched_val` (its type tag kept), and the
/// terminator and everything after it — and so the vector's length — are
/// left untouched. Entries are patched up to the buffer's end when no
/// terminator is present, rather than reading past it.
pub fn patch_auxv(entries: &mut Vec<Elf32AuxV>, phdr_addr: u32, entry_point: u32)
    ensures
        final(entries)@.len() == old(entries)@.len(),
        forall|i: int|
            0 <= i < spec_null_pos(old(entries)@) ==> #[trigger] final(entries)@[i]
                == (Elf32AuxV {
                a_type: old(entries)@[i].a_type,
                a_val: spec_patched_val(
                    old(entries)@[i].a_type,
                    old(entries)@[i].a_val,
                    phdr_addr,
                    entry_point,
                ),
            }),
        forall|i: int|
            spec_null_pos(old(entries)@) <= i < old(entries)@.len()
                ==> #[trigger] final(entries)@[i] == old(entries)@[i],
{
    let ghost orig = entries@;
    let n = entries.len();
    let mut i: usize = 0;
    while i < n && entries[i].a_type != AT_NULL
        invariant
            i <= n == entries@.len() == orig.len(),
            forall|k: int| 0 <= k < i ==> (#[trigger] orig[k]).a_type != AT_NULL,
            forall|k: int|
                0 <= k < i ==> #[trigger] entries@[k] == (Elf32AuxV {
                    a_type: orig[k].a_type,
                    a_val: spec_patched_val(
                        orig[k].a_type,
                        orig[k].a_val,
                        phdr_addr,
                        entry_point,
                    ),
                }),
            forall|k: int| i <= k < orig.len() ==> #[trigger] entries@[k] == orig[k],
        decreases n - i,
    {
        let e = entries[i];
        entries[i] = patch_entry(e, phdr_addr, entry_point);
        i += 1;
    }
    proof {
        lemma_null_pos_is(orig, i as int);
    }
}

/// Index of the first auxiliary-vector entry within the word-for-word view
/// `words` of the argument block, found by advancing from `env_start` (the
/// start of the environment-pointer table) past every non-null pointer and
/// then past the terminating null: `Some(j)` exactly when a null word
/// exists at or after `env_start`, with `j` just past the first one; `None`
/// when the block's view ends before any terminator (left to the caller,
/// rather than scanning past the block).
pub fn locate_auxv(words: &Vec<usize>, env_start: usize) -> (r: Option<usize>)
    requires
        env_start <= words@.len(),
    ensures
        match r {
            Some(j) => {
                &&& env_start < j <= words@.len()
                &&& words@[j - 1] == 0
                &&& forall|i: int| env_start <= i < j - 1 ==> words@[i] != 0
            },
            None => forall|i: int| env_start <= i < words@.len() ==> words@[i] != 0,
        },
{
    let n = words.len();
    let mut i: usize = env_start;
    while i < n
        invariant
            env_start <= i <= n == words@.len(),
            forall|k: int| env_start <= k < i ==> words@[k] != 0,
        decreases n - i,
    {
        if words[i] == 0 {
            return Some(i + 1);
        }
        i += 1;
    }
    None
}

/// Index of the slot holding the host process's original argument count,
/// recovered by walking backward from the environment-pointer table by
/// `arg_count + 2` slots. This assumes the standard process-start layout
/// (`argc`, `arg_count` argument pointers, a null, then the environment
/// pointers) with nothing placed in between; any other layout is outside
/// this loader's contract. `None` exactly when the walk would step before
/// the front of the block.
pub fn locate_argc_slot(env_start: usize, arg_count: usize) -> (r: Option<usize>)
    ensures
        match r {
            Some(s) => arg_count + 2 <= env_start && s == env_start - (arg_count + 2),
            None => env_start < arg_count + 2,
        },
{
    if arg_count <= env_start && env_start - arg_count >= 2 {
        Some(env_start - arg_count - 2)
    } else {
        None
    }
}

/// Rewrites the argument block (as the word-for-word view `words`) so the
/// loaded program starts as if invoked directly: the slot after the
/// original argument-count slot becomes the new argument-count slot,
/// holding `arg_count - 1` (the loader's own name is dropped), and the slot
/// after that receives the pointer that followed the original count. Every
/// other word is untouched. Returns the index of the new argument-count
/// slot: the word the new program's stack pointer must be aimed at.
pub fn patch_arg_block(words: &mut Vec<usize>, argc_slot: usize, arg_count: usize) -> (sp: usize)
    requires
        argc_slot + 2 < old(words)@.len(),
        arg_count >= 1,
    ensures
        sp == argc_slot + 1,
        final(words)@.len() == old(words)@.len(),
        final(words)@[argc_slot + 1] == arg_count - 1,
        final(words)@[argc_slot + 2] == old(words)@[argc_slot + 1],
        forall|i: int|
            0 <= i < old(words)@.len() && i != argc_slot + 1 && i != argc_slot + 2
                ==> final(words)@[i] == old(words)@[i],
{
    let n = words.len();
    assert(argc_slot + 2 < n);
    let shifted = words[argc_slot + 1];
    words[argc_slot + 2] = shifted;
    words[argc_slot + 1] = arg_count - 1;
    argc_slot + 1
}

} // verus!
