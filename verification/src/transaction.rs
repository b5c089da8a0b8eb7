use vstd::prelude::*;
use vstd::bytes::spec_u64_to_le_bytes;
use vstd::bytes::spec_u64_from_le_bytes;
use vstd::bytes::u64_to_le_bytes;
use vstd::bytes::lemma_auto_spec_u64_to_from_le_bytes;
use crate::errors::BundlerError;
use crate::errors::BundlerResult;
use crate::types::Instruction;
use crate::types::Pubkey;

verus! {

/// An instruction compiled against a message's account table: indices into
/// `account_keys` instead of full addresses.
#[derive(Debug, Clone)]
pub struct CompiledInstruction {
    pub program_id_index: u8,
    pub accounts: Vec<u8>,
    pub data: Vec<u8>,
}

/// The signer and read-only counts of a message.
#[derive(Debug, Clone)]
pub struct MessageHeader {
    pub num_required_signatures: u8,
    pub num_readonly_signed_accounts: u8,
    pub num_readonly_unsigned_accounts: u8,
}

/// A legacy message: header, account table, blockhash, instructions.
#[derive(Debug, Clone)]
pub struct Message {
    pub header: MessageHeader,
    pub account_keys: Vec<Pubkey>,
    /// The base58 form of the recent blockhash; empty until one is fetched.
    pub recent_blockhash: String,
    pub instructions: Vec<CompiledInstruction>,
}

/// A transaction: one signature slot per required signer, and the message.
#[derive(Debug, Clone)]
pub struct Transaction {
    /// One entry per required signer; an empty vector is an unsigned slot,
    /// a filled one holds 64 signature bytes.
    pub signatures: Vec<Vec<u8>>,
    pub message: Message,
}

/// Whether some instruction marks `key` as a signer, or it is the fee
/// payer.
pub open spec fn spec_is_signer_key(instrs: Seq<Instruction>, fee_payer: Seq<u8>, key: Seq<u8>) -> bool {
    ||| key == fee_payer
    ||| exists|i: int, j: int|
        0 <= i < instrs.len() && 0 <= j < instrs[i].accounts@.len()
            && (#[trigger] instrs[i].accounts@[j]).pubkey.bytes@ == key && instrs[i].accounts@[j].is_signer
}

/// Whether some instruction marks `key` writable, or it is the fee payer.
pub open spec fn spec_is_writable_key(instrs: Seq<Instruction>, fee_payer: Seq<u8>, key: Seq<u8>) -> bool {
    ||| key == fee_payer
    ||| exists|i: int, j: int|
        0 <= i < instrs.len() && 0 <= j < instrs[i].accounts@.len()
            && (#[trigger] instrs[i].accounts@[j]).pubkey.bytes@ == key && instrs[i].accounts@[j].is_writable
}

/// Whether `key` stands in `keys`.
pub open spec fn spec_contains_key(keys: Seq<Pubkey>, key: Seq<u8>) -> bool {
    exists|i: int| 0 <= i < keys.len() && (#[trigger] keys[i]).bytes@ == key
}

/// Whether the keys are pairwise distinct.
pub open spec fn spec_keys_unique(keys: Seq<Pubkey>) -> bool {
    forall|i: int, j: int|
        0 <= i < j < keys.len() ==> (#[trigger] keys[i]).bytes@ != (#[trigger] keys[j]).bytes@
}

/// Whether a message over these instructions needs `key` in its account
/// table: the fee payer, a referenced account, or a called program.
pub open spec fn spec_key_referenced(instrs: Seq<Instruction>, fee_payer: Seq<u8>, key: Seq<u8>) -> bool {
    ||| key == fee_payer
    ||| exists|i: int, j: int|
        0 <= i < instrs.len() && 0 <= j < instrs[i].accounts@.len()
            && (#[trigger] instrs[i].accounts@[j]).pubkey.bytes@ == key
    ||| exists|i: int| 0 <= i < instrs.len() && (#[trigger] instrs[i]).program_id.bytes@ == key
}

/// The set of keys a message over these instructions needs.
pub open spec fn spec_referenced_keys(instrs: Seq<Instruction>, fee_payer: Seq<u8>) -> Set<
    Seq<u8>,
> {
    Set::new(|k: Seq<u8>| spec_key_referenced(instrs, fee_payer, k))
}

/// Tests whether some instruction marks `key` as a signer or it is the fee
/// payer.
fn key_is_signer(instrs: &Vec<Instruction>, fee_payer: &Pubkey, key: &Pubkey) -> (r: bool)
    ensures
        r == spec_is_signer_key(instrs@, fee_payer.bytes@, key.bytes@),
{
    if key == fee_payer {
        return true;
    }
    let n = instrs.len();
    let mut i: usize = 0;
    while i < n
        invariant
            n == instrs@.len(),
            i <= n,
            key.bytes@ != fee_payer.bytes@,
            forall|a: int, b: int|
                0 <= a < i && 0 <= b < instrs@[a].accounts@.len() ==> !((
                #[trigger] instrs@[a].accounts@[b]).pubkey.bytes@ == key.bytes@
                    && instrs@[a].accounts@[b].is_signer),
        decreases n - i,
    {
        let m = instrs[i].accounts.len();
        let mut j: usize = 0;
        while j < m
            invariant
                n == instrs@.len(),
                i < n,
                m == instrs@[i as int].accounts@.len(),
                j <= m,
                forall|b: int|
                    0 <= b < j ==> !((#[trigger] instrs@[i as int].accounts@[b]).pubkey.bytes@
                        == key.bytes@ && instrs@[i as int].accounts@[b].is_signer),
            decreases m - j,
        {
            if instrs[i].accounts[j].is_signer && &instrs[i].accounts[j].pubkey == key {
                return true;
            }
            j = j + 1;
        }
        i = i + 1;
    }
    false
}

/// Tests whether some instruction marks `key` writable or it is the fee
/// payer.
fn key_is_writable(instrs: &Vec<Instruction>, fee_payer: &Pubkey, key: &Pubkey) -> (r: bool)
    ensures
        r == spec_is_writable_key(instrs@, fee_payer.bytes@, key.bytes@),
{
    if key == fee_payer {
        return true;
    }
    let n = instrs.len();
    let mut i: usize = 0;
    while i < n
        invariant
            n == instrs@.len(),
            i <= n,
            key.bytes@ != fee_payer.bytes@,
            forall|a: int, b: int|
                0 <= a < i && 0 <= b < instrs@[a].accounts@.len() ==> !((
                #[trigger] instrs@[a].accounts@[b]).pubkey.bytes@ == key.bytes@
                    && instrs@[a].accounts@[b].is_writable),
        decreases n - i,
    {
        let m = instrs[i].accounts.len();
        let mut j: usize = 0;
        while j < m
            invariant
                n == instrs@.len(),
                i < n,
                m == instrs@[i as int].accounts@.len(),
                j <= m,
                forall|b: int|
                    0 <= b < j ==> !((#[trigger] instrs@[i as int].accounts@[b]).pubkey.bytes@
                        == key.bytes@ && instrs@[i as int].accounts@[b].is_writable),
            decreases m - j,
    {
            if instrs[i].accounts[j].is_writable && &instrs[i].accounts[j].pubkey == key {
                return true;
            }
            j = j + 1;
        }
        i = i + 1;
    }
    false
}

/// Tests whether `key` stands in `keys`.
pub fn contains_key(keys: &Vec<Pubkey>, key: &Pubkey) -> (r: bool)
    ensures
        r == spec_contains_key(keys@, key.bytes@),
{
    let n = keys.len();
    let mut i: usize = 0;
    while i < n
        invariant
            n == keys@.len(),
            i <= n,
            forall|j: int| 0 <= j < i ==> (#[trigger] keys@[j]).bytes@ != key.bytes@,
        decreases n - i,
    {
        if &keys[i] == key {
            return true;
        }
        i = i + 1;
    }
    false
}

/// The position of `key` in `keys`; the key must be present.
pub fn key_index(keys: &Vec<Pubkey>, key: &Pubkey) -> (r: usize)
    requires
        spec_contains_key(keys@, key.bytes@),
    ensures
        r < keys@.len(),
        keys@[r as int].bytes@ == key.bytes@,
{
    let n = keys.len();
    let mut i: usize = 0;
    while i < n
        invariant
            n == keys@.len(),
            i <= n,
            spec_contains_key(keys@, key.bytes@),
            forall|j: int| 0 <= j < i ==> (#[trigger] keys@[j]).bytes@ != key.bytes@,
        decreases n - i,
    {
        if &keys[i] == key {
            return i;
        }
        i = i + 1;
    }
    proof {
        assert(false);
    }
    0
}

/// The candidate keys of a message: the fee payer, every account an
/// instruction references, and every program an instruction calls.
fn collect_keys(instrs: &Vec<Instruction>, fee_payer: &Pubkey) -> (r: Vec<Pubkey>)
    ensures
        r@.len() > 0,
        r@[0].bytes@ == fee_payer.bytes@,
        spec_keys_unique(r@),
        forall|t: int|
            0 <= t < r@.len() ==> spec_key_referenced(
                instrs@,
                fee_payer.bytes@,
                (#[trigger] r@[t]).bytes@,
            ),
        forall|i: int, j: int|
            0 <= i < instrs@.len() && 0 <= j < instrs@[i].accounts@.len() ==> spec_contains_key(
                r@,
                (#[trigger] instrs@[i].accounts@[j]).pubkey.bytes@,
            ),
        forall|i: int|
            0 <= i < instrs@.len() ==> spec_contains_key(
                r@,
                (#[trigger] instrs@[i]).program_id.bytes@,
            ),
{
    let mut out: Vec<Pubkey> = Vec::new();
    out.push(Pubkey { bytes: fee_payer.bytes.clone() });
    let n = instrs.len();
    let mut i: usize = 0;
    while i < n
        invariant
            n == instrs@.len(),
            i <= n,
            out@.len() > 0,
            out@[0].bytes@ == fee_payer.bytes@,
            spec_keys_unique(out@),
            forall|t: int|
                0 <= t < out@.len() ==> spec_key_referenced(
                    instrs@,
                    fee_payer.bytes@,
                    (#[trigger] out@[t]).bytes@,
                ),
            forall|a: int, b: int|
                0 <= a < i && 0 <= b < instrs@[a].accounts@.len() ==> spec_contains_key(
                    out@,
                    (#[trigger] instrs@[a].accounts@[b]).pubkey.bytes@,
                ),
        decreases n - i,
    {
        let m = instrs[i].accounts.len();
        let mut j: usize = 0;
        while j < m
            invariant
                n == instrs@.len(),
                i < n,
                m == instrs@[i as int].accounts@.len(),
                j <= m,
                out@.len() > 0,
                out@[0].bytes@ == fee_payer.bytes@,
                spec_keys_unique(out@),
                forall|t: int|
                    0 <= t < out@.len() ==> spec_key_referenced(
                        instrs@,
                        fee_payer.bytes@,
                        (#[trigger] out@[t]).bytes@,
                    ),
                forall|a: int, b: int|
                    0 <= a < i && 0 <= b < instrs@[a].accounts@.len() ==> spec_contains_key(
                        out@,
                        (#[trigger] instrs@[a].accounts@[b]).pubkey.bytes@,
                    ),
                forall|b: int|
                    0 <= b < j ==> spec_contains_key(
                        out@,
                        (#[trigger] instrs@[i as int].accounts@[b]).pubkey.bytes@,
                    ),
            decreases m - j,
        {
            let ghost out0 = out@;
            if !contains_key(&out, &instrs[i].accounts[j].pubkey) {
                out.push(Pubkey { bytes: instrs[i].accounts[j].pubkey.bytes.clone() });
                proof {
                    assert forall|a: int, b: int|
                        0 <= a < out@.len() && 0 <= b < out@.len() && a < b implies (
                    #[trigger] out@[a]).bytes@ != (#[trigger] out@[b]).bytes@ by {
                        if b < out@.len() - 1 {
                            assert(out0[a].bytes@ != out0[b].bytes@);
                        } else {
                            assert(!spec_contains_key(out0, out@[b].bytes@));
                        }
                    }
                    assert forall|k: Seq<u8>| spec_contains_key(out0, k) implies spec_contains_key(
                        out@,
                        k,
                    ) by {
                        let w = choose|w: int| 0 <= w < out0.len() && out0[w].bytes@ == k;
                        assert(out@[w].bytes@ == k);
                    }
                }
                proof {
                    let ghost jj = j as int;
                    assert(out@[out@.len() - 1].bytes@ == instrs@[i as int].accounts@[jj].pubkey.bytes@);
                    assert(spec_key_referenced(
                        instrs@,
                        fee_payer.bytes@,
                        out@[out@.len() - 1].bytes@,
                    ));
                }
            }
            proof {
                assert(spec_contains_key(out@, instrs@[i as int].accounts@[j as int].pubkey.bytes@));
            }
            j = j + 1;
        }
        i = i + 1;
    }
    let mut i: usize = 0;
    while i < n
        invariant
            n == instrs@.len(),
            i <= n,
            out@.len() > 0,
            out@[0].bytes@ == fee_payer.bytes@,
            spec_keys_unique(out@),
            forall|t: int|
                0 <= t < out@.len() ==> spec_key_referenced(
                    instrs@,
                    fee_payer.bytes@,
                    (#[trigger] out@[t]).bytes@,
                ),
            forall|a: int, b: int|
                0 <= a < n && 0 <= b < instrs@[a].accounts@.len() ==> spec_contains_key(
                    out@,
                    (#[trigger] instrs@[a].accounts@[b]).pubkey.bytes@,
                ),
            forall|a: int|
                0 <= a < i ==> spec_contains_key(out@, (#[trigger] instrs@[a]).program_id.bytes@),
        decreases n - i,
    {
        let ghost out0 = out@;
        if !contains_key(&out, &instrs[i].program_id) {
            out.push(Pubkey { bytes: instrs[i].program_id.bytes.clone() });
            proof {
                assert forall|a: int, b: int|
                    0 <= a < out@.len() && 0 <= b < out@.len() && a < b implies (
                #[trigger] out@[a]).bytes@ != (#[trigger] out@[b]).bytes@ by {
                    if b < out@.len() - 1 {
                        assert(out0[a].bytes@ != out0[b].bytes@);
                    } else {
                        assert(!spec_contains_key(out0, out@[b].bytes@));
                    }
                }
                assert forall|k: Seq<u8>| spec_contains_key(out0, k) implies spec_contains_key(
                    out@,
                    k,
                ) by {
                    let w = choose|w: int| 0 <= w < out0.len() && out0[w].bytes@ == k;
                    assert(out@[w].bytes@ == k);
                }
            }
            proof {
                assert(out@[out@.len() - 1].bytes@ == instrs@[i as int].program_id.bytes@);
                assert(spec_key_referenced(
                    instrs@,
                    fee_payer.bytes@,
                    out@[out@.len() - 1].bytes@,
                ));
            }
        }
        proof {
            assert(spec_contains_key(out@, instrs@[i as int].program_id.bytes@));
        }
        i = i + 1;
    }
    out
}

} // verus!

verus! {

/// Pushing a key keeps every key that was already present.
proof fn lemma_push_preserves_contains(s: Seq<Pubkey>, x: Pubkey)
    ensures
        forall|k: Seq<u8>| spec_contains_key(s, k) ==> spec_contains_key(s.push(x), k),
{
    assert forall|k: Seq<u8>| spec_contains_key(s, k) implies spec_contains_key(s.push(x), k) by {
        let w = choose|w: int| 0 <= w < s.len() && s[w].bytes@ == k;
        assert(s.push(x)[w].bytes@ == k);
    }
}

/// Appends to `keys` every collected key whose signer and writability flags
/// equal `want_s` and `want_w` and which is not already present, in the
/// collected order.
fn category_pass(
    keys: &mut Vec<Pubkey>,
    collected: &Vec<Pubkey>,
    instrs: &Vec<Instruction>,
    fee_payer: &Pubkey,
    want_s: bool,
    want_w: bool,
)
    requires
        spec_keys_unique(old(keys)@),
    ensures
        spec_keys_unique(final(keys)@),
        final(keys)@.len() >= old(keys)@.len(),
        forall|t: int| 0 <= t < old(keys)@.len() ==> final(keys)@[t] == old(keys)@[t],
        forall|t: int|
            old(keys)@.len() <= t < final(keys)@.len() ==> spec_is_signer_key(
                instrs@,
                fee_payer.bytes@,
                (#[trigger] final(keys)@[t]).bytes@,
            ) == want_s && spec_is_writable_key(
                instrs@,
                fee_payer.bytes@,
                final(keys)@[t].bytes@,
            ) == want_w,
        forall|k: Seq<u8>| spec_contains_key(old(keys)@, k) ==> spec_contains_key(final(keys)@, k),
        forall|t: int|
            old(keys)@.len() <= t < final(keys)@.len() ==> spec_contains_key(
                collected@,
                (#[trigger] final(keys)@[t]).bytes@,
            ),
        forall|idx: int|
            0 <= idx < collected@.len() && spec_is_signer_key(
                instrs@,
                fee_payer.bytes@,
                (#[trigger] collected@[idx]).bytes@,
            ) == want_s && spec_is_writable_key(instrs@, fee_payer.bytes@, collected@[idx].bytes@)
                == want_w ==> spec_contains_key(final(keys)@, collected@[idx].bytes@),
{
    let ghost keys0 = keys@;
    let n = collected.len();
    let mut i: usize = 0;
    while i < n
        invariant
            n == collected@.len(),
            i <= n,
            spec_keys_unique(keys@),
            keys@.len() >= keys0.len(),
            forall|t: int| 0 <= t < keys0.len() ==> keys@[t] == keys0[t],
            forall|t: int|
                keys0.len() <= t < keys@.len() ==> spec_is_signer_key(
                    instrs@,
                    fee_payer.bytes@,
                    (#[trigger] keys@[t]).bytes@,
                ) == want_s && spec_is_writable_key(instrs@, fee_payer.bytes@, keys@[t].bytes@)
                    == want_w,
            forall|k: Seq<u8>| spec_contains_key(keys0, k) ==> spec_contains_key(keys@, k),
            forall|t: int|
                keys0.len() <= t < keys@.len() ==> spec_contains_key(
                    collected@,
                    (#[trigger] keys@[t]).bytes@,
                ),
            forall|idx: int|
                0 <= idx < i && spec_is_signer_key(
                    instrs@,
                    fee_payer.bytes@,
                    (#[trigger] collected@[idx]).bytes@,
                ) == want_s && spec_is_writable_key(instrs@, fee_payer.bytes@, collected@[idx].bytes@)
                    == want_w ==> spec_contains_key(keys@, collected@[idx].bytes@),
        decreases n - i,
    {
        let s = key_is_signer(instrs, fee_payer, &collected[i]);
        let w = key_is_writable(instrs, fee_payer, &collected[i]);
        if s == want_s && w == want_w && !contains_key(keys, &collected[i]) {
            let ghost before = keys@;
            keys.push(Pubkey { bytes: collected[i].bytes.clone() });
            proof {
                lemma_push_preserves_contains(before, keys@[keys@.len() - 1]);
                assert(keys@[keys@.len() - 1].bytes@ == collected@[i as int].bytes@);
                assert(spec_contains_key(collected@, keys@[keys@.len() - 1].bytes@));
                assert forall|a: int, b: int| 0 <= a < b < keys@.len() implies (
                #[trigger] keys@[a]).bytes@ != (#[trigger] keys@[b]).bytes@ by {
                    if b < keys@.len() - 1 {
                        assert(before[a].bytes@ != before[b].bytes@);
                    } else {
                        assert(!spec_contains_key(before, keys@[b].bytes@));
                        assert(keys@[a] == before[a]);
                    }
                }
            }
        }
        proof {
            if key_is_signer_holds(instrs@, fee_payer.bytes@, collected@[i as int].bytes@) == want_s
                && key_is_writable_holds(instrs@, fee_payer.bytes@, collected@[i as int].bytes@)
                == want_w {
                assert(spec_contains_key(keys@, collected@[i as int].bytes@));
            }
        }
        i = i + 1;
    }
}

/// Shorthand for the signer test in proofs.
pub open spec fn key_is_signer_holds(instrs: Seq<Instruction>, fp: Seq<u8>, k: Seq<u8>) -> bool {
    spec_is_signer_key(instrs, fp, k)
}

/// Shorthand for the writability test in proofs.
pub open spec fn key_is_writable_holds(instrs: Seq<Instruction>, fp: Seq<u8>, k: Seq<u8>) -> bool {
    spec_is_writable_key(instrs, fp, k)
}

} // verus!

verus! {

/// Whether every compiled instruction of `msg` maps back, entry for entry,
/// to the corresponding instruction of `instrs`.
pub open spec fn spec_message_maps(msg: Message, instrs: Seq<Instruction>) -> bool {
    &&& msg.instructions@.len() == instrs.len()
    &&& forall|i: int|
        0 <= i < instrs.len() ==> {
            let ci = #[trigger] msg.instructions@[i];
            &&& ci.data@ == instrs[i].data@
            &&& (ci.program_id_index as int) < msg.account_keys@.len()
            &&& msg.account_keys@[ci.program_id_index as int].bytes@ == instrs[i].program_id.bytes@
            &&& ci.accounts@.len() == instrs[i].accounts@.len()
            &&& forall|j: int|
                0 <= j < ci.accounts@.len() ==> ((#[trigger] ci.accounts@[j]) as int)
                    < msg.account_keys@.len() && msg.account_keys@[ci.accounts@[j] as int].bytes@
                    == instrs[i].accounts@[j].pubkey.bytes@
        }
}

/// A well-formed compiled message over its source instructions: the fee
/// payer leads a duplicate-free account table of at most 255 keys, exactly
/// the signer keys stand before the signature boundary, and every compiled
/// instruction maps back to its source.
pub open spec fn spec_message_wf(msg: Message, instrs: Seq<Instruction>, fee_payer: Seq<u8>) -> bool {
    &&& 1 <= msg.account_keys@.len() <= 255
    &&& msg.account_keys@[0].bytes@ == fee_payer
    &&& spec_keys_unique(msg.account_keys@)
    &&& 1 <= msg.header.num_required_signatures as int <= msg.account_keys@.len()
    &&& forall|t: int|
        0 <= t < msg.account_keys@.len() ==> (spec_is_signer_key(
            instrs,
            fee_payer,
            (#[trigger] msg.account_keys@[t]).bytes@,
        ) <==> t < msg.header.num_required_signatures as int)
    &&& spec_message_maps(msg, instrs)
}

/// Compiles instructions into a legacy message: the fee payer first, then
/// writable signers, read-only signers, writable non-signers, and read-only
/// non-signers, each key once; instructions become index form. Succeeds
/// exactly when at most 255 distinct keys are referenced; more fail with
/// `InvalidInput`.
pub fn compile_message(instrs: &Vec<Instruction>, fee_payer: &Pubkey) -> (r: BundlerResult<Message>)
    ensures
        r is Ok <==> spec_referenced_keys(instrs@, fee_payer.bytes@).len() <= 255,
        r matches Ok(msg) ==> spec_message_wf(msg, instrs@, fee_payer.bytes@)
            && msg.recent_blockhash@.len() == 0,
        r matches Err(e) ==> e is InvalidInput,
{
    let collected = collect_keys(instrs, fee_payer);
    let mut keys: Vec<Pubkey> = Vec::new();
    keys.push(Pubkey { bytes: fee_payer.bytes.clone() });
    let ghost gfp = fee_payer.bytes@;
    proof {
        assert(spec_keys_unique(keys@));
        assert(spec_is_signer_key(instrs@, gfp, keys@[0].bytes@));
        assert(spec_is_writable_key(instrs@, gfp, keys@[0].bytes@));
    }
    category_pass(&mut keys, &collected, instrs, fee_payer, true, true);
    let sw_end = keys.len();
    let ghost g1 = keys@;
    category_pass(&mut keys, &collected, instrs, fee_payer, true, false);
    let boundary = keys.len();
    let ghost len2 = keys@.len() as int;
    let ghost g2 = keys@;
    category_pass(&mut keys, &collected, instrs, fee_payer, false, true);
    let w_end = keys.len();
    let ghost g3 = keys@;
    category_pass(&mut keys, &collected, instrs, fee_payer, false, false);
    proof {
        assert forall|t: int| 0 <= t < keys@.len() implies (spec_is_signer_key(
            instrs@,
            gfp,
            (#[trigger] keys@[t]).bytes@,
        ) <==> t < len2) by {
            if t == 0 {
                assert(keys@[0].bytes@ == gfp);
            }
        }
        assert forall|i: int, j: int|
            0 <= i < instrs@.len() && 0 <= j < instrs@[i].accounts@.len() implies spec_contains_key(
            keys@,
            (#[trigger] instrs@[i].accounts@[j]).pubkey.bytes@,
        ) by {
            let k = instrs@[i].accounts@[j].pubkey.bytes@;
            let w = choose|w: int| 0 <= w < collected@.len() && collected@[w].bytes@ == k;
            assert(spec_contains_key(keys@, collected@[w].bytes@));
        }
        assert forall|i: int| 0 <= i < instrs@.len() implies spec_contains_key(
            keys@,
            (#[trigger] instrs@[i]).program_id.bytes@,
        ) by {
            let k = instrs@[i].program_id.bytes@;
            let w = choose|w: int| 0 <= w < collected@.len() && collected@[w].bytes@ == k;
            assert(spec_contains_key(keys@, collected@[w].bytes@));
        }
        // Every table entry past the fee payer came out of `collected`, so
        // each is a referenced key.
        assert forall|t: int| 0 <= t < keys@.len() implies spec_key_referenced(
            instrs@,
            gfp,
            (#[trigger] keys@[t]).bytes@,
        ) by {
            if t == 0 {
                assert(keys@[0].bytes@ == gfp);
            } else {
                if t < g1.len() {
                    assert(keys@[t] == g1[t]);
                    assert(spec_contains_key(collected@, g1[t].bytes@));
                } else if t < g2.len() {
                    assert(keys@[t] == g2[t]);
                    assert(spec_contains_key(collected@, g2[t].bytes@));
                } else if t < g3.len() {
                    assert(keys@[t] == g3[t]);
                    assert(spec_contains_key(collected@, g3[t].bytes@));
                } else {
                    assert(spec_contains_key(collected@, keys@[t].bytes@));
                }
                let w = choose|w: int|
                    0 <= w < collected@.len() && collected@[w].bytes@ == keys@[t].bytes@;
                assert(spec_key_referenced(instrs@, gfp, collected@[w].bytes@));
            }
        }
        // The table holds each referenced key exactly once, so its length is
        // the number of distinct referenced keys.
        let views = keys@.map_values(|p: Pubkey| p.bytes@);
        assert(views.len() == keys@.len());
        assert(views.no_duplicates()) by {
            assert forall|a: int, b: int|
                0 <= a < views.len() && 0 <= b < views.len() && a != b implies views[a]
                != views[b] by {
                assert(views[a] == keys@[a].bytes@ && views[b] == keys@[b].bytes@);
            }
        }
        assert(views.to_set() =~= spec_referenced_keys(instrs@, gfp)) by {
            assert forall|k: Seq<u8>| views.to_set().contains(k) implies spec_referenced_keys(
                instrs@,
                gfp,
            ).contains(k) by {
                let t = choose|t: int| 0 <= t < views.len() && views[t] == k;
                assert(spec_key_referenced(instrs@, gfp, keys@[t].bytes@));
            }
            assert forall|k: Seq<u8>| spec_referenced_keys(instrs@, gfp).contains(k)
                implies views.to_set().contains(k) by {
                if k == gfp {
                    assert(views[0] == k);
                    assert(views.contains(k));
                } else if exists|i: int, j: int|
                    0 <= i < instrs@.len() && 0 <= j < instrs@[i].accounts@.len() && (
                #[trigger] instrs@[i].accounts@[j]).pubkey.bytes@ == k {
                    let (i, j) = choose|i: int, j: int|
                        0 <= i < instrs@.len() && 0 <= j < instrs@[i].accounts@.len() && (
                        #[trigger] instrs@[i].accounts@[j]).pubkey.bytes@ == k;
                    let t = choose|t: int| 0 <= t < keys@.len() && keys@[t].bytes@ == k;
                    assert(views[t] == k);
                    assert(views.contains(k));
                } else {
                    let i = choose|i: int|
                        0 <= i < instrs@.len() && (#[trigger] instrs@[i]).program_id.bytes@ == k;
                    let t = choose|t: int| 0 <= t < keys@.len() && keys@[t].bytes@ == k;
                    assert(views[t] == k);
                    assert(views.contains(k));
                }
            }
        }
        views.unique_seq_to_set();
        assert(spec_referenced_keys(instrs@, gfp).len() == keys@.len());
    }
    if keys.len() > 255 {
        return Err(
            BundlerError::InvalidInput(
                "transaction references too many distinct accounts".to_owned(),
            ),
        );
    }
    let readonly_signed = boundary - sw_end;
    let readonly_unsigned = keys.len() - w_end;
    let mut compiled: Vec<CompiledInstruction> = Vec::new();
    let n = instrs.len();
    let mut i: usize = 0;
    while i < n
        invariant
            n == instrs@.len(),
            i <= n,
            keys@.len() <= 255,
            compiled@.len() == i,
            forall|a: int, b: int|
                0 <= a < instrs@.len() && 0 <= b < instrs@[a].accounts@.len()
                    ==> spec_contains_key(
                    keys@,
                    (#[trigger] instrs@[a].accounts@[b]).pubkey.bytes@,
                ),
            forall|a: int|
                0 <= a < instrs@.len() ==> spec_contains_key(
                    keys@,
                    (#[trigger] instrs@[a]).program_id.bytes@,
                ),
            forall|a: int|
                0 <= a < i ==> {
                    let ci = #[trigger] compiled@[a];
                    &&& ci.data@ == instrs@[a].data@
                    &&& (ci.program_id_index as int) < keys@.len()
                    &&& keys@[ci.program_id_index as int].bytes@ == instrs@[a].program_id.bytes@
                    &&& ci.accounts@.len() == instrs@[a].accounts@.len()
                    &&& forall|b: int|
                        0 <= b < ci.accounts@.len() ==> ((#[trigger] ci.accounts@[b]) as int)
                            < keys@.len() && keys@[ci.accounts@[b] as int].bytes@
                            == instrs@[a].accounts@[b].pubkey.bytes@
                },
        decreases n - i,
    {
        let pidx = key_index(&keys, &instrs[i].program_id);
        let m = instrs[i].accounts.len();
        let mut accounts: Vec<u8> = Vec::new();
        let mut j: usize = 0;
        while j < m
            invariant
                n == instrs@.len(),
                i < n,
                m == instrs@[i as int].accounts@.len(),
                j <= m,
                keys@.len() <= 255,
                accounts@.len() == j,
                forall|a: int, b: int|
                    0 <= a < instrs@.len() && 0 <= b < instrs@[a].accounts@.len()
                        ==> spec_contains_key(
                        keys@,
                        (#[trigger] instrs@[a].accounts@[b]).pubkey.bytes@,
                    ),
                forall|b: int|
                    0 <= b < j ==> ((#[trigger] accounts@[b]) as int) < keys@.len()
                        && keys@[accounts@[b] as int].bytes@
                        == instrs@[i as int].accounts@[b].pubkey.bytes@,
            decreases m - j,
        {
            let aidx = key_index(&keys, &instrs[i].accounts[j].pubkey);
            accounts.push(aidx as u8);
            j = j + 1;
        }
        compiled.push(
            CompiledInstruction {
                program_id_index: pidx as u8,
                accounts,
                data: instrs[i].data.clone(),
            },
        );
        i = i + 1;
    }
    let msg = Message {
        header: MessageHeader {
            num_required_signatures: boundary as u8,
            num_readonly_signed_accounts: readonly_signed as u8,
            num_readonly_unsigned_accounts: readonly_unsigned as u8,
        },
        account_keys: keys,
        recent_blockhash: String::new(),
        instructions: compiled,
    };
    Ok(msg)
}

} // verus!

verus! {

/// The compute-budget program's address (the base58 form
/// `ComputeBudget111111111111111111111111111111`), as raw bytes.
pub open spec fn spec_compute_budget_id() -> Seq<u8> {
    seq![
        3u8, 6u8, 70u8, 111u8, 229u8, 33u8, 23u8, 50u8, 255u8, 236u8, 173u8, 186u8, 114u8, 195u8,
        155u8, 231u8, 188u8, 140u8, 229u8, 187u8, 197u8, 247u8, 18u8, 107u8, 44u8, 67u8, 155u8,
        58u8, 64u8, 0u8, 0u8, 0u8,
    ]
}

/// The compute-budget program's address.
pub fn compute_budget_program() -> (r: Pubkey)
    ensures
        r.bytes@ == spec_compute_budget_id(),
        r.wf(),
{
    let bytes: Vec<u8> = vec![
        3u8, 6u8, 70u8, 111u8, 229u8, 33u8, 23u8, 50u8, 255u8, 236u8, 173u8, 186u8, 114u8, 195u8,
        155u8, 231u8, 188u8, 140u8, 229u8, 187u8, 197u8, 247u8, 18u8, 107u8, 44u8, 67u8, 155u8,
        58u8, 64u8, 0u8, 0u8, 0u8,
    ];
    proof {
        assert(bytes@ =~= spec_compute_budget_id());
    }
    Pubkey { bytes }
}

/// The payload of a set-compute-unit-limit instruction: opcode 2, then the
/// limit in little-endian.
pub fn budget_data_limit(units: u32) -> (r: Vec<u8>)
    ensures
        r@ == seq![2u8] + vstd::bytes::spec_u32_to_le_bytes(units),
        r@.len() == 5,
        r@[0] == 2u8,
{
    proof {
        vstd::bytes::lemma_auto_spec_u32_to_from_le_bytes();
    }
    let le = vstd::bytes::u32_to_le_bytes(units);
    let mut out: Vec<u8> = Vec::new();
    out.push(2u8);
    let mut k: usize = 0;
    while k < 4
        invariant
            le@ == vstd::bytes::spec_u32_to_le_bytes(units),
            le@.len() == 4,
            k <= 4,
            out@.len() == 1 + k,
            out@[0] == 2u8,
            forall|t: int| 0 <= t < k ==> out@[1 + t] == le@[t],
        decreases 4 - k,
    {
        out.push(le[k]);
        k = k + 1;
    }
    proof {
        assert(out@ =~= seq![2u8] + le@);
    }
    out
}

/// The payload of a set-compute-unit-price instruction: opcode 3, then the
/// price in little-endian; decoding bytes 1..9 gives the price back.
pub fn budget_data_price(fee: u64) -> (r: Vec<u8>)
    ensures
        r@ == seq![3u8] + spec_u64_to_le_bytes(fee),
        r@.len() == 9,
        r@[0] == 3u8,
        spec_u64_from_le_bytes(r@.subrange(1, 9)) == fee,
{
    proof {
        lemma_auto_spec_u64_to_from_le_bytes();
    }
    let le = u64_to_le_bytes(fee);
    let mut out: Vec<u8> = Vec::new();
    out.push(3u8);
    let mut k: usize = 0;
    while k < 8
        invariant
            le@ == spec_u64_to_le_bytes(fee),
            le@.len() == 8,
            k <= 8,
            out@.len() == 1 + k,
            out@[0] == 3u8,
            forall|t: int| 0 <= t < k ==> out@[1 + t] == le@[t],
        decreases 8 - k,
    {
        out.push(le[k]);
        k = k + 1;
    }
    proof {
        assert(out@ =~= seq![3u8] + le@);
        assert(out@.subrange(1, 9) =~= le@);
        lemma_auto_spec_u64_to_from_le_bytes();
    }
    out
}

/// A transaction over `msg` with one empty (unsigned) slot per required
/// signer.
pub fn new_unsigned_transaction(msg: Message) -> (r: Transaction)
    ensures
        r.message == msg,
        r.signatures@.len() == msg.header.num_required_signatures as int,
        forall|i: int| 0 <= i < r.signatures@.len() ==> (#[trigger] r.signatures@[i])@.len() == 0,
{
    let n = msg.header.num_required_signatures;
    let mut signatures: Vec<Vec<u8>> = Vec::new();
    let mut i: u8 = 0;
    while i < n
        invariant
            i <= n,
            signatures@.len() == i as int,
            forall|j: int| 0 <= j < i as int ==> (#[trigger] signatures@[j])@.len() == 0,
        decreases n - i,
    {
        signatures.push(Vec::new());
        i = i + 1;
    }
    Transaction { signatures, message: msg }
}

/// Replaces the message's blockhash; everything else stands.
pub fn set_blockhash(tx: &mut Transaction, blockhash: String)
    ensures
        final(tx).message.recent_blockhash == blockhash,
        final(tx).message.header == old(tx).message.header,
        final(tx).message.account_keys == old(tx).message.account_keys,
        final(tx).message.instructions == old(tx).message.instructions,
        final(tx).signatures == old(tx).signatures,
{
    tx.message.recent_blockhash = blockhash;
}

/// Whether two compiled instructions agree entry for entry.
pub open spec fn spec_ci_eq(a: CompiledInstruction, b: CompiledInstruction) -> bool {
    &&& a.program_id_index == b.program_id_index
    &&& a.accounts@ == b.accounts@
    &&& a.data@ == b.data@
}

/// Copies one compiled instruction.
fn copy_compiled(ci: &CompiledInstruction) -> (r: CompiledInstruction)
    ensures
        spec_ci_eq(r, *ci),
{
    CompiledInstruction {
        program_id_index: ci.program_id_index,
        accounts: ci.accounts.clone(),
        data: ci.data.clone(),
    }
}

/// Whether instruction `i` of `msg` is a set-compute-unit-price
/// instruction: it calls the compute-budget program, its payload starts
/// with opcode 3 and is long enough to hold a price.
pub open spec fn spec_is_price_ix(msg: Message, i: int) -> bool {
    &&& 0 <= i < msg.instructions@.len()
    &&& (msg.instructions@[i].program_id_index as int) < msg.account_keys@.len()
    &&& msg.account_keys@[msg.instructions@[i].program_id_index as int].bytes@
        == spec_compute_budget_id()
    &&& msg.instructions@[i].data@.len() >= 9
    &&& msg.instructions@[i].data@[0] == 3u8
}

/// Rewrites the price in the first set-compute-unit-price instruction: its
/// payload bytes 1..9 become the new price in little-endian; every other
/// byte, instruction, key and signature stands. Fails with a `Transaction`
/// error when the message holds no such instruction.
pub fn update_transaction_fee(tx: &mut Transaction, new_fee: u64) -> (r: BundlerResult<()>)
    ensures
        r is Ok <==> exists|i: int| spec_is_price_ix(old(tx).message, i),
        r is Ok ==> exists|i: int|
            {
                &&& #[trigger] spec_is_price_ix(old(tx).message, i)
                &&& forall|j: int| 0 <= j < i ==> !spec_is_price_ix(old(tx).message, j)
                &&& final(tx).message.instructions@.len() == old(tx).message.instructions@.len()
                &&& forall|j: int|
                    0 <= j < old(tx).message.instructions@.len() && j != i ==> spec_ci_eq(
                        #[trigger] final(tx).message.instructions@[j],
                        old(tx).message.instructions@[j],
                    )
                &&& final(tx).message.instructions@[i].program_id_index == old(tx).message.instructions@[i].program_id_index
                &&& final(tx).message.instructions@[i].accounts@ == old(tx).message.instructions@[i].accounts@
                &&& final(tx).message.instructions@[i].data@.len() == old(tx).message.instructions@[i].data@.len()
                &&& final(tx).message.instructions@[i].data@[0] == 3u8
                &&& final(tx).message.instructions@[i].data@.subrange(1, 9)
                    == spec_u64_to_le_bytes(new_fee)
                &&& spec_u64_from_le_bytes(final(tx).message.instructions@[i].data@.subrange(1, 9))
                    == new_fee
                &&& forall|t: int|
                    9 <= t < final(tx).message.instructions@[i].data@.len() ==> final(tx).message.instructions@[i].data@[t] == old(tx).message.instructions@[i].data@[t]
            },
        final(tx).message.account_keys == old(tx).message.account_keys,
        final(tx).message.header == old(tx).message.header,
        final(tx).message.recent_blockhash == old(tx).message.recent_blockhash,
        final(tx).signatures == old(tx).signatures,
        r matches Err(e) ==> e is Transaction && final(tx).message.instructions == old(tx).message.instructions,
{
    let cb = compute_budget_program();
    let n = tx.message.instructions.len();
    let mut found: usize = n;
    let mut i: usize = 0;
    while i < n
        invariant_except_break
            found == n,
        invariant
            n == tx.message.instructions@.len(),
            i <= n,
            cb.bytes@ == spec_compute_budget_id(),
            forall|j: int| 0 <= j < i ==> !spec_is_price_ix(tx.message, j),
        ensures
            found <= n,
            found == n ==> forall|j: int| 0 <= j < n ==> !spec_is_price_ix(tx.message, j),
            found < n ==> spec_is_price_ix(tx.message, found as int) && (forall|j: int|
                0 <= j < found ==> !spec_is_price_ix(tx.message, j)),
        decreases n - i,
    {
        let ci = &tx.message.instructions[i];
        let pidx = ci.program_id_index as usize;
        let hit: bool = if pidx < tx.message.account_keys.len() {
            if ci.data.len() >= 9 {
                if ci.data[0] == 3u8 {
                    &tx.message.account_keys[pidx] == &cb
                } else {
                    false
                }
            } else {
                false
            }
        } else {
            false
        };
        proof {
            assert(i < tx.message.instructions@.len());
            if (ci.program_id_index as int) < tx.message.account_keys@.len() {
                if ci.data@.len() >= 9 {
                    if ci.data@[0] == 3u8 {
                        assert(hit == (tx.message.account_keys@[ci.program_id_index as int].bytes@
                            == cb.bytes@));
                        assert(cb.bytes@ == spec_compute_budget_id());
                        assert(hit == spec_is_price_ix(tx.message, i as int));
                    } else {
                        assert(!hit);
                        assert(!spec_is_price_ix(tx.message, i as int));
                    }
                } else {
                    assert(!hit);
                    assert(!spec_is_price_ix(tx.message, i as int));
                }
            } else {
                assert(!hit);
                assert(!spec_is_price_ix(tx.message, i as int));
            }
            assert(hit == spec_is_price_ix(tx.message, i as int));
        }
        if hit {
            found = i;
            break;
        }
        i = i + 1;
    }
    if found == n {
        return Err(BundlerError::Transaction("no compute-unit-price instruction".to_owned()));
    }
    let le = u64_to_le_bytes(new_fee);
    proof {
        lemma_auto_spec_u64_to_from_le_bytes();
    }
    let mut data: Vec<u8> = tx.message.instructions[found].data.clone();
    let mut k: usize = 0;
    while k < 8
        invariant
            le@ == spec_u64_to_le_bytes(new_fee),
            le@.len() == 8,
            k <= 8,
            data@.len() == tx.message.instructions@[found as int].data@.len() >= 9,
            found < tx.message.instructions@.len(),
            data@[0] == tx.message.instructions@[found as int].data@[0],
            forall|t: int| 0 <= t < k ==> data@[1 + t] == le@[t],
            forall|t: int|
                9 <= t < data@.len() ==> data@[t] == tx.message.instructions@[found as int].data@[t],
        decreases 8 - k,
    {
        data.set(1 + k, le[k]);
        k = k + 1;
    }
    let replacement = CompiledInstruction {
        program_id_index: tx.message.instructions[found].program_id_index,
        accounts: tx.message.instructions[found].accounts.clone(),
        data,
    };
    let mut rebuilt: Vec<CompiledInstruction> = Vec::new();
    let ghost old_instrs = tx.message.instructions@;
    let mut j: usize = 0;
    while j < n
        invariant
            n == tx.message.instructions@.len(),
            old_instrs == tx.message.instructions@,
            j <= n,
            found < n,
            rebuilt@.len() == j,
            forall|t: int| 0 <= t < j && t != found as int ==> spec_ci_eq(#[trigger] rebuilt@[t], old_instrs[t]),
            j > found ==> spec_ci_eq(rebuilt@[found as int], replacement),
        decreases n - j,
    {
        if j == found {
            rebuilt.push(copy_compiled(&replacement));
        } else {
            rebuilt.push(copy_compiled(&tx.message.instructions[j]));
        }
        j = j + 1;
    }
    proof {
        assert(data@.subrange(1, 9) =~= le@);
    }
    tx.message.instructions = rebuilt;
    Ok(())
}

/// Writes `sig` into the signature slot of `signer`: the slot at the
/// position of the signer's key in the account table. Returns whether a
/// slot was written; a key that is absent or stands past the signature
/// slots leaves the transaction unchanged.
pub fn place_signature(tx: &mut Transaction, signer: &Pubkey, sig: Vec<u8>) -> (placed: bool)
    ensures
        final(tx).message == old(tx).message,
        final(tx).signatures@.len() == old(tx).signatures@.len(),
        placed ==> exists|i: int|
            {
                &&& 0 <= i < old(tx).message.account_keys@.len()
                &&& (#[trigger] old(tx).message.account_keys@[i]).bytes@ == signer.bytes@
                &&& forall|j: int|
                    0 <= j < i ==> old(tx).message.account_keys@[j].bytes@ != signer.bytes@
                &&& i < old(tx).signatures@.len()
                &&& final(tx).signatures@[i]@ == sig@
                &&& forall|j: int|
                    0 <= j < old(tx).signatures@.len() && j != i ==> (#[trigger] final(tx).signatures@[j])@ == old(tx).signatures@[j]@
            },
        !placed ==> final(tx).signatures == old(tx).signatures && !(exists|i: int|
            0 <= i < old(tx).message.account_keys@.len() && (#[trigger] old(tx).message.account_keys@[i]).bytes@ == signer.bytes@ && i < old(tx).signatures@.len()
                && (forall|j: int|
                0 <= j < i ==> old(tx).message.account_keys@[j].bytes@ != signer.bytes@)),
{
    let nk = tx.message.account_keys.len();
    let mut idx: usize = nk;
    let mut i: usize = 0;
    while i < nk
        invariant_except_break
            idx == nk,
        invariant
            nk == tx.message.account_keys@.len(),
            i <= nk,
            forall|j: int|
                0 <= j < i ==> (#[trigger] tx.message.account_keys@[j]).bytes@ != signer.bytes@,
        ensures
            idx <= nk,
            idx == nk ==> forall|j: int|
                0 <= j < nk ==> (#[trigger] tx.message.account_keys@[j]).bytes@ != signer.bytes@,
            idx < nk ==> tx.message.account_keys@[idx as int].bytes@ == signer.bytes@ && (forall|
                j: int,
            |
                0 <= j < idx ==> (#[trigger] tx.message.account_keys@[j]).bytes@ != signer.bytes@),
        decreases nk - i,
    {
        if &tx.message.account_keys[i] == signer {
            idx = i;
            break;
        }
        i = i + 1;
    }
    if idx == nk {
        return false;
    }
    if idx >= tx.signatures.len() {
        return false;
    }
    let ns = tx.signatures.len();
    let mut rebuilt: Vec<Vec<u8>> = Vec::new();
    let ghost old_sigs = tx.signatures@;
    let mut j: usize = 0;
    while j < ns
        invariant
            ns == tx.signatures@.len(),
            old_sigs == tx.signatures@,
            j <= ns,
            idx < ns,
            rebuilt@.len() == j,
            forall|t: int| 0 <= t < j && t != idx as int ==> (#[trigger] rebuilt@[t])@ == old_sigs[t]@,
            j > idx ==> rebuilt@[idx as int]@ == sig@,
        decreases ns - j,
    {
        if j == idx {
            rebuilt.push(sig.clone());
        } else {
            rebuilt.push(tx.signatures[j].clone());
        }
        j = j + 1;
    }
    tx.signatures = rebuilt;
    true
}

} // verus!
