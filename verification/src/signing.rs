use vstd::prelude::*;
use vstd::string::StringExecFns;
use solana_sdk::signature::Keypair;
use solana_sdk::signature::Signer;
use crate::codec::b58_decode_of;
use crate::codec::base58_decode;
use crate::codec::json_byte_array_of;
use crate::codec::parse_json_byte_array;
use crate::errors::BundlerError;
use crate::errors::BundlerResult;
use crate::transaction::place_signature;
use crate::transaction::Transaction;
use crate::types::Pubkey;

verus! {

/// An ed25519 keypair is 64 bytes: the secret half, then the public half.
pub const KEYPAIR_LENGTH: usize = 64;

/// Whether 64 bytes are a coherent ed25519 keypair: the public half is the
/// one derived from the secret half. A function of the bytes alone.
pub uninterp spec fn keypair_coherent(keypair: Seq<u8>) -> bool;

/// The ed25519 signature of `message` under `keypair`: a function of the
/// two alone.
pub uninterp spec fn ed25519_sig_of(keypair: Seq<u8>, message: Seq<u8>) -> Seq<u8>;

/// Relies on solana_sdk's Keypair: `try_from` accepts exactly the 64-byte
/// material whose public half matches its secret half, and `sign_message`
/// then produces the deterministic ed25519 signature, 64 bytes long.
#[verifier::external_body]
fn ed25519_sign(keypair: &Vec<u8>, message: &Vec<u8>) -> (r: Option<Vec<u8>>)
    ensures
        r is Some <==> (keypair@.len() == 64 && keypair_coherent(keypair@)),
        r matches Some(s) ==> s@ == ed25519_sig_of(keypair@, message@) && s@.len() == 64,
{
    match Keypair::try_from(keypair.as_slice()) {
        Ok(kp) => Some(kp.sign_message(message.as_slice()).as_ref().to_vec()),
        Err(_) => None,
    }
}

/// Relies on solana_sdk's Keypair: `try_from` accepts exactly the 64-byte
/// material whose public half matches its secret half.
#[verifier::external_body]
fn check_keypair(bytes: &Vec<u8>) -> (r: bool)
    ensures
        r <==> (bytes@.len() == 64 && keypair_coherent(bytes@)),
{
    Keypair::try_from(bytes.as_slice()).is_ok()
}

/// Where a signer's key material lives: locally as raw keypair bytes, or
/// behind a remote KMS.
#[derive(Debug, Clone)]
pub enum KeyProvider {
    /// A keypair held in memory, loaded from a file or the environment.
    Local { keypair: Vec<u8> },
    /// A remote key; this variant is a stub that fails cleanly.
    Kms { key_id: String, region: String },
}

impl KeyProvider {
    /// A local provider holds exactly 64 coherent keypair bytes.
    pub open spec fn wf(&self) -> bool {
        self matches KeyProvider::Local { keypair } ==> keypair@.len() == 64 && keypair_coherent(
            keypair@,
        )
    }

    /// The public half of the key. A local provider always has one; the KMS
    /// stub fails with a `Signing` error.
    pub fn public_key(&self) -> (r: BundlerResult<Pubkey>)
        requires
            self.wf(),
        ensures
            r is Ok <==> self is Local,
            self matches KeyProvider::Local { keypair } ==> (r matches Ok(k) && k.wf() && k.bytes@
                == keypair@.subrange(32, 64)),
            r matches Err(e) ==> e is Signing,
    {
        match self {
            KeyProvider::Local { keypair } => {
                let mut bytes: Vec<u8> = Vec::new();
                let mut i: usize = 32;
                while i < 64
                    invariant
                        keypair@.len() == 64,
                        32 <= i <= 64,
                        bytes@.len() == i - 32,
                        forall|j: int| 0 <= j < i - 32 ==> bytes@[j] == keypair@[32 + j],
                    decreases 64 - i,
                {
                    bytes.push(keypair[i]);
                    i = i + 1;
                }
                proof {
                    assert(bytes@ =~= keypair@.subrange(32, 64));
                }
                Ok(Pubkey { bytes })
            },
            KeyProvider::Kms { key_id: _, region: _ } => {
                Err(BundlerError::Signing("KMS public key retrieval not implemented".to_owned()))
            },
        }
    }

    /// Signs a message. A local provider always succeeds and yields the
    /// ed25519 signature under its keypair; the KMS stub fails with a
    /// `Signing` error.
    pub fn sign(&self, message: &Vec<u8>) -> (r: BundlerResult<Vec<u8>>)
        requires
            self.wf(),
        ensures
            r is Ok <==> self is Local,
            self matches KeyProvider::Local { keypair } ==> (r matches Ok(s) && s@
                == ed25519_sig_of(keypair@, message@) && s@.len() == 64),
            r matches Err(e) ==> e is Signing,
    {
        match self {
            KeyProvider::Local { keypair } => {
                match ed25519_sign(keypair, message) {
                    Some(s) => Ok(s),
                    None => Err(BundlerError::Signing("invalid keypair bytes".to_owned())),
                }
            },
            KeyProvider::Kms { key_id: _, region: _ } => {
                Err(BundlerError::Signing("KMS signing not implemented".to_owned()))
            },
        }
    }

    /// Whether the provider can sign: local material always can once
    /// loaded; the KMS stub reports failure.
    pub fn health_check(&self) -> (r: BundlerResult<()>)
        ensures
            r is Ok <==> self is Local,
            r matches Err(e) ==> e is Signing,
    {
        match self {
            KeyProvider::Local { keypair: _ } => Ok(()),
            KeyProvider::Kms { key_id: _, region: _ } => {
                Err(BundlerError::Signing("KMS health check not implemented".to_owned()))
            },
        }
    }
}

/// Parses key material read from a keypair file: either exactly 64 raw
/// bytes, or a JSON array of 64 byte values, and in both shapes the bytes
/// must be a coherent keypair. Anything else fails with a `Signing` error.
pub fn parse_file_keypair(raw: &Vec<u8>, as_text: &str) -> (r: BundlerResult<Vec<u8>>)
    ensures
        raw@.len() == 64 ==> (if keypair_coherent(raw@) {
            r matches Ok(k) && k@ == raw@
        } else {
            r matches Err(e) && e is Signing
        }),
        raw@.len() != 64 ==> match json_byte_array_of(as_text@) {
            Some(v) => if v.len() == 64 && keypair_coherent(v) {
                r matches Ok(k) && k@ == v
            } else {
                r matches Err(e) && e is Signing
            },
            None => r matches Err(e) && e is Signing,
        },
        r matches Ok(k) ==> k@.len() == 64 && keypair_coherent(k@),
{
    if raw.len() == 64 {
        if check_keypair(raw) {
            return Ok(raw.clone());
        }
        return Err(BundlerError::Signing("invalid keypair bytes".to_owned()));
    }
    match parse_json_byte_array(as_text) {
        Some(v) => {
            if v.len() == 64 {
                if check_keypair(&v) {
                    Ok(v)
                } else {
                    Err(BundlerError::Signing("invalid keypair bytes".to_owned()))
                }
            } else {
                Err(BundlerError::Signing("keypair must be 64 bytes".to_owned()))
            }
        },
        None => Err(BundlerError::Signing("failed to parse keypair JSON".to_owned())),
    }
}

/// Parses key material read from an environment variable: base58 text of a
/// 64-byte keypair, or a JSON array of 64 byte values, and in both shapes
/// the bytes must be a coherent keypair. Anything else fails with a
/// `Signing` error.
pub fn parse_env_keypair(text: &str) -> (r: BundlerResult<Vec<u8>>)
    ensures
        match b58_decode_of(text@) {
            Some(v) => if v.len() == 64 && keypair_coherent(v) {
                r matches Ok(k) && k@ == v
            } else {
                r matches Err(e) && e is Signing
            },
            None => match json_byte_array_of(text@) {
                Some(v) => if v.len() == 64 && keypair_coherent(v) {
                    r matches Ok(k) && k@ == v
                } else {
                    r matches Err(e) && e is Signing
                },
                None => r matches Err(e) && e is Signing,
            },
        },
        r matches Ok(k) ==> k@.len() == 64 && keypair_coherent(k@),
{
    match base58_decode(text) {
        Some(v) => {
            if v.len() == 64 {
                if check_keypair(&v) {
                    Ok(v)
                } else {
                    Err(BundlerError::Signing("invalid keypair bytes".to_owned()))
                }
            } else {
                Err(BundlerError::Signing("base58 keypair must decode to 64 bytes".to_owned()))
            }
        },
        None => {
            match parse_json_byte_array(text) {
                Some(v) => {
                    if v.len() == 64 {
                        if check_keypair(&v) {
                            Ok(v)
                        } else {
                            Err(BundlerError::Signing("invalid keypair bytes".to_owned()))
                        }
                    } else {
                        Err(BundlerError::Signing("JSON keypair must be 64 bytes".to_owned()))
                    }
                },
                None => Err(BundlerError::Signing("failed to parse keypair JSON".to_owned())),
            }
        },
    }
}

/// Whether `alias` is registered among the additional signers.
pub open spec fn spec_alias_known(signers: Seq<(String, KeyProvider)>, alias: Seq<char>) -> bool {
    exists|i: int| 0 <= i < signers.len() && (#[trigger] signers[i]).0@ == alias
}

/// Whether every provider registered under `alias` holds local key
/// material.
pub open spec fn spec_alias_all_local(signers: Seq<(String, KeyProvider)>, alias: Seq<char>) -> bool {
    forall|i: int|
        0 <= i < signers.len() && (#[trigger] signers[i]).0@ == alias ==> signers[i].1 is Local
}

/// The first listed alias with no registered signer, if any.
pub open spec fn spec_first_unknown_alias(
    aliases: Seq<String>,
    signers: Seq<(String, KeyProvider)>,
    k: int,
) -> Option<int>
    decreases aliases.len() - k,
{
    if k < 0 || k >= aliases.len() {
        None
    } else if !spec_alias_known(signers, aliases[k]@) {
        Some(k)
    } else {
        spec_first_unknown_alias(aliases, signers, k + 1)
    }
}

/// What the scan for the first unknown alias yields: an index at or past
/// where it started, naming an unregistered alias.
proof fn lemma_first_unknown_props(
    aliases: Seq<String>,
    signers: Seq<(String, KeyProvider)>,
    i: int,
)
    requires
        0 <= i,
    ensures
        spec_first_unknown_alias(aliases, signers, i) matches Some(k) ==> (i <= k < aliases.len()
            && !spec_alias_known(signers, aliases[k]@)),
    decreases aliases.len() - i,
{
    if 0 <= i < aliases.len() && spec_alias_known(signers, aliases[i]@) {
        lemma_first_unknown_props(aliases, signers, i + 1);
    }
}

/// Holds the fee payer's key and any additional signers, each under an
/// alias.
#[derive(Debug, Clone)]
pub struct SigningManager {
    pub fee_payer: KeyProvider,
    pub additional_signers: Vec<(String, KeyProvider)>,
    pub parallel_signing: bool,
}

impl SigningManager {
    /// Every provider holds coherent key material.
    pub open spec fn wf(&self) -> bool {
        &&& self.fee_payer.wf()
        &&& forall|i: int|
            0 <= i < self.additional_signers@.len() ==> (#[trigger] self.additional_signers@[
            i]).1.wf()
    }

    /// A manager over the given providers. Local providers must hold
    /// 64-byte coherent keypairs; anything else is rejected with a
    /// `Signing` error.
    pub fn new(
        fee_payer: KeyProvider,
        additional_signers: Vec<(String, KeyProvider)>,
        parallel_signing: bool,
    ) -> (r: BundlerResult<SigningManager>)
        ensures
            r is Ok <==> (fee_payer.wf() && forall|i: int|
                0 <= i < additional_signers@.len() ==> (#[trigger] additional_signers@[i]).1.wf()),
            r matches Ok(m) ==> m.wf() && m.fee_payer == fee_payer && m.additional_signers@
                == additional_signers@ && m.parallel_signing == parallel_signing,
            r matches Err(e) ==> e is Signing,
    {
        let ok_fp = match &fee_payer {
            KeyProvider::Local { keypair } => check_keypair(keypair),
            KeyProvider::Kms { key_id: _, region: _ } => true,
        };
        if !ok_fp {
            return Err(BundlerError::Signing("invalid keypair bytes".to_owned()));
        }
        let n = additional_signers.len();
        let mut i: usize = 0;
        while i < n
            invariant
                n == additional_signers@.len(),
                i <= n,
                forall|j: int| 0 <= j < i ==> (#[trigger] additional_signers@[j]).1.wf(),
            decreases n - i,
        {
            let ok = match &additional_signers[i].1 {
                KeyProvider::Local { keypair } => check_keypair(keypair),
                KeyProvider::Kms { key_id: _, region: _ } => true,
            };
            if !ok {
                return Err(BundlerError::Signing("invalid keypair bytes".to_owned()));
            }
            i = i + 1;
        }
        Ok(SigningManager { fee_payer, additional_signers, parallel_signing })
    }

    /// The fee payer's public key.
    pub fn fee_payer_pubkey(&self) -> (r: BundlerResult<Pubkey>)
        requires
            self.wf(),
        ensures
            r is Ok <==> self.fee_payer is Local,
            self.fee_payer matches KeyProvider::Local { keypair } ==> (r matches Ok(k) && k.wf()
                && k.bytes@ == keypair@.subrange(32, 64)),
            r matches Err(e) ==> e is Signing,
    {
        self.fee_payer.public_key()
    }

    /// The fee payer's public key (alias).
    pub fn get_fee_payer_pubkey(&self) -> (r: BundlerResult<Pubkey>)
        requires
            self.wf(),
        ensures
            r is Ok <==> self.fee_payer is Local,
            r matches Err(e) ==> e is Signing,
    {
        self.fee_payer.public_key()
    }

    /// The provider registered under `alias`, if any: the first entry whose
    /// alias matches.
    pub fn get_signer(&self, alias: &String) -> (r: Option<&KeyProvider>)
        ensures
            r is Some <==> spec_alias_known(self.additional_signers@, alias@),
            r matches Some(p) ==> exists|i: int|
                0 <= i < self.additional_signers@.len() && (#[trigger] self.additional_signers@[
                i]).0@ == alias@ && p == &self.additional_signers@[i].1,
    {
        let n = self.additional_signers.len();
        let mut i: usize = 0;
        while i < n
            invariant
                n == self.additional_signers@.len(),
                i <= n,
                forall|j: int|
                    0 <= j < i ==> (#[trigger] self.additional_signers@[j]).0@ != alias@,
            decreases n - i,
        {
            if self.additional_signers[i].0 == *alias {
                return Some(&self.additional_signers[i].1);
            }
            i = i + 1;
        }
        None
    }

    /// Signs `tx` with the fee payer over the given serialized message
    /// bytes, writing the signature into the slot of the fee payer's key.
    /// With a local fee payer the call succeeds, and the returned flag says
    /// whether the key stood in the account table within the signature
    /// slots; the KMS stub fails with a `Signing` error, leaving the
    /// transaction unchanged.
    pub fn sign_transaction(&self, tx: &mut Transaction, message_bytes: &Vec<u8>) -> (r:
        BundlerResult<bool>)
        requires
            self.wf(),
        ensures
            final(tx).message == old(tx).message,
            final(tx).signatures@.len() == old(tx).signatures@.len(),
            r is Ok <==> self.fee_payer is Local,
            r matches Err(e) ==> e is Signing && final(tx).signatures == old(tx).signatures,
            self.fee_payer matches KeyProvider::Local { keypair } ==> r matches Ok(placed)
                ==> (placed <==> exists|i: int|
                0 <= i < old(tx).message.account_keys@.len() && (#[trigger] old(tx).message.account_keys@[i]).bytes@ == keypair@.subrange(32, 64) && i < old(tx).signatures@.len() && (forall|j: int|
                    0 <= j < i ==> old(tx).message.account_keys@[j].bytes@ != keypair@.subrange(
                        32,
                        64,
                    ))),
            self.fee_payer matches KeyProvider::Local { keypair } ==> r matches Ok(placed)
                ==> placed ==> exists|i: int|
                {
                    &&& 0 <= i < old(tx).message.account_keys@.len()
                    &&& (#[trigger] old(tx).message.account_keys@[i]).bytes@ == keypair@.subrange(
                        32,
                        64,
                    )
                    &&& i < old(tx).signatures@.len()
                    &&& final(tx).signatures@[i]@ == ed25519_sig_of(keypair@, message_bytes@)
                    &&& forall|j: int|
                        0 <= j < old(tx).signatures@.len() && j != i ==> (#[trigger] final(tx).signatures@[j])@ == old(tx).signatures@[j]@
                },
            (r matches Ok(placed) && !placed) ==> final(tx).signatures == old(tx).signatures,
    {
        let sig = match self.fee_payer.sign(message_bytes) {
            Ok(s) => s,
            Err(e) => {
                return Err(e);
            },
        };
        let pk = match self.fee_payer.public_key() {
            Ok(k) => k,
            Err(e) => {
                return Err(e);
            },
        };
        Ok(place_signature(tx, &pk, sig))
    }

    /// Signs `tx` with each listed alias over the given serialized message
    /// bytes, each signature into its key's slot. An unknown alias fails
    /// with a `Signing` error naming it; with every alias registered to a
    /// local signer, the whole pass succeeds.
    pub fn sign_with_additional(
        &self,
        tx: &mut Transaction,
        signer_aliases: &Vec<String>,
        message_bytes: &Vec<u8>,
    ) -> (r: BundlerResult<()>)
        requires
            self.wf(),
        ensures
            final(tx).message == old(tx).message,
            final(tx).signatures@.len() == old(tx).signatures@.len(),
            r matches Err(e) ==> e is Signing,
            r is Ok ==> forall|k: int|
                0 <= k < signer_aliases@.len() ==> spec_alias_known(
                    self.additional_signers@,
                    (#[trigger] signer_aliases@[k])@,
                ),
            (forall|k: int|
                0 <= k < signer_aliases@.len() ==> spec_alias_known(
                    self.additional_signers@,
                    (#[trigger] signer_aliases@[k])@,
                ) && spec_alias_all_local(
                    self.additional_signers@,
                    signer_aliases@[k]@,
                )) ==> r is Ok,
            spec_first_unknown_alias(signer_aliases@, self.additional_signers@, 0) matches Some(k)
                ==> (forall|j: int|
                0 <= j < k ==> spec_alias_all_local(
                    self.additional_signers@,
                    (#[trigger] signer_aliases@[j])@,
                )) ==> (r matches Err(e) && e is Signing && e.spec_message() == "signer alias '"@
                + signer_aliases@[k]@ + "' not found"@),
    {
        let n = signer_aliases.len();
        let mut i: usize = 0;
        while i < n
            invariant
                self.wf(),
                n == signer_aliases@.len(),
                i <= n,
                tx.message == old(tx).message,
                tx.signatures@.len() == old(tx).signatures@.len(),
                forall|k: int|
                    0 <= k < i ==> spec_alias_known(
                        self.additional_signers@,
                        (#[trigger] signer_aliases@[k])@,
                    ),
                spec_first_unknown_alias(signer_aliases@, self.additional_signers@, i as int)
                    == spec_first_unknown_alias(signer_aliases@, self.additional_signers@, 0),
            decreases n - i,
        {
            let provider = match self.get_signer(&signer_aliases[i]) {
                Some(p) => p,
                None => {
                    let mut msg = String::from_str("signer alias '");
                    msg.append(signer_aliases[i].as_str());
                    msg.append("' not found");
                    proof {
                        assert(spec_first_unknown_alias(
                            signer_aliases@,
                            self.additional_signers@,
                            i as int,
                        ) == Some(i as int));
                        assert(msg@ =~= "signer alias '"@ + signer_aliases@[i as int]@
                            + "' not found"@);
                    }
                    return Err(BundlerError::Signing(msg));
                },
            };
            proof {
                let w = choose|w: int|
                    0 <= w < self.additional_signers@.len() && (self.additional_signers@[w]).0@
                        == signer_aliases@[i as int]@ && provider == &self.additional_signers@[w].1;
                assert(self.additional_signers@[w].1.wf());
                if spec_alias_all_local(self.additional_signers@, signer_aliases@[i as int]@) {
                    assert(self.additional_signers@[w].1 is Local);
                }
                match spec_first_unknown_alias(signer_aliases@, self.additional_signers@, 0) {
                    Some(k) => {
                        lemma_first_unknown_props(
                            signer_aliases@,
                            self.additional_signers@,
                            i as int,
                        );
                        assert(i as int <= k);
                        assert(k != i as int);
                        if forall|j: int|
                            0 <= j < k ==> spec_alias_all_local(
                                self.additional_signers@,
                                (#[trigger] signer_aliases@[j])@,
                            ) {
                            assert(spec_alias_all_local(
                                self.additional_signers@,
                                signer_aliases@[i as int]@,
                            ));
                            assert(*provider is Local);
                        }
                    },
                    None => {},
                }
            }
            let sig = match provider.sign(message_bytes) {
                Ok(s) => s,
                Err(e) => {
                    return Err(e);
                },
            };
            let pk = match provider.public_key() {
                Ok(k) => k,
                Err(e) => {
                    return Err(e);
                },
            };
            place_signature(tx, &pk, sig);
            i = i + 1;
        }
        Ok(())
    }

    /// Signs with the fee payer, then with each listed alias.
    pub fn sign_transaction_with_signers(
        &self,
        tx: &mut Transaction,
        signer_aliases: &Vec<String>,
        message_bytes: &Vec<u8>,
    ) -> (r: BundlerResult<()>)
        requires
            self.wf(),
        ensures
            final(tx).message == old(tx).message,
            r matches Err(e) ==> e is Signing,
            r is Ok ==> forall|k: int|
                0 <= k < signer_aliases@.len() ==> spec_alias_known(
                    self.additional_signers@,
                    (#[trigger] signer_aliases@[k])@,
                ),
            (self.fee_payer is Local && forall|k: int|
                0 <= k < signer_aliases@.len() ==> spec_alias_known(
                    self.additional_signers@,
                    (#[trigger] signer_aliases@[k])@,
                ) && spec_alias_all_local(
                    self.additional_signers@,
                    signer_aliases@[k]@,
                )) ==> r is Ok,
    {
        match self.sign_transaction(tx, message_bytes) {
            Ok(_) => {},
            Err(e) => {
                return Err(e);
            },
        }
        self.sign_with_additional(tx, signer_aliases, message_bytes)
    }

    /// Whether every configured signer can sign: local keys always can; the
    /// KMS stub cannot.
    pub fn health_check(&self) -> (r: BundlerResult<()>)
        ensures
            r is Ok <==> (self.fee_payer is Local && forall|i: int|
                0 <= i < self.additional_signers@.len() ==> (#[trigger] self.additional_signers@[
                i]).1 is Local),
            r matches Err(e) ==> e is Signing,
    {
        match self.fee_payer.health_check() {
            Ok(_) => {},
            Err(e) => {
                return Err(e);
            },
        }
        let n = self.additional_signers.len();
        let mut i: usize = 0;
        while i < n
            invariant
                n == self.additional_signers@.len(),
                i <= n,
                forall|j: int|
                    0 <= j < i ==> (#[trigger] self.additional_signers@[j]).1 is Local,
            decreases n - i,
        {
            match self.additional_signers[i].1.health_check() {
                Ok(_) => {},
                Err(e) => {
                    return Err(e);
                },
            }
            i = i + 1;
        }
        Ok(())
    }
}

} // verus!
